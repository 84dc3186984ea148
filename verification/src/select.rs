//! The event sources that can end a run early, and the selector that watches them.
//!
//! Everything here that touches `crossbeam_channel` is trusted: the contracts restate what
//! that crate's source shows and are not proved.

use vstd::prelude::*;
use crossbeam_channel::{Receiver, Select};
use std::time::{Duration, Instant};

verus! {

/// `crossbeam_channel::Receiver`, the receiving side of a channel. The library only hands
/// it on and has it watched; it never takes a message out.
#[verifier::external_type_specification]
#[verifier::external_body]
#[verifier::reject_recursive_types(T)]
pub struct ExReceiver<T>(crossbeam_channel::Receiver<T>);

/// `crossbeam_channel::Select`, a list of channel operations that can be asked which of
/// them is ready. What it watches is spoken of through [`select_ops`] and [`select_next`].
#[verifier::external_type_specification]
#[verifier::external_body]
pub struct ExSelect<'a>(crossbeam_channel::Select<'a>);

/// `std::time::Instant`, the message type of a ticker. No value of it is ever looked at.
#[verifier::external_type_specification]
#[verifier::external_body]
pub struct ExInstant(std::time::Instant);

/// The indices of the operations that a selector currently watches.
pub uninterp spec fn select_ops(sel: &Select<'_>) -> Set<usize>;

/// The index that a selector gives to the next operation added to it.
pub uninterp spec fn select_next(sel: &Select<'_>) -> usize;

/// `Select::new`: a selector that watches nothing and numbers its operations from zero.
#[verifier::external_body]
pub(crate) fn select_new<'a>() -> (sel: Select<'a>)
    ensures
        select_ops(&sel) == Set::<usize>::empty(),
        select_next(&sel) == 0,
{
    Select::new()
}

/// `Select::recv`: adds a receive operation on `r`. The operation gets the selector's next
/// index, which no watched operation has, and the counter moves on by one. The counter is
/// incremented with `+=`, so it must not stand at its maximum.
#[verifier::external_body]
pub(crate) fn select_recv<'a, T>(sel: &mut Select<'a>, r: &'a Receiver<T>) -> (index: usize)
    requires
        select_next(old(sel)) < usize::MAX,
    ensures
        index == select_next(old(sel)),
        !select_ops(old(sel)).contains(index),
        select_ops(final(sel)) == select_ops(old(sel)).insert(index),
        select_next(final(sel)) == index + 1,
{
    sel.recv(r)
}

/// `Select::remove`: stops watching the operation with this index. The crate panics when no
/// watched operation has the index, so the caller must know that one has.
#[verifier::external_body]
pub(crate) fn select_remove(sel: &mut Select<'_>, index: usize)
    requires
        select_ops(old(sel)).contains(index),
    ensures
        select_ops(final(sel)) == select_ops(old(sel)).remove(index),
        select_next(final(sel)) == select_next(old(sel)),
{
    sel.remove(index)
}

/// `Select::try_ready`: without blocking, the index of some watched operation that is ready,
/// or `None` when none is. Which one, and whether any, depends on the channels at the moment
/// of the call; the contract only says that a reported index is a watched one and that the
/// selector watches the same operations afterwards.
#[verifier::external_body]
pub(crate) fn select_try_ready(sel: &mut Select<'_>) -> (ready: Option<usize>)
    ensures
        ready matches Some(index) ==> select_ops(old(sel)).contains(index),
        select_ops(final(sel)) == select_ops(old(sel)),
        select_next(final(sel)) == select_next(old(sel)),
{
    sel.try_ready().ok()
}

/// `crossbeam_channel::tick`: a receiver that becomes ready every `period`, counted from the
/// call. Nothing is claimed of it: when it is ready depends on the clock.
#[verifier::external_body]
pub(crate) fn tick(period: Duration) -> Receiver<Instant> {
    crossbeam_channel::tick(period)
}

/// The event sources of one run: an optional cancellation channel, which the run only ever
/// listens to, and an optional ticker whose first tick marks the timeout.
pub struct Sources {
    pub cancel: Option<Receiver<()>>,
    pub ticks: Option<Receiver<Instant>>,
}

impl Sources {
    /// The sources for a run with this cancellation channel and this timeout. The timeout is
    /// measured from this call.
    pub fn new(cancel: Option<Receiver<()>>, timeout: Option<Duration>) -> (sources: Sources)
        ensures
            sources.cancel == cancel,
            sources.ticks is Some <==> timeout is Some,
    {
        let ticks = match timeout {
            Some(period) => Some(tick(period)),
            None => None,
        };
        Sources { cancel, ticks }
    }

    /// Sources that never fire.
    pub fn none() -> (sources: Sources)
        ensures
            sources.cancel is None,
            sources.ticks is None,
    {
        Sources { cancel: None, ticks: None }
    }
}

} // verus!
