//! The numbers of the signals that the library tells apart.

use vstd::prelude::*;

verus! {

/// `signal_hook::consts::SIGINT`, the number of the interrupt signal. The constant is the
/// platform's own; every platform that the signal crates cover defines it as 2.
#[verifier::external_body]
pub(crate) fn sigint() -> (signal: i32)
    ensures
        signal == 2,
{
    signal_hook::consts::SIGINT
}

/// `signal_hook::consts::SIGKILL`, the number of the signal that a kill sends. The constant
/// is the platform's own; every platform that defines it defines it as 9.
#[verifier::external_body]
pub(crate) fn sigkill() -> (signal: i32)
    ensures
        signal == 9,
{
    signal_hook::consts::SIGKILL
}

} // verus!
