//! Supervised execution of external commands: the decisions of a run, verified.
//!
//! A supervised run starts a child process, races its exit against an optional timeout and
//! an optional cancellation signal, drains what the child writes, and ends with one terminal
//! result. This crate holds every decision of such a run and proves what it promises of
//! them; it starts no process and reads no pipe itself. The caller owns the children: it
//! does what the [`monitor`] asks, reads what the [`drain`] wants, and reports back.
//!
//! * [`command`]: the descriptor of a command and its builder.
//! * [`monitor`]: the state machine that races exit, timeout and cancellation, for one child
//!   or for two joined by a pipe; [`race`] states what holds of every run of it.
//! * [`drain`]: the accumulation of the two output streams; [`lines`] cuts captured bytes
//!   into lines.
//! * [`output`], [`errors`], [`status`]: the terminal result and its classification.

pub mod command;
pub mod debug;
pub mod drain;
pub mod errors;
pub mod lines;
pub mod monitor;
pub mod output;
pub mod prelude;
pub mod race;
pub mod select;
pub mod signals;
pub mod status;
pub mod text;

pub use command::{Cmd, CommandBuilder};
pub use errors::Error;
pub use lines::LinesVec;
pub use text::Vec8ToString;
