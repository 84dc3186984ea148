//! The names that most callers need.

pub use crate::command::{Cmd, Command, CommandBuilder, Launch, Redirect};
pub use crate::debug::CommandDebug;
pub use crate::drain::{Drainer, Stage, Stream};
pub use crate::errors::{CmdError, Error, Termination};
pub use crate::lines::LinesVec;
pub use crate::monitor::{Action, Child, Event, KillReason, Monitor, Phase, Source, Watch};
pub use crate::output::{Output, OutputExt};
pub use crate::select::Sources;
pub use crate::status::ExitStatus;
pub use crate::text::Vec8ToString;
