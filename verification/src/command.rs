//! Command descriptors and the builder that assembles them.

use vstd::prelude::*;
use vstd::string::StringExecFns;
use vstd::std_specs::convert::FromSpecImpl;
use crossbeam_channel::Receiver;
use std::time::Duration;
use crate::debug::{log_line, log_text, quote, quoted};
use crate::select::Sources;
use crate::text::{join, join_words, texts};

verus! {

/// Where one of the three standard streams of a child goes.
#[derive(Clone, Copy, Debug, PartialEq, Eq, Structural)]
pub enum Redirect {
    /// The child shares the stream of its parent.
    Inherit,
    /// The stream is a pipe between the child and its parent.
    Piped,
    /// The stream is discarded.
    Null,
}

/// What a command descriptor holds.
pub struct Descriptor {
    pub debug: bool,
    pub program: Seq<char>,
    pub args: Seq<Seq<char>>,
    pub cwd: Option<Seq<char>>,
    pub stdin: Option<Redirect>,
    pub stdout: Option<Redirect>,
    pub stderr: Option<Redirect>,
    pub timeout: Option<Duration>,
    pub signal: Option<Receiver<()>>,
}

/// The descriptor that a builder starts from: both output streams piped, logging on, and
/// nothing else set.
pub open spec fn fresh_builder(program: Seq<char>) -> Descriptor {
    Descriptor {
        debug: true,
        program,
        args: Seq::empty(),
        cwd: None,
        stdin: None,
        stdout: Some(Redirect::Piped),
        stderr: Some(Redirect::Piped),
        timeout: None,
        signal: None,
    }
}

/// The descriptor of a bare command: logging on, and nothing else set.
pub open spec fn fresh_cmd(program: Seq<char>) -> Descriptor {
    Descriptor { stdout: None, stderr: None, ..fresh_builder(program) }
}

/// The texts of a list of string slices.
pub open spec fn slice_texts(words: Seq<&str>) -> Seq<Seq<char>> {
    words.map_values(|word: &str| word@)
}

/// A command as the operating system is to start it: the program, its arguments, where it
/// runs and where its streams go. A stream that is not set is left to the default of the
/// spawn, which is to share the parent's.
#[derive(Clone, Debug, PartialEq, Eq)]
pub struct Command {
    pub program: String,
    pub args: Vec<String>,
    pub cwd: Option<String>,
    pub stdin: Option<Redirect>,
    pub stdout: Option<Redirect>,
    pub stderr: Option<Redirect>,
}

impl Command {
    /// Whether this is the command that `d` describes.
    pub open spec fn describes(&self, d: Descriptor) -> bool {
        &&& self.program@ == d.program
        &&& texts(self.args@) == d.args
        &&& match self.cwd {
            Some(dir) => d.cwd == Some(dir@),
            None => d.cwd is None,
        }
        &&& self.stdin == d.stdin
        &&& self.stdout == d.stdout
        &&& self.stderr == d.stderr
    }
}

/// Everything that is needed to start a run and to supervise it.
pub struct Launch {
    /// The command to start.
    pub command: Command,
    /// What may end the run early.
    pub sources: Sources,
    /// The line to log before the start, for a command that is to be logged.
    pub log: Option<String>,
}

/// A resolved command: what to run, and what may end the run early.
#[derive(Debug)]
pub struct Cmd {
    debug: bool,
    program: String,
    args: Vec<String>,
    cwd: Option<String>,
    stdin: Option<Redirect>,
    stdout: Option<Redirect>,
    stderr: Option<Redirect>,
    timeout: Option<Duration>,
    signal: Option<Receiver<()>>,
}

/// Assembles a [`Cmd`] piece by piece.
#[derive(Debug)]
pub struct CommandBuilder {
    debug: bool,
    program: String,
    args: Vec<String>,
    cwd: Option<String>,
    stdin: Option<Redirect>,
    stdout: Option<Redirect>,
    stderr: Option<Redirect>,
    timeout: Option<Duration>,
    signal: Option<Receiver<()>>,
}

/// The text of an optional string.
pub open spec fn text_option(s: Option<String>) -> Option<Seq<char>> {
    match s {
        Some(s) => Some(s@),
        None => None,
    }
}

impl View for Cmd {
    type V = Descriptor;

    closed spec fn view(&self) -> Descriptor {
        Descriptor {
            debug: self.debug,
            program: self.program@,
            args: texts(self.args@),
            cwd: text_option(self.cwd),
            stdin: self.stdin,
            stdout: self.stdout,
            stderr: self.stderr,
            timeout: self.timeout,
            signal: self.signal,
        }
    }
}

impl View for CommandBuilder {
    type V = Descriptor;

    closed spec fn view(&self) -> Descriptor {
        Descriptor {
            debug: self.debug,
            program: self.program@,
            args: texts(self.args@),
            cwd: text_option(self.cwd),
            stdin: self.stdin,
            stdout: self.stdout,
            stderr: self.stderr,
            timeout: self.timeout,
            signal: self.signal,
        }
    }
}

fn push_words(args: &mut Vec<String>, words: Vec<&str>)
    ensures
        texts(final(args)@) == texts(old(args)@) + slice_texts(words@),
{
    let mut i: usize = 0;
    while i < words.len()
        invariant
            i <= words.len(),
            texts(args@) == texts(old(args)@) + slice_texts(words@).take(i as int),
        decreases words.len() - i,
    {
        let ghost before = texts(args@);
        args.push(String::from_str(words[i]));
        i = i + 1;
        assert(texts(args@) =~= before.push(words@[i - 1]@));
        assert(slice_texts(words@).take(i as int) =~= slice_texts(words@).take(i - 1).push(
            words@[i - 1]@,
        ));
        assert(texts(args@) =~= texts(old(args)@) + slice_texts(words@).take(i as int));
    }
    assert(slice_texts(words@).take(i as int) =~= slice_texts(words@));
}

impl CommandBuilder {
    /// A builder for a run of `program`.
    pub fn new(program: &str) -> (builder: CommandBuilder)
        ensures
            builder@ == fresh_builder(program@),
    {
        let builder = CommandBuilder {
            debug: true,
            program: String::from_str(program),
            args: Vec::new(),
            cwd: None,
            stdin: None,
            stdout: Some(Redirect::Piped),
            stderr: Some(Redirect::Piped),
            timeout: None,
            signal: None,
        };
        assert(builder@.args =~= Seq::<Seq<char>>::empty());
        builder
    }

    /// Switches the logging of the command line on or off.
    pub fn with_debug(self, debug: bool) -> (builder: CommandBuilder)
        ensures
            builder@ == (Descriptor { debug, ..self@ }),
    {
        let mut builder = self;
        builder.debug = debug;
        builder
    }

    /// Sets the timeout of the run.
    pub fn with_timeout(&mut self, duration: Duration) -> (builder: &mut CommandBuilder)
        ensures
            builder@ == (Descriptor { timeout: Some(duration), ..old(self)@ }),
            *final(self) == *final(builder),
    {
        self.timeout = Some(duration);
        self
    }

    /// Sets or clears the timeout of the run.
    pub fn timeout(self, duration: Option<Duration>) -> (builder: CommandBuilder)
        ensures
            builder@ == (Descriptor { timeout: duration, ..self@ }),
    {
        let mut builder = self;
        builder.timeout = duration;
        builder
    }

    /// Sets the channel whose firing cancels the run.
    pub fn with_signal(&mut self, signal: Receiver<()>) -> (builder: &mut CommandBuilder)
        ensures
            builder@ == (Descriptor { signal: Some(signal), ..old(self)@ }),
            *final(self) == *final(builder),
    {
        self.signal = Some(signal);
        self
    }

    /// Sets or clears the channel whose firing cancels the run.
    pub fn signal(self, signal: Option<Receiver<()>>) -> (builder: CommandBuilder)
        ensures
            builder@ == (Descriptor { signal, ..self@ }),
    {
        let mut builder = self;
        builder.signal = signal;
        builder
    }

    /// Sets or clears the directory that the command runs in.
    pub fn current_dir(self, dir: Option<&str>) -> (builder: CommandBuilder)
        ensures
            builder@ == (Descriptor {
                cwd: match dir {
                    Some(dir) => Some(dir@),
                    None => None,
                },
                ..self@
            }),
    {
        let mut builder = self;
        builder.cwd = match dir {
            Some(dir) => Some(String::from_str(dir)),
            None => None,
        };
        builder
    }

    /// Adds an argument.
    pub fn arg(self, arg: &str) -> (builder: CommandBuilder)
        ensures
            builder@ == (Descriptor { args: self@.args.push(arg@), ..self@ }),
    {
        let mut builder = self;
        builder.args.push(String::from_str(arg));
        assert(texts(builder.args@) =~= texts(self.args@).push(arg@));
        builder
    }

    /// Adds an argument.
    pub fn with_arg(&mut self, arg: &str) -> (builder: &mut CommandBuilder)
        ensures
            builder@ == (Descriptor { args: old(self)@.args.push(arg@), ..old(self)@ }),
            *final(self) == *final(builder),
    {
        self.args.push(String::from_str(arg));
        assert(texts(self.args@) =~= texts(old(self).args@).push(arg@));
        self
    }

    /// Adds arguments, in order.
    pub fn args(self, args: Vec<&str>) -> (builder: CommandBuilder)
        ensures
            builder@ == (Descriptor { args: self@.args + slice_texts(args@), ..self@ }),
    {
        let mut builder = self;
        push_words(&mut builder.args, args);
        builder
    }

    /// Adds arguments, in order.
    pub fn with_args(&mut self, args: Vec<&str>) -> (builder: &mut CommandBuilder)
        ensures
            builder@ == (Descriptor { args: old(self)@.args + slice_texts(args@), ..old(self)@ }),
            *final(self) == *final(builder),
    {
        push_words(&mut self.args, args);
        self
    }

    /// Says where the output stream of the child goes; `None` leaves it to the spawn.
    pub fn stdout(self, cfg: Option<Redirect>) -> (builder: CommandBuilder)
        ensures
            builder@ == (Descriptor { stdout: cfg, ..self@ }),
    {
        let mut builder = self;
        builder.stdout = cfg;
        builder
    }

    /// Says where the error stream of the child goes; `None` leaves it to the spawn.
    pub fn stderr(self, cfg: Option<Redirect>) -> (builder: CommandBuilder)
        ensures
            builder@ == (Descriptor { stderr: cfg, ..self@ }),
    {
        let mut builder = self;
        builder.stderr = cfg;
        builder
    }

    /// Says where the input stream of the child comes from; `None` leaves it to the spawn.
    pub fn stdin(self, cfg: Option<Redirect>) -> (builder: CommandBuilder)
        ensures
            builder@ == (Descriptor { stdin: cfg, ..self@ }),
    {
        let mut builder = self;
        builder.stdin = cfg;
        builder
    }

    /// The command that has been assembled.
    pub fn build(self) -> (cmd: Cmd)
        ensures
            cmd@ == self@,
    {
        Cmd {
            debug: self.debug,
            program: self.program,
            args: self.args,
            cwd: self.cwd,
            stdin: self.stdin,
            stdout: self.stdout,
            stderr: self.stderr,
            timeout: self.timeout,
            signal: self.signal,
        }
    }

    /// The command line: the program and its arguments, separated by single spaces.
    pub fn to_string(&self) -> (line: String)
        ensures
            line@ == self@.program + seq![' '] + join_words(self@.args),
    {
        proof {
            reveal_strlit(" ");
        }
        let mut line = self.program.clone();
        line.append(" ");
        line.append(join(&self.args).as_str());
        assert(line@ =~= self@.program + seq![' '] + join_words(self@.args));
        line
    }
}

impl Cmd {
    /// A builder for a run of `program`.
    pub fn builder(program: &str) -> (builder: CommandBuilder)
        ensures
            builder@ == fresh_builder(program@),
    {
        CommandBuilder::new(program)
    }

    /// A bare command: `program` without arguments, streams left to the spawn.
    pub fn new(program: &str) -> (cmd: Cmd)
        ensures
            cmd@ == fresh_cmd(program@),
    {
        let cmd = Cmd {
            debug: true,
            program: String::from_str(program),
            args: Vec::new(),
            cwd: None,
            stdin: None,
            stdout: None,
            stderr: None,
            timeout: None,
            signal: None,
        };
        assert(cmd@.args =~= Seq::<Seq<char>>::empty());
        cmd
    }

    /// The command as the operating system is to start it.
    pub fn command(self) -> (command: Command)
        ensures
            command.describes(self@),
    {
        Command {
            program: self.program,
            args: self.args,
            cwd: self.cwd,
            stdin: self.stdin,
            stdout: self.stdout,
            stderr: self.stderr,
        }
    }

    /// The log line of the command; see [`CommandDebug::as_string`].
    ///
    /// [`CommandDebug::as_string`]: crate::debug::CommandDebug::as_string
    pub(crate) fn log_line(&self) -> (line: String)
        ensures
            line@ == log_text(self@.program, self@.args),
    {
        log_line(&self.program, &self.args)
    }

    /// The command with its program and arguments quoted, as the debug formatter shows
    /// strings.
    pub fn to_string(&self) -> (line: String)
        ensures
            line@ == quoted(self@.program, self@.args),
    {
        quote(&self.program, &self.args)
    }

    /// Makes the command ready to start: the line to log, if the command is to be logged,
    /// then the event sources, then the command for the operating system. The timeout
    /// starts to count here, before the process exists.
    pub fn launch(self) -> (launch: Launch)
        ensures
            launch.command.describes(self@),
            launch.sources.cancel == self@.signal,
            launch.sources.ticks is Some <==> self@.timeout is Some,
            match launch.log {
                Some(line) => self@.debug && line@ == log_text(self@.program, self@.args),
                None => !self@.debug,
            },
    {
        let log = if self.debug {
            Some(self.log_line())
        } else {
            None
        };
        let sources = Sources::new(self.signal, self.timeout);
        let command = Command {
            program: self.program,
            args: self.args,
            cwd: self.cwd,
            stdin: self.stdin,
            stdout: self.stdout,
            stderr: self.stderr,
        };
        Launch { command, sources, log }
    }
}

impl From<Cmd> for Command {
    fn from(value: Cmd) -> (command: Command) {
        Command {
            program: value.program,
            args: value.args,
            cwd: value.cwd,
            stdin: value.stdin,
            stdout: value.stdout,
            stderr: value.stderr,
        }
    }
}

impl FromSpecImpl<Cmd> for Command {
    open spec fn obeys_from_spec() -> bool {
        true
    }

    closed spec fn from_spec(value: Cmd) -> Command {
        Command {
            program: value.program,
            args: value.args,
            cwd: value.cwd,
            stdin: value.stdin,
            stdout: value.stdout,
            stderr: value.stderr,
        }
    }
}

impl From<CommandBuilder> for Command {
    fn from(value: CommandBuilder) -> (command: Command) {
        Command {
            program: value.program,
            args: value.args,
            cwd: value.cwd,
            stdin: value.stdin,
            stdout: value.stdout,
            stderr: value.stderr,
        }
    }
}

impl FromSpecImpl<CommandBuilder> for Command {
    open spec fn obeys_from_spec() -> bool {
        true
    }

    closed spec fn from_spec(value: CommandBuilder) -> Command {
        Command {
            program: value.program,
            args: value.args,
            cwd: value.cwd,
            stdin: value.stdin,
            stdout: value.stdout,
            stderr: value.stderr,
        }
    }
}

/// The command that a conversion from a [`Cmd`] gives is the one the descriptor describes.
pub proof fn lemma_command_of_cmd(cmd: Cmd)
    ensures
        <Command as vstd::std_specs::convert::FromSpec<Cmd>>::from_spec(cmd).describes(cmd@),
{
}

/// The command that a conversion from a builder gives is the one the builder describes.
pub proof fn lemma_command_of_builder(builder: CommandBuilder)
    ensures
        <Command as vstd::std_specs::convert::FromSpec<CommandBuilder>>::from_spec(
            builder,
        ).describes(builder@),
{
}

} // verus!
