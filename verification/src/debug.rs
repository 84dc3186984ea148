//! Commands as text, for logs.

use vstd::prelude::*;
use vstd::string::StringExecFns;
use crate::command::{Cmd, Command};
use crate::text::{join, join_words, texts};

verus! {

/// A text without the whitespace at its two ends.
pub uninterp spec fn trimmed(text: Seq<char>) -> Seq<char>;

/// The file name at the end of a path, if the path ends in one.
pub uninterp spec fn file_name_of(path: Seq<char>) -> Option<Seq<char>>;

/// The name under which a program is logged: the file name at the end of its path, or the
/// whole path where it does not end in a file name.
pub open spec fn program_name(program: Seq<char>) -> Seq<char> {
    match file_name_of(program) {
        Some(name) => name,
        None => program,
    }
}

/// The log line of a command: the name of its program, a space, and its arguments joined by
/// single spaces, without the whitespace at the two ends of the joined arguments.
pub open spec fn log_text(program: Seq<char>, args: Seq<Seq<char>>) -> Seq<char> {
    program_name(program) + seq![' '] + trimmed(join_words(args))
}

/// A program and its arguments as the debug formatter writes them: the program as a quoted
/// and escaped string, a space, the arguments as a bracketed list of such strings.
pub uninterp spec fn quoted(program: Seq<char>, args: Seq<Seq<char>>) -> Seq<char>;

/// `str::trim`: the text without leading and trailing whitespace, as Unicode defines
/// whitespace. The result is a function of the text alone.
#[verifier::external_body]
fn trim(text: &str) -> (t: &str)
    ensures
        t@ == trimmed(text@),
{
    text.trim()
}

/// `std::path::Path::file_name`: the last component of a path, if the path ends in one that
/// is a name. The result is a function of the path alone on the platforms that this library
/// is for, where `/` separates the components.
#[verifier::external_body]
fn file_name(path: &str) -> (name: Option<String>)
    ensures
        match name {
            Some(name) => file_name_of(path@) == Some(name@),
            None => file_name_of(path@) is None,
        },
{
    std::path::Path::new(path).file_name().map(|name| name.to_string_lossy().into_owned())
}

/// `format!` with `{:?}`, which is std's `Debug` for `String` and for `Vec<String>`: the
/// program quoted and escaped, a space, the arguments as a bracketed list of quoted strings.
/// The result is a function of the two alone.
#[verifier::external_body]
pub(crate) fn quote(program: &String, args: &Vec<String>) -> (line: String)
    ensures
        line@ == quoted(program@, texts(args@)),
{
    format!("{:?} {:?}", program, args)
}

/// A command line for the log: the name of the program, a space, and the arguments as
/// given.
pub fn command_line(name: &str, args: &str) -> (line: String)
    ensures
        line@ == name@ + seq![' '] + args@,
{
    proof {
        reveal_strlit(" ");
    }
    let mut line = String::from_str(name);
    line.append(" ");
    line.append(args);
    assert(line@ =~= name@ + seq![' '] + args@);
    line
}

/// The log line of a program with these arguments: the file name of the program, without
/// the directories that lead to it, and the arguments joined by spaces and trimmed. A
/// program whose path has no file name is shown as it is.
pub(crate) fn log_line(program: &String, args: &Vec<String>) -> (line: String)
    ensures
        line@ == log_text(program@, texts(args@)),
{
    let joined = join(args);
    let tail = trim(joined.as_str());
    let line = match file_name(program.as_str()) {
        Some(name) => command_line(name.as_str(), tail),
        None => command_line(program.as_str(), tail),
    };
    line
}

/// Commands that can be shown in a log.
pub trait CommandDebug {
    /// Marks the point at which the command is logged; the command itself stays as it is.
    fn debug(&mut self) -> &mut Self;

    /// The command as one line: the name of its program and its arguments.
    fn as_string(&self) -> String;
}

impl CommandDebug for Cmd {
    fn debug(&mut self) -> (cmd: &mut Cmd)
        ensures
            *cmd == *old(self),
            *final(self) == *final(cmd),
    {
        self
    }

    fn as_string(&self) -> (line: String)
        ensures
            line@ == log_text(self@.program, self@.args),
    {
        self.log_line()
    }
}

impl CommandDebug for Command {
    fn debug(&mut self) -> (command: &mut Command)
        ensures
            *command == *old(self),
            *final(self) == *final(command),
    {
        self
    }

    fn as_string(&self) -> (line: String)
        ensures
            line@ == log_text(self.program@, texts(self.args@)),
    {
        log_line(&self.program, &self.args)
    }
}

} // verus!
