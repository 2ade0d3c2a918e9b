//! Commands the caller is asked to run.

use vstd::prelude::*;

verus! {

/// One program invocation: what to start, with which arguments, where, and what
/// to report when it exits with a failure.
#[derive(Debug, PartialEq, Eq)]
pub struct Command {
    pub program: String,
    pub args: Vec<String>,
    /// Run with the fixture's directory as working directory; otherwise where
    /// the process stands.
    pub in_fixture_dir: bool,
    /// The message of the fatal error when the program exits unsuccessfully.
    pub failure: String,
}

/// A command as a mathematical value.
pub struct CommandView {
    pub program: Seq<char>,
    pub args: Seq<Seq<char>>,
    pub in_fixture_dir: bool,
    pub failure: Seq<char>,
}

impl View for Command {
    type V = CommandView;

    open spec fn view(&self) -> CommandView {
        CommandView {
            program: self.program@,
            args: self.args.deep_view(),
            in_fixture_dir: self.in_fixture_dir,
            failure: self.failure@,
        }
    }
}

/// The commands of a list, each as a mathematical value.
pub open spec fn command_views(commands: Seq<Command>) -> Seq<CommandView> {
    Seq::new(commands.len(), |i: int| commands[i]@)
}

/// An empty list of texts.
pub(crate) fn no_texts() -> (texts: Vec<String>)
    ensures
        texts.deep_view() == Seq::<Seq<char>>::empty(),
{
    let texts: Vec<String> = Vec::new();
    texts
}

/// Appends one text to a list of texts: an argument, or a path component.
pub(crate) fn push_text(texts: &mut Vec<String>, text: &str)
    ensures
        final(texts).deep_view() == old(texts).deep_view().push(text@),
{
    texts.push(String::from_str(text));
}

/// Appends one command to a command list.
pub(crate) fn push_command(commands: &mut Vec<Command>, command: Command)
    ensures
        command_views(final(commands)@) == command_views(old(commands)@).push(command@),
{
    commands.push(command);
}

/// The text of three pieces in a row.
pub(crate) fn join3(a: &str, b: &str, c: &str) -> (r: String)
    ensures
        r@ == a@ + b@ + c@,
{
    let mut r = String::from_str(a);
    r.append(b);
    r.append(c);
    r
}

} // verus!
