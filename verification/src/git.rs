//! The git invocations of fixture synchronization, one function per command.
//!
//! Each command is stated twice: as a mathematical value, which is what the
//! contracts of the synchronizer speak of, and as the function that builds it.

use crate::command::{
    command_views, join3, no_texts, push_command, push_text, Command, CommandView,
};
use crate::refs::{FixtureRef, RefKind, RefView};
use vstd::prelude::*;

verus! {

/// Where the grammar of that name is published.
pub open spec fn repository_url_text(grammar: Seq<char>) -> Seq<char> {
    "https://github.com/tree-sitter/tree-sitter-"@ + grammar
}

/// A git command as a mathematical value.
pub open spec fn git_view(args: Seq<Seq<char>>, in_fixture_dir: bool, failure: Seq<char>)
    -> CommandView {
    CommandView { program: "git"@, args, in_fixture_dir, failure }
}

/// The shallow clone of a grammar, pinned to the target reference by name. The
/// same command serves a tag and a branch.
pub open spec fn clone_view(grammar: Seq<char>, target: RefView, dir: Seq<char>) -> CommandView {
    git_view(
        seq![
            "clone"@,
            "--depth"@,
            "1"@,
            "--branch"@,
            target.name(),
            repository_url_text(grammar),
            dir,
        ],
        false,
        "Failed to clone the "@ + grammar + " grammar"@,
    )
}

/// Fetches a branch, shallowly, into its remote-tracking reference.
pub open spec fn fetch_branch_view(branch: Seq<char>) -> CommandView {
    git_view(
        seq![
            "fetch"@,
            "--update-shallow"@,
            "origin"@,
            "+refs/heads/"@ + branch + ":refs/remotes/origin/"@ + branch,
        ],
        true,
        "Failed to fetch branch "@ + branch,
    )
}

/// Switches the working copy to a branch.
pub open spec fn switch_view(branch: Seq<char>) -> CommandView {
    git_view(seq!["switch"@, branch], true, "Failed to checkout branch "@ + branch)
}

/// Makes the remote branch the upstream of the local one.
pub open spec fn set_upstream_view(branch: Seq<char>) -> CommandView {
    git_view(
        seq!["branch"@, "--set-upstream-to"@, "origin/"@ + branch, branch],
        true,
        "Failed to set upstream for branch "@ + branch,
    )
}

/// Pulls a branch from the origin.
pub open spec fn pull_view(branch: Seq<char>) -> CommandView {
    git_view(
        seq!["pull"@, "origin"@, branch],
        true,
        "Failed to pull latest from branch "@ + branch,
    )
}

/// Fetches one tag from the origin into the local tags.
pub open spec fn fetch_tag_view(grammar: Seq<char>, tag: Seq<char>) -> CommandView {
    git_view(
        seq!["fetch"@, "origin"@, "refs/tags/"@ + tag + ":refs/tags/"@ + tag],
        true,
        "Failed to fetch tag "@ + tag + " for "@ + grammar + " grammar"@,
    )
}

/// Discards local modifications of the working copy.
pub open spec fn reset_view(grammar: Seq<char>) -> CommandView {
    git_view(
        seq!["reset"@, "--hard"@, "HEAD"@],
        true,
        "Failed to reset "@ + grammar + " grammar working tree"@,
    )
}

/// Checks the target reference out by name.
pub open spec fn checkout_view(grammar: Seq<char>, target: RefView) -> CommandView {
    git_view(
        seq!["checkout"@, target.name()],
        true,
        "Failed to checkout "@ + target.kind().label_text() + " "@ + target.name() + " for "@
            + grammar + " grammar"@,
    )
}

/// What brings the target reference into the working copy, before the reset:
/// four commands for a branch, one for a tag.
pub open spec fn fetch_views(grammar: Seq<char>, target: RefView) -> Seq<CommandView> {
    match target {
        RefView::Branch(branch) => seq![
            fetch_branch_view(branch),
            switch_view(branch),
            set_upstream_view(branch),
            pull_view(branch),
        ],
        RefView::Tag(tag) => seq![fetch_tag_view(grammar, tag)],
    }
}

/// The whole update of a working copy that sits on another reference: the
/// fetch commands of the target's kind, then a hard reset, then the checkout.
pub open spec fn update_views(grammar: Seq<char>, target: RefView) -> Seq<CommandView> {
    fetch_views(grammar, target) + seq![reset_view(grammar), checkout_view(grammar, target)]
}

/// A probe: a program that is run in the fixture's directory for what it
/// prints. Its failure is an answer, not an error, so it has no message.
#[derive(Debug, PartialEq, Eq)]
pub struct Probe {
    pub program: String,
    pub args: Vec<String>,
}

/// A probe as a mathematical value.
pub struct ProbeView {
    pub program: Seq<char>,
    pub args: Seq<Seq<char>>,
}

impl View for Probe {
    type V = ProbeView;

    open spec fn view(&self) -> ProbeView {
        ProbeView { program: self.program@, args: self.args.deep_view() }
    }
}

/// The arguments of the probe that names what `HEAD` sits on, by kind: the tag
/// exactly at `HEAD`, or the current branch.
pub open spec fn probe_args_view(kind: RefKind) -> Seq<Seq<char>> {
    match kind {
        RefKind::Tag => seq!["describe"@, "--tags"@, "--exact-match"@, "HEAD"@],
        RefKind::Branch => seq!["rev-parse"@, "--abbrev-ref"@, "HEAD"@],
    }
}

/// The probe of one kind: git, with the arguments of that kind.
pub open spec fn probe_view(kind: RefKind) -> ProbeView {
    ProbeView { program: "git"@, args: probe_args_view(kind) }
}

/// A git command with these arguments.
pub fn git(args: Vec<String>, in_fixture_dir: bool, failure: String) -> (command: Command)
    ensures
        command@ == git_view(args.deep_view(), in_fixture_dir, failure@),
{
    Command { program: String::from_str("git"), args, in_fixture_dir, failure }
}

pub fn repository_url(grammar: &str) -> (url: String)
    ensures
        url@ == repository_url_text(grammar@),
{
    let mut url = String::from_str("https://github.com/tree-sitter/tree-sitter-");
    url.append(grammar);
    url
}

pub fn clone_command(grammar: &str, target: &FixtureRef, dir: &str) -> (command: Command)
    ensures
        command@ == clone_view(grammar@, target@, dir@),
{
    let url = repository_url(grammar);
    let mut args = no_texts();
    push_text(&mut args, "clone");
    push_text(&mut args, "--depth");
    push_text(&mut args, "1");
    push_text(&mut args, "--branch");
    push_text(&mut args, target.name());
    push_text(&mut args, url.as_str());
    push_text(&mut args, dir);
    assert(args.deep_view() =~= clone_view(grammar@, target@, dir@).args);
    git(args, false, join3("Failed to clone the ", grammar, " grammar"))
}

pub fn fetch_branch_command(branch: &str) -> (command: Command)
    ensures
        command@ == fetch_branch_view(branch@),
{
    let mut refspec = join3("+refs/heads/", branch, ":refs/remotes/origin/");
    refspec.append(branch);
    let mut args = no_texts();
    push_text(&mut args, "fetch");
    push_text(&mut args, "--update-shallow");
    push_text(&mut args, "origin");
    push_text(&mut args, refspec.as_str());
    assert(args.deep_view() =~= fetch_branch_view(branch@).args);
    let mut failure = String::from_str("Failed to fetch branch ");
    failure.append(branch);
    git(args, true, failure)
}

pub fn switch_command(branch: &str) -> (command: Command)
    ensures
        command@ == switch_view(branch@),
{
    let mut args = no_texts();
    push_text(&mut args, "switch");
    push_text(&mut args, branch);
    assert(args.deep_view() =~= switch_view(branch@).args);
    let mut failure = String::from_str("Failed to checkout branch ");
    failure.append(branch);
    git(args, true, failure)
}

pub fn set_upstream_command(branch: &str) -> (command: Command)
    ensures
        command@ == set_upstream_view(branch@),
{
    let mut upstream = String::from_str("origin/");
    upstream.append(branch);
    let mut args = no_texts();
    push_text(&mut args, "branch");
    push_text(&mut args, "--set-upstream-to");
    push_text(&mut args, upstream.as_str());
    push_text(&mut args, branch);
    assert(args.deep_view() =~= set_upstream_view(branch@).args);
    let mut failure = String::from_str("Failed to set upstream for branch ");
    failure.append(branch);
    git(args, true, failure)
}

pub fn pull_command(branch: &str) -> (command: Command)
    ensures
        command@ == pull_view(branch@),
{
    let mut args = no_texts();
    push_text(&mut args, "pull");
    push_text(&mut args, "origin");
    push_text(&mut args, branch);
    assert(args.deep_view() =~= pull_view(branch@).args);
    let mut failure = String::from_str("Failed to pull latest from branch ");
    failure.append(branch);
    git(args, true, failure)
}

pub fn fetch_tag_command(grammar: &str, tag: &str) -> (command: Command)
    ensures
        command@ == fetch_tag_view(grammar@, tag@),
{
    let mut refspec = join3("refs/tags/", tag, ":refs/tags/");
    refspec.append(tag);
    let mut args = no_texts();
    push_text(&mut args, "fetch");
    push_text(&mut args, "origin");
    push_text(&mut args, refspec.as_str());
    assert(args.deep_view() =~= fetch_tag_view(grammar@, tag@).args);
    let mut failure = join3("Failed to fetch tag ", tag, " for ");
    failure.append(grammar);
    failure.append(" grammar");
    git(args, true, failure)
}

pub fn reset_command(grammar: &str) -> (command: Command)
    ensures
        command@ == reset_view(grammar@),
{
    let mut args = no_texts();
    push_text(&mut args, "reset");
    push_text(&mut args, "--hard");
    push_text(&mut args, "HEAD");
    assert(args.deep_view() =~= reset_view(grammar@).args);
    git(args, true, join3("Failed to reset ", grammar, " grammar working tree"))
}

pub fn checkout_command(grammar: &str, target: &FixtureRef) -> (command: Command)
    ensures
        command@ == checkout_view(grammar@, target@),
{
    let mut args = no_texts();
    push_text(&mut args, "checkout");
    push_text(&mut args, target.name());
    assert(args.deep_view() =~= checkout_view(grammar@, target@).args);
    let mut failure = join3("Failed to checkout ", target.ref_type(), " ");
    failure.append(target.name());
    failure.append(" for ");
    failure.append(grammar);
    failure.append(" grammar");
    git(args, true, failure)
}

/// The commands that bring a stale working copy to the target reference, in
/// the order in which they must run.
pub fn update_commands(grammar: &str, target: &FixtureRef) -> (commands: Vec<Command>)
    ensures
        command_views(commands@) == update_views(grammar@, target@),
{
    let mut commands: Vec<Command> = Vec::new();
    match *target {
        FixtureRef::Branch(branch) => {
            push_command(&mut commands, fetch_branch_command(branch));
            push_command(&mut commands, switch_command(branch));
            push_command(&mut commands, set_upstream_command(branch));
            push_command(&mut commands, pull_command(branch));
        },
        FixtureRef::Tag(tag) => {
            push_command(&mut commands, fetch_tag_command(grammar, tag));
        },
    }
    push_command(&mut commands, reset_command(grammar));
    push_command(&mut commands, checkout_command(grammar, target));
    commands
}

/// The arguments of the probe of one kind.
pub fn probe_args(kind: RefKind) -> (args: Vec<String>)
    ensures
        args.deep_view() == probe_args_view(kind),
{
    let mut args = no_texts();
    match kind {
        RefKind::Tag => {
            push_text(&mut args, "describe");
            push_text(&mut args, "--tags");
            push_text(&mut args, "--exact-match");
            push_text(&mut args, "HEAD");
        },
        RefKind::Branch => {
            push_text(&mut args, "rev-parse");
            push_text(&mut args, "--abbrev-ref");
            push_text(&mut args, "HEAD");
        },
    }
    args
}

/// The probe of one kind.
pub fn probe(kind: RefKind) -> (probe: Probe)
    ensures
        probe@ == probe_view(kind),
{
    Probe { program: String::from_str("git"), args: probe_args(kind) }
}

} // verus!
