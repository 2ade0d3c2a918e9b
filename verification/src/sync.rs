//! Synchronizing one fixture: the decisions, step by step.
//!
//! A [`FixtureSync`] never acts. It names the next thing to do
//! ([`FixtureSync::action`]); the caller does it and reports the outcome
//! ([`FixtureSync::handle`]). A fixture ends in one of three ways: cloned
//! because its directory was absent, updated because it sat on another
//! reference, or left alone because it already sat on the target. In all three
//! the metadata patch is the last action before the end. A command that fails
//! ends the fixture, and with it the run, at once.

use crate::command::{command_views, push_command, Command, CommandView};
use crate::git::{
    clone_command, clone_view, probe, probe_view, update_commands, update_views, Probe,
    ProbeView,
};
use crate::inspect::{
    current_ref, observe, observed, unknown_ref, unknown_view, ProbeOutput, ProbeOutputView,
};
use crate::refs::{resolved, FixtureRef, LocalRefState, LocalRefView, RefKind, RefView};
use vstd::prelude::*;

verus! {

/// One entry of the fixture list.
#[derive(Debug, PartialEq, Eq)]
pub struct FixtureSpec {
    pub grammar_name: String,
    pub tag: String,
    /// Where present, the fixture follows this branch and the tag is ignored.
    pub branch: Option<String>,
}

/// A fixture entry as a mathematical value.
pub struct FixtureSpecView {
    pub grammar_name: Seq<char>,
    pub tag: Seq<char>,
    pub branch: Option<Seq<char>>,
}

impl FixtureSpecView {
    /// The reference the fixture must sit on.
    pub open spec fn target(self) -> RefView {
        resolved(self.tag, self.branch)
    }
}

impl View for FixtureSpec {
    type V = FixtureSpecView;

    open spec fn view(&self) -> FixtureSpecView {
        FixtureSpecView {
            grammar_name: self.grammar_name@,
            tag: self.tag@,
            branch: match self.branch {
                Some(b) => Some(b@),
                None => None,
            },
        }
    }
}

impl FixtureSpec {
    /// The reference the fixture must sit on.
    pub fn target(&self) -> (r: FixtureRef<'_>)
        ensures
            r@ == self@.target(),
    {
        match &self.branch {
            Some(b) => FixtureRef::new(self.tag.as_str(), Some(b.as_str())),
            None => FixtureRef::new(self.tag.as_str(), None),
        }
    }
}

/// How far the synchronization of a fixture has come.
#[derive(Clone, Copy, Debug, PartialEq, Eq, Structural)]
pub enum Phase {
    /// Waiting to learn whether the fixture's directory exists.
    Locate,
    /// Waiting for the output of the tag probe.
    ProbeTag,
    /// Waiting for the output of the branch probe.
    ProbeBranch,
    /// Waiting for the exit of a command.
    Run,
    /// Waiting for the metadata patch.
    Patch,
    /// Synchronized and patched.
    Done,
    /// A command failed.
    Failed,
}

/// What the caller reports back.
#[derive(Debug, PartialEq, Eq)]
pub enum Event {
    /// Whether the fixture's directory exists.
    DirectoryExists(bool),
    /// How a probe exited and what it printed.
    Captured(ProbeOutput),
    /// Whether a command exited successfully.
    Exited(bool),
    /// The metadata patch has run.
    Patched,
}

/// An event as a mathematical value.
pub enum EventView {
    DirectoryExists(bool),
    Captured(ProbeOutputView),
    Exited(bool),
    Patched,
}

impl View for Event {
    type V = EventView;

    open spec fn view(&self) -> EventView {
        match *self {
            Event::DirectoryExists(exists) => EventView::DirectoryExists(exists),
            Event::Captured(output) => EventView::Captured(output@),
            Event::Exited(success) => EventView::Exited(success),
            Event::Patched => EventView::Patched,
        }
    }
}

/// What the caller is asked to do next.
#[derive(Debug, PartialEq, Eq)]
pub enum Action<'a> {
    /// Find out whether the fixture's directory exists.
    CheckDirectory,
    /// Run this probe in the fixture's directory and report how it exited and
    /// what it printed.
    Capture(Probe),
    /// Run this command and report how it exited.
    Run(&'a Command),
    /// Patch the fixture's metadata.
    Patch,
    /// Nothing is left to do for this fixture.
    Finish,
    /// Stop the whole run with this message.
    Abort(&'a str),
}

/// An action as a mathematical value.
pub enum ActionView {
    CheckDirectory,
    Capture(ProbeView),
    Run(CommandView),
    Patch,
    Finish,
    Abort(Seq<char>),
}

impl<'a> View for Action<'a> {
    type V = ActionView;

    open spec fn view(&self) -> ActionView {
        match *self {
            Action::CheckDirectory => ActionView::CheckDirectory,
            Action::Capture(probe) => ActionView::Capture(probe@),
            Action::Run(command) => ActionView::Run(command@),
            Action::Patch => ActionView::Patch,
            Action::Finish => ActionView::Finish,
            Action::Abort(message) => ActionView::Abort(message@),
        }
    }
}

/// The line printed when work on a fixture starts.
pub open spec fn fetching_notice(grammar: Seq<char>) -> Seq<char> {
    "Fetching the "@ + grammar + " grammar..."@
}

/// The line printed before a stale working copy is updated.
pub open spec fn updating_notice(grammar: Seq<char>, local: LocalRefView, target: RefView) -> Seq<
    char,
> {
    "Updating "@ + grammar + " grammar from "@ + local.kind_text() + " "@ + local.name + " to "@
        + target.kind().label_text() + " "@ + target.name() + "..."@
}

/// The line printed when the working copy already sits on the target.
pub open spec fn current_notice(grammar: Seq<char>, target: RefView) -> Seq<char> {
    grammar + " grammar is already at "@ + target.kind().label_text() + " "@ + target.name()
}

/// The state of one fixture's synchronization as a mathematical value.
pub struct SyncView {
    pub fixture: FixtureSpecView,
    /// The fixture's directory, as text for git's command line.
    pub dir: Seq<char>,
    pub phase: Phase,
    /// The commands of the path taken; empty until a path is chosen.
    pub queue: Seq<CommandView>,
    /// The command that runs next, or that failed.
    pub next: nat,
}

impl SyncView {
    /// The state in which synchronization starts.
    pub open spec fn initial(fixture: FixtureSpecView, dir: Seq<char>) -> SyncView {
        SyncView { fixture, dir, phase: Phase::Locate, queue: Seq::empty(), next: 0 }
    }

    /// In a phase that runs commands, there is a command to run.
    pub open spec fn wf(self) -> bool {
        (self.phase == Phase::Run || self.phase == Phase::Failed) ==> self.next < self.queue.len()
    }

    /// The state that starts running `queue` from its first command.
    pub open spec fn running(self, queue: Seq<CommandView>) -> SyncView {
        SyncView { phase: Phase::Run, queue, next: 0, ..self }
    }

    pub open spec fn in_phase(self, phase: Phase) -> SyncView {
        SyncView { phase, ..self }
    }

    /// Whether a working copy observed at `local` is stale. Positions are
    /// compared by name alone, as the names are displayed.
    pub open spec fn is_stale(self, local: LocalRefView) -> bool {
        local.name != self.fixture.target().name()
    }

    /// The state once the working copy's position is known: straight to the
    /// patch where it sits on the target, else through the update commands.
    pub open spec fn located(self, local: LocalRefView) -> SyncView {
        if self.is_stale(local) {
            self.running(update_views(self.fixture.grammar_name, self.fixture.target()))
        } else {
            self.in_phase(Phase::Patch)
        }
    }

    /// The line to print once the working copy's position is known.
    pub open spec fn located_notice(self, local: LocalRefView) -> Seq<char> {
        if self.is_stale(local) {
            updating_notice(self.fixture.grammar_name, local, self.fixture.target())
        } else {
            current_notice(self.fixture.grammar_name, self.fixture.target())
        }
    }

    /// The state after an event. An event that does not answer the pending
    /// action changes nothing.
    pub open spec fn after(self, event: EventView) -> SyncView {
        match (self.phase, event) {
            (Phase::Locate, EventView::DirectoryExists(false)) => self.running(
                seq![clone_view(self.fixture.grammar_name, self.fixture.target(), self.dir)],
            ),
            (Phase::Locate, EventView::DirectoryExists(true)) => self.in_phase(Phase::ProbeTag),
            (Phase::ProbeTag, EventView::Captured(output)) => match observed(
                RefKind::Tag,
                output,
            ) {
                Some(local) => self.located(local),
                None => self.in_phase(Phase::ProbeBranch),
            },
            (Phase::ProbeBranch, EventView::Captured(output)) => match observed(
                RefKind::Branch,
                output,
            ) {
                Some(local) => self.located(local),
                None => self.located(unknown_view()),
            },
            (Phase::Run, EventView::Exited(true)) => if self.next + 1 < self.queue.len() {
                SyncView { next: self.next + 1, ..self }
            } else {
                self.in_phase(Phase::Patch)
            },
            (Phase::Run, EventView::Exited(false)) => self.in_phase(Phase::Failed),
            (Phase::Patch, EventView::Patched) => self.in_phase(Phase::Done),
            _ => self,
        }
    }

    /// The line to print on an event, where there is one: the event that
    /// settles the working copy's position is the only one with a line.
    pub open spec fn notice_on(self, event: EventView) -> Option<Seq<char>> {
        match (self.phase, event) {
            (Phase::ProbeTag, EventView::Captured(output)) => match observed(
                RefKind::Tag,
                output,
            ) {
                Some(local) => Some(self.located_notice(local)),
                None => None,
            },
            (Phase::ProbeBranch, EventView::Captured(output)) => match observed(
                RefKind::Branch,
                output,
            ) {
                Some(local) => Some(self.located_notice(local)),
                None => Some(self.located_notice(unknown_view())),
            },
            _ => None,
        }
    }

    /// What the caller must do in this state.
    pub open spec fn pending(self) -> ActionView {
        match self.phase {
            Phase::Locate => ActionView::CheckDirectory,
            Phase::ProbeTag => ActionView::Capture(probe_view(RefKind::Tag)),
            Phase::ProbeBranch => ActionView::Capture(probe_view(RefKind::Branch)),
            Phase::Run => ActionView::Run(self.queue[self.next as int]),
            Phase::Patch => ActionView::Patch,
            Phase::Done => ActionView::Finish,
            Phase::Failed => ActionView::Abort(self.queue[self.next as int].failure),
        }
    }
}

impl SyncView {
    /// The state after `count` commands in a row have exited successfully.
    pub open spec fn after_successes(self, count: nat) -> SyncView
        decreases count,
    {
        if count == 0 {
            self
        } else {
            self.after(EventView::Exited(true)).after_successes((count - 1) as nat)
        }
    }

    /// The state after the directory was found and the probes have answered.
    /// The branch probe is asked only where the tag probe names nothing.
    pub open spec fn after_probes(
        self,
        tag_probe: ProbeOutputView,
        branch_probe: ProbeOutputView,
    ) -> SyncView {
        let probed = self.after(EventView::DirectoryExists(true)).after(
            EventView::Captured(tag_probe),
        );
        if probed.phase == Phase::ProbeBranch {
            probed.after(EventView::Captured(branch_probe))
        } else {
            probed
        }
    }
}

/// Every event leaves a well-formed state well-formed.
pub proof fn law_events_keep_well_formed(state: SyncView, event: EventView)
    requires
        state.wf(),
    ensures
        state.after(event).wf(),
{
}

/// A fixture whose directory is absent is cloned, shallowly and at the target
/// reference, and nothing else runs before the patch: the clone is the one
/// command, and its success leads to the patch.
pub proof fn law_absent_fixture_is_cloned(fixture: FixtureSpecView, dir: Seq<char>)
    ensures
        ({
            let cloning = SyncView::initial(fixture, dir).after(EventView::DirectoryExists(false));
            &&& cloning.pending() == ActionView::Run(
                clone_view(fixture.grammar_name, fixture.target(), dir),
            )
            &&& cloning.after(EventView::Exited(true)).pending() == ActionView::Patch
        }),
{
}

/// The two probes, read step by step, say what reading both outputs at once
/// says: the state after them is the one located at that position.
pub proof fn law_probes_locate_the_working_copy(
    fixture: FixtureSpecView,
    dir: Seq<char>,
    tag_probe: ProbeOutputView,
    branch_probe: ProbeOutputView,
)
    ensures
        ({
            let start = SyncView::initial(fixture, dir);
            start.after_probes(tag_probe, branch_probe) == start.in_phase(
                Phase::ProbeTag,
            ).located(current_ref(tag_probe, branch_probe))
        }),
{
    let start = SyncView::initial(fixture, dir);
    let probing = start.after(EventView::DirectoryExists(true));
    assert(probing.in_phase(Phase::ProbeBranch).located(
        current_ref(tag_probe, branch_probe),
    ) == probing.located(current_ref(tag_probe, branch_probe)));
}

/// A probe that exits with a failure is no match, whatever it printed: after a
/// failed tag probe the branch probe is asked, and after a failed branch probe
/// the position is unknown.
pub proof fn law_failed_probe_is_no_match(state: SyncView, text: Seq<char>)
    ensures
        ({
            let failed = EventView::Captured(ProbeOutputView { success: false, text });
            &&& state.phase == Phase::ProbeTag ==> state.after(failed) == state.in_phase(
                Phase::ProbeBranch,
            ) && state.notice_on(failed) is None
            &&& state.phase == Phase::ProbeBranch ==> state.after(failed) == state.located(
                unknown_view(),
            )
        }),
{
}

/// A working copy that sits on the target is left alone. Where the probes name
/// the target, no command is queued: the next action is the patch, and after
/// it the fixture is done. So a second run over fixtures that a first run has
/// brought to their targets runs no command.
pub proof fn law_current_fixture_runs_no_command(
    fixture: FixtureSpecView,
    dir: Seq<char>,
    tag_probe: ProbeOutputView,
    branch_probe: ProbeOutputView,
)
    requires
        current_ref(tag_probe, branch_probe).name == fixture.target().name(),
    ensures
        ({
            let settled = SyncView::initial(fixture, dir).after_probes(tag_probe, branch_probe);
            &&& settled.queue.len() == 0
            &&& settled.pending() == ActionView::Patch
            &&& settled.after(EventView::Patched).pending() == ActionView::Finish
        }),
{
    law_probes_locate_the_working_copy(fixture, dir, tag_probe, branch_probe);
}

/// A working copy that sits elsewhere is updated: the commands queued are the
/// update of the target's kind, from the first one on.
pub proof fn law_stale_fixture_is_updated(
    fixture: FixtureSpecView,
    dir: Seq<char>,
    tag_probe: ProbeOutputView,
    branch_probe: ProbeOutputView,
)
    requires
        current_ref(tag_probe, branch_probe).name != fixture.target().name(),
    ensures
        ({
            let settled = SyncView::initial(fixture, dir).after_probes(tag_probe, branch_probe);
            &&& settled.phase == Phase::Run
            &&& settled.queue == update_views(fixture.grammar_name, fixture.target())
            &&& settled.next == 0
        }),
{
    law_probes_locate_the_working_copy(fixture, dir, tag_probe, branch_probe);
}

/// Queued commands run in order, and the patch follows the last: while every
/// command succeeds, the pending action is the next command of the queue, and
/// once none is left it is the patch.
pub proof fn law_commands_run_in_order(state: SyncView, count: nat)
    requires
        state.wf(),
        state.phase == Phase::Run,
        state.next + count <= state.queue.len(),
    ensures
        state.next + count < state.queue.len() ==> state.after_successes(count).pending()
            == ActionView::Run(state.queue[(state.next + count) as int]),
        state.next + count == state.queue.len() ==> state.after_successes(count).pending()
            == ActionView::Patch,
    decreases count,
{
    if count > 0 {
        let stepped = state.after(EventView::Exited(true));
        if state.next + 1 < state.queue.len() {
            law_commands_run_in_order(stepped, (count - 1) as nat);
        }
    }
}

/// A command that fails ends the fixture: the pending action is to abort with
/// that command's message, and no event changes that.
pub proof fn law_failure_is_final(state: SyncView, event: EventView)
    requires
        state.wf(),
        state.phase == Phase::Run,
    ensures
        ({
            let failed = state.after(EventView::Exited(false));
            &&& failed.pending() == ActionView::Abort(state.queue[state.next as int].failure)
            &&& failed.after(event) == failed
        }),
{
}

/// The patch cannot fail a fixture: while it is pending, no event leads
/// anywhere but to the end of the fixture.
pub proof fn law_patch_never_fails(state: SyncView, event: EventView)
    requires
        state.phase == Phase::Patch,
    ensures
        state.after(event).phase == Phase::Patch || state.after(event).phase == Phase::Done,
{
}

/// The patch is the last step of every fixture: a fixture becomes done only
/// when the patch is reported.
pub proof fn law_patch_precedes_done(state: SyncView, event: EventView)
    requires
        state.phase != Phase::Done,
        state.after(event).phase == Phase::Done,
    ensures
        state.phase == Phase::Patch,
        event == EventView::Patched,
{
}

/// The synchronization of one fixture.
pub struct FixtureSync {
    fixture: FixtureSpec,
    dir: String,
    phase: Phase,
    queue: Vec<Command>,
    next: usize,
}

impl View for FixtureSync {
    type V = SyncView;

    closed spec fn view(&self) -> SyncView {
        SyncView {
            fixture: self.fixture@,
            dir: self.dir@,
            phase: self.phase,
            queue: command_views(self.queue@),
            next: self.next as nat,
        }
    }
}

impl FixtureSync {
    #[verifier::type_invariant]
    spec fn inv(&self) -> bool {
        self@.wf()
    }

    /// Starts the synchronization of a fixture whose working copy lives, or
    /// will live, in `dir`.
    pub fn new(fixture: FixtureSpec, dir: String) -> (sync: FixtureSync)
        ensures
            sync@ == SyncView::initial(fixture@, dir@),
    {
        let queue: Vec<Command> = Vec::new();
        assert(command_views(queue@) =~= Seq::<CommandView>::empty());
        FixtureSync { fixture, dir, phase: Phase::Locate, queue, next: 0 }
    }

    pub fn phase(&self) -> (phase: Phase)
        ensures
            phase == self@.phase,
    {
        self.phase
    }

    /// The line to print before the first action.
    pub fn announcement(&self) -> (line: String)
        ensures
            line@ == fetching_notice(self@.fixture.grammar_name),
    {
        let mut line = String::from_str("Fetching the ");
        line.append(self.fixture.grammar_name.as_str());
        line.append(" grammar...");
        line
    }

    /// What the caller must do now.
    pub fn action(&self) -> (action: Action<'_>)
        ensures
            self@.wf(),
            action@ == self@.pending(),
    {
        proof {
            use_type_invariant(self);
        }
        match self.phase {
            Phase::Locate => Action::CheckDirectory,
            Phase::ProbeTag => Action::Capture(probe(RefKind::Tag)),
            Phase::ProbeBranch => Action::Capture(probe(RefKind::Branch)),
            Phase::Run => Action::Run(&self.queue[self.next]),
            Phase::Patch => Action::Patch,
            Phase::Done => Action::Finish,
            Phase::Failed => Action::Abort(self.queue[self.next].failure.as_str()),
        }
    }

    /// Settles the path once the working copy's position is known.
    fn locate(&mut self, local: &LocalRefState) -> (line: String)
        requires
            old(self)@.phase == Phase::ProbeTag || old(self)@.phase == Phase::ProbeBranch,
        ensures
            final(self)@ == old(self)@.located(local@),
            line@ == old(self)@.located_notice(local@),
    {
        let target = self.fixture.target();
        let grammar = self.fixture.grammar_name.as_str();
        if local.name == target.to_string() {
            let mut line = String::from_str(grammar);
            line.append(" grammar is already at ");
            line.append(target.ref_type());
            line.append(" ");
            line.append(target.name());
            self.phase = Phase::Patch;
            line
        } else {
            let mut line = String::from_str("Updating ");
            line.append(grammar);
            line.append(" grammar from ");
            line.append(local.kind_label());
            line.append(" ");
            line.append(local.name.as_str());
            line.append(" to ");
            line.append(target.ref_type());
            line.append(" ");
            line.append(target.name());
            line.append("...");
            self.queue = update_commands(grammar, &target);
            self.next = 0;
            self.phase = Phase::Run;
            line
        }
    }

    /// Takes in what the caller reports and returns the line to print, where
    /// the event calls for one.
    pub fn handle(&mut self, event: &Event) -> (notice: Option<String>)
        ensures
            old(self)@.wf(),
            final(self)@ == old(self)@.after(event@),
            final(self)@.wf(),
            match notice {
                Some(line) => old(self)@.notice_on(event@) == Some(line@),
                None => old(self)@.notice_on(event@) is None,
            },
    {
        proof {
            use_type_invariant(&*self);
        }
        match (self.phase, event) {
            (Phase::Locate, Event::DirectoryExists(false)) => {
                let target = self.fixture.target();
                let command = clone_command(
                    self.fixture.grammar_name.as_str(),
                    &target,
                    self.dir.as_str(),
                );
                let mut queue: Vec<Command> = Vec::new();
                assert(command_views(queue@) =~= Seq::<CommandView>::empty());
                push_command(&mut queue, command);
                self.queue = queue;
                self.next = 0;
                self.phase = Phase::Run;
                None
            },
            (Phase::Locate, Event::DirectoryExists(true)) => {
                self.phase = Phase::ProbeTag;
                None
            },
            (Phase::ProbeTag, Event::Captured(output)) => {
                match observe(RefKind::Tag, output) {
                    Some(local) => Some(self.locate(&local)),
                    None => {
                        self.phase = Phase::ProbeBranch;
                        None
                    },
                }
            },
            (Phase::ProbeBranch, Event::Captured(output)) => {
                match observe(RefKind::Branch, output) {
                    Some(local) => Some(self.locate(&local)),
                    None => {
                        let local = unknown_ref();
                        Some(self.locate(&local))
                    },
                }
            },
            (Phase::Run, Event::Exited(true)) => {
                assert(self.next < self.queue.len());
                if self.next + 1 < self.queue.len() {
                    self.next = self.next + 1;
                } else {
                    self.phase = Phase::Patch;
                }
                None
            },
            (Phase::Run, Event::Exited(false)) => {
                self.phase = Phase::Failed;
                None
            },
            (Phase::Patch, Event::Patched) => {
                self.phase = Phase::Done;
                None
            },
            _ => None,
        }
    }
}

} // verus!
