//! Provisioning the Emscripten SDK: the decisions, step by step.
//!
//! As with a fixture, an [`SdkProvision`] names the next thing to do and takes
//! in what came of it. An SDK directory that exists is left alone. Otherwise
//! the SDK is cloned, the process moves into the clone, and the SDK's own
//! installer is run twice: to install a version, then to activate it. The
//! first step that fails ends the run.

use crate::command::{no_texts, push_text, Command, CommandView};
use crate::git::{git, git_view};
use vstd::prelude::*;

verus! {

/// The installer inside the SDK, as it is started on this platform family.
pub open spec fn installer_text(windows: bool) -> Seq<char> {
    if windows {
        "emsdk.bat"@
    } else {
        "./emsdk"@
    }
}

/// The clone of the SDK into `dir`.
pub open spec fn sdk_clone_view(dir: Seq<char>) -> CommandView {
    git_view(
        seq!["clone"@, "https://github.com/emscripten-core/emsdk.git"@, dir],
        false,
        "Failed to clone the Emscripten SDK"@,
    )
}

/// One run of the installer: a verb and the version it applies to.
pub open spec fn installer_view(
    windows: bool,
    verb: Seq<char>,
    version: Seq<char>,
    failure: Seq<char>,
) -> CommandView {
    CommandView {
        program: installer_text(windows),
        args: seq![verb, version],
        in_fixture_dir: false,
        failure,
    }
}

/// One step of provisioning.
#[derive(Debug, PartialEq, Eq)]
pub enum ProvisionStep {
    /// Run a command and report how it exited.
    Run(Command),
    /// Make the SDK directory the working directory of the process.
    EnterDirectory,
}

/// A step as a mathematical value.
pub enum StepView {
    Run(CommandView),
    EnterDirectory,
}

impl View for ProvisionStep {
    type V = StepView;

    open spec fn view(&self) -> StepView {
        match *self {
            ProvisionStep::Run(command) => StepView::Run(command@),
            ProvisionStep::EnterDirectory => StepView::EnterDirectory,
        }
    }
}

/// The steps of a list, each as a mathematical value.
pub open spec fn step_views(steps: Seq<ProvisionStep>) -> Seq<StepView> {
    Seq::new(steps.len(), |i: int| steps[i]@)
}

/// The steps that provision an absent SDK, in order.
pub open spec fn provision_steps(dir: Seq<char>, windows: bool, version: Seq<char>) -> Seq<
    StepView,
> {
    seq![
        StepView::Run(sdk_clone_view(dir)),
        StepView::EnterDirectory,
        StepView::Run(
            installer_view(windows, "install"@, version, "Failed to install Emscripten"@),
        ),
        StepView::Run(
            installer_view(windows, "activate"@, version, "Failed to activate Emscripten"@),
        ),
    ]
}

/// The line printed where the SDK is already there.
pub open spec fn present_notice() -> Seq<char> {
    "Emscripten SDK already exists"@
}

/// The line printed before the SDK is cloned.
pub open spec fn cloning_notice() -> Seq<char> {
    "Cloning the Emscripten SDK..."@
}

/// How far provisioning has come.
#[derive(Clone, Copy, Debug, PartialEq, Eq, Structural)]
pub enum ProvisionPhase {
    /// Waiting to learn whether the SDK directory exists.
    Locate,
    /// Waiting for the outcome of a step.
    Run,
    /// The SDK is there.
    Done,
    /// A command failed.
    Failed,
}

/// What the caller reports back.
#[derive(Clone, Copy, Debug, PartialEq, Eq, Structural)]
pub enum ProvisionEvent {
    /// Whether the SDK directory exists.
    DirectoryExists(bool),
    /// Whether a command exited successfully.
    Exited(bool),
    /// The process now works inside the SDK directory.
    Entered,
}

/// What the caller is asked to do next.
#[derive(Debug, PartialEq, Eq)]
pub enum ProvisionAction<'a> {
    /// Find out whether the SDK directory exists.
    CheckDirectory,
    /// Run this command and report how it exited.
    Run(&'a Command),
    /// Make the SDK directory the working directory of the process.
    EnterDirectory,
    /// Nothing is left to do.
    Finish,
    /// Stop with this message.
    Abort(&'a str),
}

/// An action as a mathematical value.
pub enum ProvisionActionView {
    CheckDirectory,
    Run(CommandView),
    EnterDirectory,
    Finish,
    Abort(Seq<char>),
}

impl<'a> View for ProvisionAction<'a> {
    type V = ProvisionActionView;

    open spec fn view(&self) -> ProvisionActionView {
        match *self {
            ProvisionAction::CheckDirectory => ProvisionActionView::CheckDirectory,
            ProvisionAction::Run(command) => ProvisionActionView::Run(command@),
            ProvisionAction::EnterDirectory => ProvisionActionView::EnterDirectory,
            ProvisionAction::Finish => ProvisionActionView::Finish,
            ProvisionAction::Abort(message) => ProvisionActionView::Abort(message@),
        }
    }
}

/// The state of provisioning as a mathematical value.
pub struct ProvisionView {
    /// The SDK directory, as text for git's command line.
    pub dir: Seq<char>,
    pub windows: bool,
    pub version: Seq<char>,
    pub phase: ProvisionPhase,
    /// The steps to take; empty until the SDK is found absent.
    pub queue: Seq<StepView>,
    /// The step that is taken next, or that failed.
    pub next: nat,
}

impl ProvisionView {
    /// The state in which provisioning starts.
    pub open spec fn initial(dir: Seq<char>, windows: bool, version: Seq<char>) -> ProvisionView {
        ProvisionView {
            dir,
            windows,
            version,
            phase: ProvisionPhase::Locate,
            queue: Seq::empty(),
            next: 0,
        }
    }

    /// While steps are taken there is a step to take, and the step that failed
    /// is a command.
    pub open spec fn wf(self) -> bool {
        &&& self.phase == ProvisionPhase::Run ==> self.next < self.queue.len()
        &&& self.phase == ProvisionPhase::Failed ==> self.next < self.queue.len()
            && self.queue[self.next as int] is Run
    }

    pub open spec fn in_phase(self, phase: ProvisionPhase) -> ProvisionView {
        ProvisionView { phase, ..self }
    }

    /// The state after the step in hand has succeeded.
    pub open spec fn advanced(self) -> ProvisionView {
        if self.next + 1 < self.queue.len() {
            ProvisionView { next: self.next + 1, ..self }
        } else {
            self.in_phase(ProvisionPhase::Done)
        }
    }

    /// The state after an event. An event that does not answer the pending
    /// action changes nothing.
    pub open spec fn after(self, event: ProvisionEvent) -> ProvisionView {
        match (self.phase, event) {
            (ProvisionPhase::Locate, ProvisionEvent::DirectoryExists(true)) => self.in_phase(
                ProvisionPhase::Done,
            ),
            (ProvisionPhase::Locate, ProvisionEvent::DirectoryExists(false)) => ProvisionView {
                phase: ProvisionPhase::Run,
                queue: provision_steps(self.dir, self.windows, self.version),
                next: 0,
                ..self
            },
            (ProvisionPhase::Run, ProvisionEvent::Exited(success)) => if self.queue[self.next as int]
                is Run {
                if success {
                    self.advanced()
                } else {
                    self.in_phase(ProvisionPhase::Failed)
                }
            } else {
                self
            },
            (ProvisionPhase::Run, ProvisionEvent::Entered) => if self.queue[self.next as int]
                is EnterDirectory {
                self.advanced()
            } else {
                self
            },
            _ => self,
        }
    }

    /// The line to print on an event, where there is one: learning whether the
    /// SDK exists is the only event with a line.
    pub open spec fn notice_on(self, event: ProvisionEvent) -> Option<Seq<char>> {
        match (self.phase, event) {
            (ProvisionPhase::Locate, ProvisionEvent::DirectoryExists(true)) => Some(
                present_notice(),
            ),
            (ProvisionPhase::Locate, ProvisionEvent::DirectoryExists(false)) => Some(
                cloning_notice(),
            ),
            _ => None,
        }
    }

    /// What the caller must do in this state.
    pub open spec fn pending(self) -> ProvisionActionView {
        match self.phase {
            ProvisionPhase::Locate => ProvisionActionView::CheckDirectory,
            ProvisionPhase::Run => match self.queue[self.next as int] {
                StepView::Run(command) => ProvisionActionView::Run(command),
                StepView::EnterDirectory => ProvisionActionView::EnterDirectory,
            },
            ProvisionPhase::Done => ProvisionActionView::Finish,
            ProvisionPhase::Failed => ProvisionActionView::Abort(
                self.queue[self.next as int]->Run_0.failure,
            ),
        }
    }
}

/// An SDK directory that exists is left alone: nothing is queued and nothing
/// is left to do.
pub proof fn law_present_sdk_is_left_alone(dir: Seq<char>, windows: bool, version: Seq<char>)
    ensures
        ({
            let found = ProvisionView::initial(dir, windows, version).after(
                ProvisionEvent::DirectoryExists(true),
            );
            &&& found.queue.len() == 0
            &&& found.pending() == ProvisionActionView::Finish
        }),
{
}

/// An absent SDK is cloned, entered, installed and activated, in that order,
/// each step after the success of the one before; then nothing is left to do.
pub proof fn law_absent_sdk_is_provisioned(dir: Seq<char>, windows: bool, version: Seq<char>)
    ensures
        ({
            let cloning = ProvisionView::initial(dir, windows, version).after(
                ProvisionEvent::DirectoryExists(false),
            );
            let entering = cloning.after(ProvisionEvent::Exited(true));
            let installing = entering.after(ProvisionEvent::Entered);
            let activating = installing.after(ProvisionEvent::Exited(true));
            &&& cloning.pending() == ProvisionActionView::Run(sdk_clone_view(dir))
            &&& entering.pending() == ProvisionActionView::EnterDirectory
            &&& installing.pending() == ProvisionActionView::Run(
                installer_view(windows, "install"@, version, "Failed to install Emscripten"@),
            )
            &&& activating.pending() == ProvisionActionView::Run(
                installer_view(windows, "activate"@, version, "Failed to activate Emscripten"@),
            )
            &&& activating.after(ProvisionEvent::Exited(true)).pending()
                == ProvisionActionView::Finish
        }),
{
}

/// A command that fails ends provisioning: the pending action is to abort with
/// that command's message, and no event changes that.
pub proof fn law_provision_failure_is_final(state: ProvisionView, event: ProvisionEvent)
    requires
        state.wf(),
        state.phase == ProvisionPhase::Run,
        state.queue[state.next as int] is Run,
    ensures
        ({
            let failed = state.after(ProvisionEvent::Exited(false));
            &&& failed.pending() == ProvisionActionView::Abort(
                state.queue[state.next as int]->Run_0.failure,
            )
            &&& failed.after(event) == failed
        }),
{
}

/// The clone of the SDK into `dir`.
pub fn sdk_clone_command(dir: &str) -> (command: Command)
    ensures
        command@ == sdk_clone_view(dir@),
{
    let mut args = no_texts();
    push_text(&mut args, "clone");
    push_text(&mut args, "https://github.com/emscripten-core/emsdk.git");
    push_text(&mut args, dir);
    assert(args.deep_view() =~= sdk_clone_view(dir@).args);
    git(args, false, String::from_str("Failed to clone the Emscripten SDK"))
}

/// One run of the SDK's installer.
pub fn installer_command(windows: bool, verb: &str, version: &str, failure: &str) -> (command:
    Command)
    ensures
        command@ == installer_view(windows, verb@, version@, failure@),
{
    let program = if windows {
        "emsdk.bat"
    } else {
        "./emsdk"
    };
    let mut args = no_texts();
    push_text(&mut args, verb);
    push_text(&mut args, version);
    assert(args.deep_view() =~= seq![verb@, version@]);
    Command {
        program: String::from_str(program),
        args,
        in_fixture_dir: false,
        failure: String::from_str(failure),
    }
}

/// Appends one step to a list of steps.
fn push_step(steps: &mut Vec<ProvisionStep>, step: ProvisionStep)
    ensures
        step_views(final(steps)@) == step_views(old(steps)@).push(step@),
{
    steps.push(step);
}

/// The provisioning of the SDK.
pub struct SdkProvision {
    dir: String,
    windows: bool,
    version: String,
    phase: ProvisionPhase,
    queue: Vec<ProvisionStep>,
    next: usize,
}

impl View for SdkProvision {
    type V = ProvisionView;

    closed spec fn view(&self) -> ProvisionView {
        ProvisionView {
            dir: self.dir@,
            windows: self.windows,
            version: self.version@,
            phase: self.phase,
            queue: step_views(self.queue@),
            next: self.next as nat,
        }
    }
}

impl SdkProvision {
    #[verifier::type_invariant]
    spec fn inv(&self) -> bool {
        self@.wf()
    }

    /// Starts provisioning the SDK of that version into `dir`. `windows` says
    /// which of the installer's two names the platform takes.
    pub fn new(dir: String, windows: bool, version: String) -> (provision: SdkProvision)
        ensures
            provision@ == ProvisionView::initial(dir@, windows, version@),
    {
        let queue: Vec<ProvisionStep> = Vec::new();
        assert(step_views(queue@) =~= Seq::<StepView>::empty());
        SdkProvision { dir, windows, version, phase: ProvisionPhase::Locate, queue, next: 0 }
    }

    pub fn phase(&self) -> (phase: ProvisionPhase)
        ensures
            phase == self@.phase,
    {
        self.phase
    }

    /// What the caller must do now.
    pub fn action(&self) -> (action: ProvisionAction<'_>)
        ensures
            self@.wf(),
            action@ == self@.pending(),
    {
        proof {
            use_type_invariant(self);
        }
        match self.phase {
            ProvisionPhase::Locate => ProvisionAction::CheckDirectory,
            ProvisionPhase::Run => match &self.queue[self.next] {
                ProvisionStep::Run(command) => ProvisionAction::Run(command),
                ProvisionStep::EnterDirectory => ProvisionAction::EnterDirectory,
            },
            ProvisionPhase::Done => ProvisionAction::Finish,
            ProvisionPhase::Failed => match &self.queue[self.next] {
                ProvisionStep::Run(command) => ProvisionAction::Abort(command.failure.as_str()),
                ProvisionStep::EnterDirectory => vstd::pervasive::unreached(),
            },
        }
    }

    /// Moves past the step in hand.
    fn advance(&mut self)
        requires
            old(self)@.phase == ProvisionPhase::Run,
            old(self)@.wf(),
        ensures
            final(self)@ == old(self)@.advanced(),
    {
        assert(self.next < self.queue.len());
        if self.next + 1 < self.queue.len() {
            self.next = self.next + 1;
        } else {
            self.phase = ProvisionPhase::Done;
        }
    }

    /// Takes in what the caller reports and returns the line to print, where
    /// the event calls for one.
    pub fn handle(&mut self, event: ProvisionEvent) -> (notice: Option<&'static str>)
        ensures
            old(self)@.wf(),
            final(self)@ == old(self)@.after(event),
            final(self)@.wf(),
            match notice {
                Some(line) => old(self)@.notice_on(event) == Some(line@),
                None => old(self)@.notice_on(event) is None,
            },
    {
        proof {
            use_type_invariant(&*self);
        }
        match (self.phase, event) {
            (ProvisionPhase::Locate, ProvisionEvent::DirectoryExists(true)) => {
                self.phase = ProvisionPhase::Done;
                Some("Emscripten SDK already exists")
            },
            (ProvisionPhase::Locate, ProvisionEvent::DirectoryExists(false)) => {
                let mut queue: Vec<ProvisionStep> = Vec::new();
                push_step(&mut queue, ProvisionStep::Run(sdk_clone_command(self.dir.as_str())));
                push_step(&mut queue, ProvisionStep::EnterDirectory);
                push_step(
                    &mut queue,
                    ProvisionStep::Run(
                        installer_command(
                            self.windows,
                            "install",
                            self.version.as_str(),
                            "Failed to install Emscripten",
                        ),
                    ),
                );
                push_step(
                    &mut queue,
                    ProvisionStep::Run(
                        installer_command(
                            self.windows,
                            "activate",
                            self.version.as_str(),
                            "Failed to activate Emscripten",
                        ),
                    ),
                );
                assert(step_views(queue@) =~= provision_steps(
                    self.dir@,
                    self.windows,
                    self.version@,
                ));
                self.queue = queue;
                self.next = 0;
                self.phase = ProvisionPhase::Run;
                Some("Cloning the Emscripten SDK...")
            },
            (ProvisionPhase::Run, ProvisionEvent::Exited(success)) => {
                let is_command = match &self.queue[self.next] {
                    ProvisionStep::Run(_) => true,
                    ProvisionStep::EnterDirectory => false,
                };
                if is_command {
                    if success {
                        self.advance();
                    } else {
                        self.phase = ProvisionPhase::Failed;
                    }
                }
                None
            },
            (ProvisionPhase::Run, ProvisionEvent::Entered) => {
                let is_command = match &self.queue[self.next] {
                    ProvisionStep::Run(_) => true,
                    ProvisionStep::EnterDirectory => false,
                };
                if !is_command {
                    self.advance();
                }
                None
            },
            _ => None,
        }
    }
}

} // verus!
