//! The deployment of one source to one destination: copy the closure, open
//! a session, build, check, test, and make the result the boot default.
//!
//! The deployment itself performs nothing. It is a state machine: it says
//! what to do next, and is told what came of it.
use crate::command::{
    CommandOutcome, LocalCommand, LocalCommandView, LocalOutcome, RemoteCommand, RemoteCommandView,
};
use crate::destination::Destination;
use crate::error::{Context, ContextView, DeployError, DeployErrorView, Failure, FailureView};
use crate::flake::{BuildProgress, BuildProgressView, BuildStep, BuildStepView, Flake, FlakeView};
use crate::os::nixos::{
    BuildRecord, BuildStage, BuildStageView, HealthStage, HealthStageView, Nixos, SelfCheckStage,
};
use crate::step::{Step, StepView};
use crate::system::{BootStage, SystemConfiguration, SystemConfigurationView};
use crate::text::text_eq;
use vstd::prelude::*;

verus! {

/// Whether an optional stage of the deployment is run.
#[derive(Debug, Clone, Copy, PartialEq, Eq, Structural)]
pub enum Behavior {
    Run,
    Skip,
}

impl Behavior {
    /// The behavior that `word` spells, if any.
    pub open spec fn named(word: Seq<char>) -> Option<Behavior> {
        if word == "skip"@ {
            Some(Behavior::Skip)
        } else if word == "run"@ {
            Some(Behavior::Run)
        } else {
            None
        }
    }

    /// Reads a behavior from `run` or `skip`; any other text is reported
    /// back in the error.
    pub fn from_str(word: &str) -> (behavior: Result<Behavior, DeployError>)
        ensures
            match behavior {
                Ok(behavior) => Behavior::named(word@) == Some(behavior),
                Err(error) => Behavior::named(word@) is None && error@ == DeployErrorView::new(
                    FailureView::InvalidBehavior(word@),
                ),
            },
    {
        if text_eq(word, "skip") {
            Ok(Behavior::Skip)
        } else if text_eq(word, "run") {
            Ok(Behavior::Run)
        } else {
            Err(DeployError::new(Failure::InvalidBehavior(word.to_owned())))
        }
    }
}

/// A span of time: whole seconds, and the nanoseconds beyond them.
#[derive(Debug, Clone, Copy, PartialEq, Eq, Structural)]
pub struct Delay {
    pub secs: u64,
    pub nanos: u32,
}

/// The delays of the default exponential backoff, in order.
///
/// Trusted: builds `backon::ExponentialBuilder::default()` and takes delays
/// from it until it gives no more. The contract states the delays that the
/// defaults of that builder come to: it starts at one second, doubles, and
/// stops after three.
#[verifier::external_body]
fn exponential_backoff() -> (delays: Vec<Delay>)
    ensures
        delays@ == seq![
            Delay { secs: 1, nanos: 0 },
            Delay { secs: 2, nanos: 0 },
            Delay { secs: 4, nanos: 0 },
        ],
{
    backon::BackoffBuilder::build(backon::ExponentialBuilder::default()).map(
        |delay| Delay { secs: delay.as_secs(), nanos: delay.subsec_nanos() },
    ).collect()
}

/// Everything that one deployment is given: what to deploy, where to, and
/// how.
#[derive(Debug, Clone, PartialEq, Eq)]
pub struct Deployment {
    /// The source to deploy.
    pub flake: Flake,
    /// Where to deploy it to.
    pub destination: Destination,
    /// How long one attempt to copy the closure may take.
    pub copy_timeout: Delay,
    /// Whether the host and the built closure are checked before anything
    /// is activated.
    pub do_preflight: Behavior,
    /// The self-check to run, relative to the built closure, where it is
    /// not the default one.
    pub pre_activate_script: Option<String>,
    /// Whether the configuration is activated for a test before it is made
    /// the boot default.
    pub do_test: Behavior,
    /// Arguments passed on to the build.
    pub build_cmdline: Vec<String>,
    /// How long to wait before each new attempt to copy the closure after
    /// one that ran out of time. When every delay has been used, the copy
    /// is given up.
    pub backoff: Vec<Delay>,
}

/// Where a deployment stands: what it has asked for and is waiting on.
#[derive(Debug, PartialEq, Eq)]
pub enum Stage {
    /// An attempt to copy the closure, after this many that ran out of
    /// time.
    Copying { retries: usize },
    /// The session to the host is being opened.
    Connecting,
    /// A command of the build.
    Building(BuildStage),
    /// The structured result of the build of this system is being decoded.
    Decoding { system_name: String },
    /// A command of the check of the host's health.
    CheckingSystem(SystemConfiguration, HealthStage),
    /// A command of the self-check of the built closure.
    CheckingClosure(SystemConfiguration, SelfCheckStage),
    /// The activation test.
    Testing(SystemConfiguration),
    /// A call of the boot activation.
    Booting(SystemConfiguration, BootStage),
    /// The deployment has ended in success: the configuration is the boot
    /// default of the host.
    BootCommitted,
    /// The deployment has ended in failure.
    Failed,
}

/// The view of [`Stage`] that contracts speak of: every text as its sequence
/// of characters.
pub enum StageView {
    Copying { retries: usize },
    Connecting,
    Building(BuildStageView),
    Decoding { system_name: Seq<char> },
    CheckingSystem(SystemConfigurationView, HealthStageView),
    CheckingClosure(SystemConfigurationView, SelfCheckStage),
    Testing(SystemConfigurationView),
    Booting(SystemConfigurationView, BootStage),
    BootCommitted,
    Failed,
}

impl View for Stage {
    type V = StageView;

    open spec fn view(&self) -> StageView {
        match self {
            Stage::Copying { retries } => StageView::Copying { retries: *retries },
            Stage::Connecting => StageView::Connecting,
            Stage::Building(stage) => StageView::Building(stage@),
            Stage::Decoding { system_name } => StageView::Decoding { system_name: system_name@ },
            Stage::CheckingSystem(built, stage) => StageView::CheckingSystem(built@, stage@),
            Stage::CheckingClosure(built, stage) => StageView::CheckingClosure(built@, *stage),
            Stage::Testing(built) => StageView::Testing(built@),
            Stage::Booting(built, stage) => StageView::Booting(built@, *stage),
            Stage::BootCommitted => StageView::BootCommitted,
            Stage::Failed => StageView::Failed,
        }
    }
}

/// What a deployment asks for.
#[derive(Debug, PartialEq, Eq)]
pub enum Action {
    /// Wait for `after`, where there is one, then run `command` on the
    /// deploying machine, and stop it if it takes longer than `timeout`.
    Copy { command: LocalCommand, timeout: Delay, after: Option<Delay> },
    /// Open the session to `host`.
    Connect { host: String },
    /// Run this command on the host.
    Run(RemoteCommand),
    /// Decode this structured build result into its records.
    Decode(Vec<u8>),
    /// Nothing more: the deployment has ended with this result.
    Finish(Result<(), DeployError>),
}

/// The view of [`Action`] that contracts speak of: every text as its sequence
/// of characters.
pub enum ActionView {
    Copy { command: LocalCommandView, timeout: Delay, after: Option<Delay> },
    Connect { host: Seq<char> },
    Run(RemoteCommandView),
    Decode(Seq<u8>),
    Finish(Result<(), DeployErrorView>),
}

impl View for Action {
    type V = ActionView;

    open spec fn view(&self) -> ActionView {
        match self {
            Action::Copy { command, timeout, after } => ActionView::Copy {
                command: command@,
                timeout: *timeout,
                after: *after,
            },
            Action::Connect { host } => ActionView::Connect { host: host@ },
            Action::Run(command) => ActionView::Run(command@),
            Action::Decode(report) => ActionView::Decode(report@),
            Action::Finish(result) => ActionView::Finish(crate::step::result_view(*result)),
        }
    }
}

/// What a deployment is told: what came of the action that it asked for.
#[derive(Debug, PartialEq, Eq)]
pub enum Event {
    /// The copy ran out of time and was stopped.
    CopyTimedOut,
    /// The copy ended in time, with this outcome.
    Copied(LocalOutcome),
    /// The session is open.
    Connected,
    /// The session could not be opened, for the reason described.
    ConnectFailed(String),
    /// The command on the host ended with this outcome.
    Completed(CommandOutcome),
    /// The structured build result was decoded into these records, or
    /// could not be, for the reason described.
    Decoded(Result<Vec<BuildRecord>, String>),
}

impl Deployment {
    /// What the session connects to.
    pub open spec fn host(&self) -> Seq<char> {
        self.destination.hostname@
    }

    /// The configuration to build, where one is named.
    pub open spec fn config_name(&self) -> Option<Seq<char>> {
        match self.destination.config_name {
            Some(name) => Some(name@),
            None => None,
        }
    }

    /// The self-check to run, where one is named.
    pub open spec fn script(&self) -> Option<Seq<char>> {
        match self.pre_activate_script {
            Some(script) => Some(script@),
            None => None,
        }
    }

    /// An attempt to copy the closure, after a wait of `after`.
    pub open spec fn copy_action(&self, after: Option<Delay>) -> ActionView {
        ActionView::Copy {
            command: self.flake@.copy_command(self.host()),
            timeout: self.copy_timeout,
            after,
        }
    }

    /// The end of a deployment that failed: the failure is reported in the
    /// context of its destination.
    pub open spec fn failed(&self, error: DeployErrorView) -> (StageView, ActionView) {
        (StageView::Failed, self.failure(error))
    }

    /// The report of a failure of this deployment.
    pub open spec fn failure(&self, error: DeployErrorView) -> ActionView {
        ActionView::Finish(Err(error.within(ContextView::Destination { host: self.host() })))
    }

    /// How a deployment starts: with the first attempt to copy the closure.
    pub open spec fn begin(&self) -> (StageView, ActionView) {
        (StageView::Copying { retries: 0 }, self.copy_action(None))
    }

    /// What follows from a step of the build.
    pub open spec fn building(&self, step: BuildStepView) -> (StageView, ActionView) {
        match step {
            BuildStepView::Run(stage, command) => (StageView::Building(stage), ActionView::Run(command)),
            BuildStepView::Decode(report) => (
                StageView::Decoding { system_name: report.system_name },
                ActionView::Decode(report.report),
            ),
            BuildStepView::Done(Ok(built)) => self.check(built),
            BuildStepView::Done(Err(error)) => self.failed(error),
        }
    }

    /// What follows the build: the checks, unless they are skipped.
    pub open spec fn check(&self, built: SystemConfigurationView) -> (StageView, ActionView) {
        if self.do_preflight == Behavior::Run {
            self.checking_system(built, Nixos::health_step(None))
        } else {
            self.test(built)
        }
    }

    /// What follows from a step of the check of the host's health.
    pub open spec fn checking_system(
        &self,
        built: SystemConfigurationView,
        step: StepView<HealthStageView, ()>,
    ) -> (StageView, ActionView) {
        match step {
            StepView::Run(stage, command) => (
                StageView::CheckingSystem(built, stage),
                ActionView::Run(command),
            ),
            StepView::Done(Ok(_)) => self.checking_closure(
                built,
                Nixos::self_check_step(built.path, self.script(), None),
            ),
            StepView::Done(Err(error)) => self.failed(error),
        }
    }

    /// What follows from a step of the self-check of the built closure.
    pub open spec fn checking_closure(
        &self,
        built: SystemConfigurationView,
        step: StepView<SelfCheckStage, ()>,
    ) -> (StageView, ActionView) {
        match step {
            StepView::Run(stage, command) => (
                StageView::CheckingClosure(built, stage),
                ActionView::Run(command),
            ),
            StepView::Done(Ok(_)) => self.test(built),
            StepView::Done(Err(error)) => self.failed(error),
        }
    }

    /// What follows the checks: the activation test, unless it is skipped.
    pub open spec fn test(&self, built: SystemConfigurationView) -> (StageView, ActionView) {
        if self.do_test == Behavior::Run {
            self.testing(built, Nixos::test_step(built.path, None))
        } else {
            self.booting(built, built.boot_step(None))
        }
    }

    /// What follows from a step of the activation test.
    pub open spec fn testing(&self, built: SystemConfigurationView, step: StepView<(), ()>) -> (
        StageView,
        ActionView,
    ) {
        match step {
            StepView::Run(_, command) => (StageView::Testing(built), ActionView::Run(command)),
            StepView::Done(Ok(_)) => self.booting(built, built.boot_step(None)),
            StepView::Done(Err(error)) => self.failed(error),
        }
    }

    /// What follows from a step of the boot activation.
    pub open spec fn booting(
        &self,
        built: SystemConfigurationView,
        step: StepView<BootStage, ()>,
    ) -> (StageView, ActionView) {
        match step {
            StepView::Run(stage, command) => (StageView::Booting(built, stage), ActionView::Run(command)),
            StepView::Done(Ok(_)) => (StageView::BootCommitted, ActionView::Finish(Ok(()))),
            StepView::Done(Err(error)) => self.failed(error),
        }
    }

    /// A step of the build, resumed with `previous`.
    pub open spec fn build_step(&self, previous: Option<BuildProgressView>) -> BuildStepView {
        self.flake@.build_step(self.host(), self.config_name(), self.build_cmdline@, previous)
    }

    /// The deployment's next stage and action, given the stage it is in and
    /// what came of the action it asked for.
    ///
    /// A copy that runs out of time is tried again after the next delay of
    /// the backoff, until none is left; a copy that fails is not tried
    /// again. From then on each stage follows on the success of the one
    /// before it, and the first failure ends the deployment. An event that
    /// does not answer the action asked for ends it too. A deployment that
    /// has ended stays as it has ended.
    pub open spec fn next(&self, stage: StageView, event: Event) -> (StageView, ActionView) {
        match (stage, event) {
            (StageView::Copying { retries }, Event::CopyTimedOut) => if retries < self.backoff@.len() {
                (
                    StageView::Copying { retries: (retries + 1) as usize },
                    self.copy_action(Some(self.backoff@[retries as int])),
                )
            } else {
                self.failed(DeployErrorView::new(FailureView::CopyTimedOut))
            },
            (StageView::Copying { .. }, Event::Copied(outcome)) => match FlakeView::copy_result(
                outcome,
            ) {
                Ok(_) => (StageView::Connecting, ActionView::Connect { host: self.host() }),
                Err(error) => self.failed(error),
            },
            (StageView::Connecting, Event::Connected) => self.building(self.build_step(None)),
            (StageView::Connecting, Event::ConnectFailed(description)) => self.failed(
                DeployErrorView::new(FailureView::Transport(description@)).within(
                    ContextView::Connecting { host: self.host() },
                ),
            ),
            (StageView::Building(stage), Event::Completed(outcome)) => self.building(
                self.build_step(Some(BuildProgressView::Ran(stage, outcome))),
            ),
            (StageView::Decoding { system_name }, Event::Decoded(decoded)) => self.building(
                self.build_step(Some(BuildProgressView::Decoded(system_name, decoded))),
            ),
            (StageView::CheckingSystem(built, stage), Event::Completed(outcome)) => self.checking_system(
                built,
                Nixos::health_step(Some((stage, outcome))),
            ),
            (StageView::CheckingClosure(built, stage), Event::Completed(outcome)) => self.checking_closure(
                built,
                Nixos::self_check_step(built.path, self.script(), Some((stage, outcome))),
            ),
            (StageView::Testing(built), Event::Completed(outcome)) => self.testing(
                built,
                Nixos::test_step(built.path, Some(outcome)),
            ),
            (StageView::Booting(built, stage), Event::Completed(outcome)) => self.booting(
                built,
                built.boot_step(Some((stage, outcome))),
            ),
            (StageView::BootCommitted, _) => (
                StageView::BootCommitted,
                self.failure(DeployErrorView::new(FailureView::Protocol)),
            ),
            _ => self.failed(DeployErrorView::new(FailureView::Protocol)),
        }
    }

    /// The stage that the deployment is in after `events`, and every
    /// action that it has asked for up to then, in order.
    pub open spec fn run(&self, events: Seq<Event>) -> (StageView, Seq<ActionView>)
        decreases events.len(),
    {
        if events.len() == 0 {
            (self.begin().0, seq![self.begin().1])
        } else {
            let (stage, actions) = self.run(events.drop_last());
            let (next, action) = self.next(stage, events.last());
            (next, actions.push(action))
        }
    }

    // ------------------------------------------------------------------
    fn script_text(&self) -> (script: Option<&str>)
        ensures
            crate::step::text_view(script) == self.script(),
    {
        match &self.pre_activate_script {
            Some(script) => Some(script.as_str()),
            None => None,
        }
    }

    fn config_text(&self) -> (name: Option<&str>)
        ensures
            crate::step::text_view(name) == self.config_name(),
    {
        match &self.destination.config_name {
            Some(name) => Some(name.as_str()),
            None => None,
        }
    }

    fn copy(&self, after: Option<Delay>) -> (action: Action)
        ensures
            action@ == self.copy_action(after),
    {
        let command = self.flake.copy_command(self.destination.hostname.as_str());
        Action::Copy { command, timeout: self.copy_timeout, after }
    }

    fn fail(&self, error: DeployError) -> (next: (Stage, Action))
        ensures
            (next.0@, next.1@) == self.failed(error@),
    {
        (Stage::Failed, self.report(error))
    }

    fn report(&self, error: DeployError) -> (action: Action)
        ensures
            action@ == self.failure(error@),
    {
        let host = self.destination.hostname.clone();
        Action::Finish(Err(error.within(Context::Destination { host })))
    }

    fn build(&self, previous: Option<BuildProgress>) -> (step: BuildStep)
        ensures
            step@ == self.build_step(crate::flake::progress_view(previous)),
    {
        let system = self.destination.os_flavor.on_connection(self.destination.hostname.as_str());
        self.flake.build(system, self.config_text(), &self.build_cmdline, previous)
    }

    fn on_build(&self, step: BuildStep) -> (next: (Stage, Action))
        ensures
            (next.0@, next.1@) == self.building(step@),
    {
        match step {
            BuildStep::Run(stage, command) => (Stage::Building(stage), Action::Run(command)),
            BuildStep::Decode(report) => (
                Stage::Decoding { system_name: report.system_name },
                Action::Decode(report.report),
            ),
            BuildStep::Done(Ok(built)) => self.on_built(built),
            BuildStep::Done(Err(error)) => self.fail(error),
        }
    }

    fn on_built(&self, built: SystemConfiguration) -> (next: (Stage, Action))
        ensures
            (next.0@, next.1@) == self.check(built@),
    {
        match self.do_preflight {
            Behavior::Run => {
                let step = built.preflight_check_system(None);
                self.on_system_check(built, step)
            },
            Behavior::Skip => self.on_checked(built),
        }
    }

    fn on_system_check(&self, built: SystemConfiguration, step: Step<HealthStage, ()>) -> (next: (
        Stage,
        Action,
    ))
        ensures
            (next.0@, next.1@) == self.checking_system(built@, step@),
    {
        match step {
            Step::Run(stage, command) => (Stage::CheckingSystem(built, stage), Action::Run(command)),
            Step::Done(Ok(_)) => {
                let step = built.preflight_check_closure(self.script_text(), None);
                self.on_closure_check(built, step)
            },
            Step::Done(Err(error)) => self.fail(error),
        }
    }

    fn on_closure_check(&self, built: SystemConfiguration, step: Step<SelfCheckStage, ()>) -> (next: (
        Stage,
        Action,
    ))
        ensures
            (next.0@, next.1@) == self.checking_closure(built@, step@),
    {
        match step {
            Step::Run(stage, command) => (Stage::CheckingClosure(built, stage), Action::Run(command)),
            Step::Done(Ok(_)) => self.on_checked(built),
            Step::Done(Err(error)) => self.fail(error),
        }
    }

    fn on_checked(&self, built: SystemConfiguration) -> (next: (Stage, Action))
        ensures
            (next.0@, next.1@) == self.test(built@),
    {
        match self.do_test {
            Behavior::Run => {
                let step = built.test_config(None);
                self.on_test(built, step)
            },
            Behavior::Skip => {
                let step = built.boot_config(None);
                self.on_boot(built, step)
            },
        }
    }

    fn on_test(&self, built: SystemConfiguration, step: Step<(), ()>) -> (next: (Stage, Action))
        ensures
            (next.0@, next.1@) == self.testing(built@, step@),
    {
        match step {
            Step::Run(_, command) => (Stage::Testing(built), Action::Run(command)),
            Step::Done(Ok(_)) => {
                let step = built.boot_config(None);
                self.on_boot(built, step)
            },
            Step::Done(Err(error)) => self.fail(error),
        }
    }

    fn on_boot(&self, built: SystemConfiguration, step: Step<BootStage, ()>) -> (next: (
        Stage,
        Action,
    ))
        ensures
            (next.0@, next.1@) == self.booting(built@, step@),
    {
        match step {
            Step::Run(stage, command) => (Stage::Booting(built, stage), Action::Run(command)),
            Step::Done(Ok(_)) => (Stage::BootCommitted, Action::Finish(Ok(()))),
            Step::Done(Err(error)) => self.fail(error),
        }
    }

    /// The delays of the default backoff for the copy of a closure:
    /// exponential, from one second, three times.
    pub fn default_backoff() -> (delays: Vec<Delay>)
        ensures
            delays@ == seq![
                Delay { secs: 1, nanos: 0 },
                Delay { secs: 2, nanos: 0 },
                Delay { secs: 4, nanos: 0 },
            ],
    {
        exponential_backoff()
    }

    /// Starts the deployment: the stage it is in, and the first action it
    /// asks for.
    pub fn start(&self) -> (next: (Stage, Action))
        ensures
            (next.0@, next.1@) == self.begin(),
    {
        (Stage::Copying { retries: 0 }, self.copy(None))
    }

    /// Moves the deployment on: given the stage it is in and what came of
    /// the action it asked for, the stage it is in now and the action it
    /// asks for next.
    pub fn step(&self, stage: Stage, event: Event) -> (next: (Stage, Action))
        ensures
            (next.0@, next.1@) == self.next(stage@, event),
    {
        match (stage, event) {
            (Stage::Copying { retries }, Event::CopyTimedOut) => if retries < self.backoff.len() {
                (Stage::Copying { retries: retries + 1 }, self.copy(Some(self.backoff[retries])))
            } else {
                self.fail(DeployError::new(Failure::CopyTimedOut))
            },
            (Stage::Copying { .. }, Event::Copied(outcome)) => match Flake::copy_result(outcome) {
                Ok(_) => (
                    Stage::Connecting,
                    Action::Connect { host: self.destination.hostname.clone() },
                ),
                Err(error) => self.fail(error),
            },
            (Stage::Connecting, Event::Connected) => {
                let step = self.build(None);
                self.on_build(step)
            },
            (Stage::Connecting, Event::ConnectFailed(description)) => {
                let host = self.destination.hostname.clone();
                self.fail(
                    DeployError::new(Failure::Transport(description)).within(
                        Context::Connecting { host },
                    ),
                )
            },
            (Stage::Building(stage), Event::Completed(outcome)) => {
                let step = self.build(Some(BuildProgress::Ran(stage, outcome)));
                self.on_build(step)
            },
            (Stage::Decoding { system_name }, Event::Decoded(decoded)) => {
                let step = self.build(Some(BuildProgress::Decoded(system_name, decoded)));
                self.on_build(step)
            },
            (Stage::CheckingSystem(built, stage), Event::Completed(outcome)) => {
                let step = built.preflight_check_system(Some((stage, outcome)));
                self.on_system_check(built, step)
            },
            (Stage::CheckingClosure(built, stage), Event::Completed(outcome)) => {
                let step = built.preflight_check_closure(self.script_text(), Some((stage, outcome)));
                self.on_closure_check(built, step)
            },
            (Stage::Testing(built), Event::Completed(outcome)) => {
                let step = built.test_config(Some(outcome));
                self.on_test(built, step)
            },
            (Stage::Booting(built, stage), Event::Completed(outcome)) => {
                let step = built.boot_config(Some((stage, outcome)));
                self.on_boot(built, step)
            },
            (Stage::BootCommitted, _) => (
                Stage::BootCommitted,
                self.report(DeployError::new(Failure::Protocol)),
            ),
            _ => self.fail(DeployError::new(Failure::Protocol)),
        }
    }
}

/// What a deployment has reached, in the order in which it reaches it.
#[derive(Debug, Clone, Copy, PartialEq, Eq, Structural)]
pub enum Phase {
    /// No session is open yet.
    Disconnected,
    /// The session is open.
    Connected,
    /// The configuration is built and identified.
    Built,
    /// The host and the built closure have passed their checks, or the
    /// checks are skipped.
    HealthChecked,
    /// The activation test has passed, or is skipped.
    Tested,
    /// The configuration is the boot default.
    BootCommitted,
}

impl Phase {
    /// The place of the phase in their order.
    pub open spec fn rank(self) -> nat {
        match self {
            Phase::Disconnected => 0,
            Phase::Connected => 1,
            Phase::Built => 2,
            Phase::HealthChecked => 3,
            Phase::Tested => 4,
            Phase::BootCommitted => 5,
        }
    }
}

impl Stage {
    /// What the deployment has reached at this stage; nothing where it has
    /// failed.
    pub fn phase(&self) -> (phase: Option<Phase>)
        ensures
            phase == self@.phase(),
    {
        match self {
            Stage::Copying { .. } => Some(Phase::Disconnected),
            Stage::Connecting => Some(Phase::Disconnected),
            Stage::Building(_) => Some(Phase::Connected),
            Stage::Decoding { .. } => Some(Phase::Connected),
            Stage::CheckingSystem(..) => Some(Phase::Built),
            Stage::CheckingClosure(..) => Some(Phase::Built),
            Stage::Testing(_) => Some(Phase::HealthChecked),
            Stage::Booting(..) => Some(Phase::Tested),
            Stage::BootCommitted => Some(Phase::BootCommitted),
            Stage::Failed => None,
        }
    }
}

impl StageView {
    /// How far a deployment has come: a stage that can follow another one
    /// has no lower rank than it.
    pub open spec fn rank(self) -> nat {
        match self {
            StageView::Copying { .. } => 0,
            StageView::Connecting => 1,
            StageView::Building(_) => 2,
            StageView::Decoding { .. } => 3,
            StageView::CheckingSystem(..) => 4,
            StageView::CheckingClosure(..) => 5,
            StageView::Testing(_) => 6,
            StageView::Booting(..) => 7,
            StageView::BootCommitted => 8,
            StageView::Failed => 8,
        }
    }

    /// Whether the deployment has ended.
    pub open spec fn ended(self) -> bool {
        self is BootCommitted || self is Failed
    }

    /// What the deployment has reached at this stage; nothing where it has
    /// failed.
    pub open spec fn phase(self) -> Option<Phase> {
        match self {
            StageView::Copying { .. } => Some(Phase::Disconnected),
            StageView::Connecting => Some(Phase::Disconnected),
            StageView::Building(_) => Some(Phase::Connected),
            StageView::Decoding { .. } => Some(Phase::Connected),
            StageView::CheckingSystem(..) => Some(Phase::Built),
            StageView::CheckingClosure(..) => Some(Phase::Built),
            StageView::Testing(_) => Some(Phase::HealthChecked),
            StageView::Booting(..) => Some(Phase::Tested),
            StageView::BootCommitted => Some(Phase::BootCommitted),
            StageView::Failed => None,
        }
    }

    /// The built configuration that the deployment works on at this stage,
    /// where it has one.
    pub open spec fn built(self) -> Option<SystemConfigurationView> {
        match self {
            StageView::CheckingSystem(built, _) => Some(built),
            StageView::CheckingClosure(built, _) => Some(built),
            StageView::Testing(built) => Some(built),
            StageView::Booting(built, _) => Some(built),
            _ => None,
        }
    }

    /// Whether anything on the host may have been activated or changed at
    /// this stage: the activation test and the boot activation do that.
    pub open spec fn activating(self) -> bool {
        self is Testing || self is Booting
    }
}

/// `count` attempts to copy that ran out of time, one after the other.
pub open spec fn timeouts(count: nat) -> Seq<Event> {
    Seq::new(count, |i: int| Event::CopyTimedOut)
}

/// The delay before the attempt to copy that follows `failed` attempts:
/// none before the first, then the delays of the backoff in order.
pub open spec fn wait_before(backoff: Seq<Delay>, failed: int) -> Option<Delay> {
    if failed == 0 {
        None
    } else {
        Some(backoff[failed - 1])
    }
}

/// While delays of the backoff are left, each attempt to copy that runs out
/// of time is followed by another one, after the next delay: after `count`
/// such attempts the deployment has asked for `count + 1` copies, and
/// waits on the last.
pub proof fn lemma_copy_retried(plan: Deployment, count: nat)
    requires
        count <= plan.backoff@.len(),
    ensures
        plan.run(timeouts(count)).0 == (StageView::Copying { retries: count as usize }),
        plan.run(timeouts(count)).1.len() == count + 1,
        forall|i: int|
            0 <= i <= count ==> #[trigger] plan.run(timeouts(count)).1[i] == plan.copy_action(
                wait_before(plan.backoff@, i),
            ),
    decreases count,
{
    assert(plan.backoff@.len() == plan.backoff.len());
    if count > 0 {
        let before = (count - 1) as nat;
        lemma_copy_retried(plan, before);
        assert(timeouts(count).drop_last() =~= timeouts(before));
        assert(timeouts(count).last() == Event::CopyTimedOut);
        let (stage, actions) = plan.run(timeouts(before));
        assert(plan.run(timeouts(count)) == (
            plan.next(stage, Event::CopyTimedOut).0,
            actions.push(plan.next(stage, Event::CopyTimedOut).1),
        ));
        assert forall|i: int| 0 <= i <= count implies #[trigger] plan.run(timeouts(count)).1[i]
            == plan.copy_action(wait_before(plan.backoff@, i)) by {
            if i < count {
                assert(plan.run(timeouts(count)).1[i] == plan.run(timeouts(before)).1[i]);
            }
        }
    } else {
        assert(timeouts(0).len() == 0);
    }
}

/// A copy that keeps running out of time is given up when no delay of the
/// backoff is left: the attempt after the last delay is the last one, and
/// the deployment ends with the failure that the copy timed out.
pub proof fn lemma_copy_gives_up(plan: Deployment)
    ensures
        plan.run(timeouts(plan.backoff@.len() + 1)) == (
            StageView::Failed,
            plan.run(timeouts(plan.backoff@.len())).1.push(
                plan.failure(DeployErrorView::new(FailureView::CopyTimedOut)),
            ),
        ),
{
    let count = plan.backoff@.len();
    lemma_copy_retried(plan, count);
    assert(plan.backoff@.len() == plan.backoff.len());
    assert(timeouts(count + 1).drop_last() =~= timeouts(count));
    assert(timeouts(count + 1).last() == Event::CopyTimedOut);
}

/// A copy that succeeds is not tried again: whichever attempt it is, the
/// deployment goes on to open the session. A copy that fails outright is
/// not tried again either: it ends the deployment.
pub proof fn lemma_copy_ends_at_first_answer(plan: Deployment, count: nat, outcome: LocalOutcome)
    requires
        count <= plan.backoff@.len(),
    ensures
        ({
            let (stage, actions) = plan.run(timeouts(count).push(Event::Copied(outcome)));
            &&& actions.len() == count + 2
            &&& match FlakeView::copy_result(outcome) {
                Ok(_) => stage == StageView::Connecting && actions.last() == (ActionView::Connect {
                    host: plan.host(),
                }),
                Err(error) => (stage, actions.last()) == plan.failed(error),
            }
        }),
{
    lemma_copy_retried(plan, count);
    let events = timeouts(count).push(Event::Copied(outcome));
    assert(events.drop_last() =~= timeouts(count));
    assert(events.last() == Event::Copied(outcome));
}

/// A deployment goes through its stages in order and never goes back: what
/// it has reached, it keeps, until it fails. It has ended exactly when it
/// says so, and once it has ended it stays as it is.
pub proof fn lemma_stages_in_order(plan: Deployment, stage: StageView, event: Event)
    ensures
        plan.next(stage, event).0.rank() >= stage.rank(),
        plan.next(stage, event).0.phase() matches Some(reached) ==> (stage.phase() matches Some(
            before,
        ) && before.rank() <= reached.rank()),
        plan.next(stage, event).1 is Finish <==> plan.next(stage, event).0.ended(),
        stage.ended() ==> plan.next(stage, event) == (
            stage,
            plan.failure(DeployErrorView::new(FailureView::Protocol)),
        ),
{
}

/// A deployment ends in success only when the boot activation has been
/// run for good and has succeeded, and only then has it reached the state
/// in which the configuration is the boot default.
pub proof fn lemma_success_is_committed(plan: Deployment, stage: StageView, event: Event)
    ensures
        plan.next(stage, event).1 == ActionView::Finish(Ok(())) <==> (stage matches StageView::Booting(
            _,
            BootStage::Commit,
        ) && event matches Event::Completed(outcome) && outcome.succeeded()),
        plan.next(stage, event).1 == ActionView::Finish(Ok(())) ==> plan.next(stage, event).0
            is BootCommitted,
        plan.next(stage, event).0 is BootCommitted ==> stage is BootCommitted || plan.next(
            stage,
            event,
        ).1 == ActionView::Finish(Ok(())),
{
}

/// Nothing is activated on a host before what has to come first has
/// passed. Where the checks are run, activation starts only from the
/// self-check of the closure, when that has passed or found nothing to
/// run. Where the test is run, the boot activation starts only from the
/// test, when that has succeeded.
pub proof fn lemma_activation_is_guarded(plan: Deployment, stage: StageView, event: Event)
    requires
        plan.next(stage, event).0.activating(),
    ensures
        plan.next(stage, event).0 is Booting && !(stage is Booting) ==> plan.next(
            stage,
            event,
        ).0->Booting_1 == BootStage::Trial,
        plan.do_preflight == Behavior::Run && !stage.activating() ==> stage is CheckingClosure
            && event is Completed,
        plan.do_test == Behavior::Run && plan.next(stage, event).0 is Booting && !(stage
            is Booting) ==> stage is Testing && (event matches Event::Completed(outcome)
            && outcome.succeeded()),
{
}

/// Whatever is checked, tested or activated is the result of a build that
/// was identified: a deployment takes up a built configuration only from
/// the decoded result of its build, when that holds exactly one record. The
/// configuration is the output of that record, on the host of the
/// deployment, and it stays the same to the end.
pub proof fn lemma_built_is_identified(plan: Deployment, stage: StageView, event: Event)
    requires
        plan.next(stage, event).0.built() is Some,
    ensures
        stage.built() is Some ==> plan.next(stage, event).0.built() == stage.built(),
        stage.built() is None ==> stage is Decoding && (event matches Event::Decoded(Ok(records))
            && records@.len() == 1 && plan.next(stage, event).0.built() == Some(
            SystemConfigurationView {
                path: records@[0].outputs.out@,
                host: plan.host(),
                system_name: stage->system_name,
            },
        )),
{
}

/// How many of the actions ask for a session to be opened.
pub open spec fn connects(actions: Seq<ActionView>) -> nat
    decreases actions.len(),
{
    if actions.len() == 0 {
        0
    } else if actions.last() is Connect {
        connects(actions.drop_last()) + 1
    } else {
        connects(actions.drop_last())
    }
}

/// A deployment opens one session at most, whatever happens: it asks for
/// it when the copy has succeeded, and never again. Until then it has asked
/// for none.
pub proof fn lemma_one_session(plan: Deployment, events: Seq<Event>)
    ensures
        connects(plan.run(events).1) <= 1,
        plan.run(events).0 is Copying ==> connects(plan.run(events).1) == 0,
        plan.run(events).1.last() is Connect ==> plan.run(events).0 is Connecting,
    decreases events.len(),
{
    if events.len() == 0 {
        let first = seq![plan.begin().1];
        assert(first.drop_last() =~= Seq::<ActionView>::empty());
        assert(connects(first.drop_last()) == 0);
    } else {
        lemma_one_session(plan, events.drop_last());
        let (stage, actions) = plan.run(events.drop_last());
        let (next, action) = plan.next(stage, events.last());
        assert(actions.push(action).drop_last() =~= actions);
        lemma_stages_in_order(plan, stage, events.last());
    }
}

/// A deployment that fails says where: the outermost context of the
/// failure names the destination of this deployment.
pub proof fn lemma_failure_names_destination(plan: Deployment, stage: StageView, event: Event)
    ensures
        plan.next(stage, event).1 matches ActionView::Finish(Err(error)) ==> error.context.len() > 0
            && error.context.last() == (ContextView::Destination { host: plan.host() }),
{
}

} // verus!
