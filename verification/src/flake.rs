//! The build source: a directory, and the store path that it resolves to.
use crate::command::{
    CommandOutcome, LocalCommand, LocalCommandView, LocalOutcome, RemoteCommand, RemoteCommandView,
};
use crate::error::{Context, ContextView, DeployError, DeployErrorView, Failure, FailureView};
use crate::os::nixos::{
    BuildRecord, BuildReport, BuildReportView, BuildStage, BuildStageView, Nixos,
};
use crate::step::{text_view, Step, StepView};
use crate::system::{SystemConfiguration, SystemConfigurationView};
use crate::text::{concat2, concat3, decode_lossy, lossy_text};
use std::sync::Arc;
use vstd::prelude::*;

verus! {

/// What the resolver of build sources answers: the store path of the source.
#[derive(Debug, Clone, PartialEq, Eq)]
pub struct FlakeInfo {
    pub path: String,
}

/// What came of asking the resolver about a source directory.
#[derive(Debug, Clone, PartialEq, Eq)]
pub enum Resolution {
    /// The resolver could not be run; holds the system's description.
    NotRun(String),
    /// The resolver exited with a failure; holds what it wrote to its errors.
    Failed { stderr: Vec<u8> },
    /// The resolver answered, but not in the form expected; holds the
    /// decoder's description.
    Garbled(String),
    /// The resolver answered.
    Answered(FlakeInfo),
}

impl Resolution {
    /// The store path that the resolver gave, or why there is none.
    pub open spec fn outcome(self) -> Result<Seq<char>, DeployErrorView> {
        match self {
            Resolution::NotRun(text) => Err(
                DeployErrorView::new(FailureView::ResolverNotRun(text@)).within(
                    ContextView::ResolverStart,
                ),
            ),
            Resolution::Failed { stderr } => Err(
                DeployErrorView::new(FailureView::ResolverFailed { stderr: lossy_text(stderr@) }),
            ),
            Resolution::Garbled(text) => Err(DeployErrorView::new(FailureView::ResolverOutput(text@))),
            Resolution::Answered(info) => Ok(info.path@),
        }
    }
}

impl FlakeInfo {
    /// The resolver's answer about a source directory, or why there is none.
    pub fn from_path(resolution: Resolution) -> (info: Result<FlakeInfo, DeployError>)
        ensures
            match info {
                Ok(info) => resolution.outcome() == Ok::<Seq<char>, DeployErrorView>(info.path@),
                Err(error) => resolution.outcome() == Err::<Seq<char>, DeployErrorView>(error@),
            },
    {
        match resolution {
            Resolution::NotRun(text) => Err(
                DeployError::new(Failure::ResolverNotRun(text)).within(Context::ResolverStart),
            ),
            Resolution::Failed { stderr } => {
                let text = decode_lossy(stderr.as_slice());
                Err(DeployError::new(Failure::ResolverFailed { stderr: text }))
            },
            Resolution::Garbled(text) => Err(DeployError::new(Failure::ResolverOutput(text))),
            Resolution::Answered(info) => Ok(info),
        }
    }
}

/// A resolved build source.
#[derive(Debug, Clone, PartialEq, Eq)]
pub struct Flake {
    /// The directory that the source lives in.
    dir: String,
    /// The store path that the source resolved to.
    resolved_path: String,
}

/// The view of [`Flake`] that contracts speak of: every text as its sequence
/// of characters.
pub struct FlakeView {
    pub dir: Seq<char>,
    pub resolved_path: Seq<char>,
}

impl View for Flake {
    type V = FlakeView;

    closed spec fn view(&self) -> FlakeView {
        FlakeView { dir: self.dir@, resolved_path: self.resolved_path@ }
    }
}

/// What copying a closure asks for next.
#[derive(Debug, PartialEq, Eq)]
pub enum CopyStep {
    /// Run this command on the deploying machine and come back with its
    /// outcome.
    Run(LocalCommand),
    /// Nothing more to run: the copy has ended with this result.
    Done(Result<(), DeployError>),
}

/// The view of [`CopyStep`] that contracts speak of: every text as its sequence
/// of characters.
pub enum CopyStepView {
    Run(LocalCommandView),
    Done(Result<(), DeployErrorView>),
}

impl View for CopyStep {
    type V = CopyStepView;

    open spec fn view(&self) -> CopyStepView {
        match self {
            CopyStep::Run(command) => CopyStepView::Run(command@),
            CopyStep::Done(result) => CopyStepView::Done(crate::step::result_view(*result)),
        }
    }
}

/// What a build is resumed with.
#[derive(Debug, PartialEq, Eq)]
pub enum BuildProgress {
    /// The command of this stage has ended with this outcome.
    Ran(BuildStage, CommandOutcome),
    /// The structured result of the build of the system with this name
    /// has been decoded into these records, or could not be, for the reason
    /// described.
    Decoded(String, Result<Vec<BuildRecord>, String>),
}

/// The view of [`BuildProgress`] that contracts speak of: every text as its sequence
/// of characters.
pub enum BuildProgressView {
    Ran(BuildStageView, CommandOutcome),
    Decoded(Seq<char>, Result<Vec<BuildRecord>, String>),
}

impl View for BuildProgress {
    type V = BuildProgressView;

    open spec fn view(&self) -> BuildProgressView {
        match self {
            BuildProgress::Ran(stage, outcome) => BuildProgressView::Ran(stage@, *outcome),
            BuildProgress::Decoded(system_name, decoded) => BuildProgressView::Decoded(
                system_name@,
                *decoded,
            ),
        }
    }
}

/// The view of what a build is resumed with, where it is resumed.
pub open spec fn progress_view(previous: Option<BuildProgress>) -> Option<BuildProgressView> {
    match previous {
        Some(progress) => Some(progress@),
        None => None,
    }
}

/// What a build asks for next.
#[derive(Debug, PartialEq, Eq)]
pub enum BuildStep {
    /// Run this command on the host and come back with its outcome, naming
    /// this stage.
    Run(BuildStage, RemoteCommand),
    /// Decode this structured result into its records and come back with
    /// them.
    Decode(BuildReport),
    /// Nothing more to do: the build has ended with this result.
    Done(Result<SystemConfiguration, DeployError>),
}

/// The view of [`BuildStep`] that contracts speak of: every text as its sequence
/// of characters.
pub enum BuildStepView {
    Run(BuildStageView, RemoteCommandView),
    Decode(BuildReportView),
    Done(Result<SystemConfigurationView, DeployErrorView>),
}

impl View for BuildStep {
    type V = BuildStepView;

    open spec fn view(&self) -> BuildStepView {
        match self {
            BuildStep::Run(stage, command) => BuildStepView::Run(stage@, command@),
            BuildStep::Decode(report) => BuildStepView::Decode(report@),
            BuildStep::Done(result) => BuildStepView::Done(crate::step::result_view(*result)),
        }
    }
}

impl FlakeView {
    /// Copies the closure of the source to the host `to`.
    pub open spec fn copy_command(self, to: Seq<char>) -> LocalCommandView {
        LocalCommandView { program: "nix-copy-closure"@, args: seq![to, self.resolved_path] }
    }

    /// What came of the copy: success when the command exits with status
    /// zero.
    pub open spec fn copy_result(outcome: LocalOutcome) -> Result<(), DeployErrorView> {
        match outcome {
            LocalOutcome::NotStarted(description) => Err(
                DeployErrorView::new(FailureView::CopyNotStarted(description@)),
            ),
            LocalOutcome::Exited { success } => if success {
                Ok(())
            } else {
                Err(DeployErrorView::new(FailureView::CopyFailed))
            },
        }
    }

    /// Copying the closure of the source to a host.
    pub open spec fn copy_step(self, to: Seq<char>, previous: Option<LocalOutcome>) -> CopyStepView {
        match previous {
            None => CopyStepView::Run(self.copy_command(to)),
            Some(outcome) => CopyStepView::Done(Self::copy_result(outcome)),
        }
    }

    /// Building a system configuration of the source on `host`: the
    /// commands of the build on the host, then the decoding of its
    /// structured result, which has to identify exactly one built closure.
    pub open spec fn build_step(
        self,
        host: Seq<char>,
        config_name: Option<Seq<char>>,
        build_cmdline: Seq<String>,
        previous: Option<BuildProgressView>,
    ) -> BuildStepView {
        match previous {
            Some(BuildProgressView::Decoded(system_name, decoded)) => match Nixos::identified(
                system_name,
                decoded,
            ) {
                Ok((path, name)) => BuildStepView::Done(
                    Ok(SystemConfigurationView { path, host, system_name: name }),
                ),
                Err(error) => BuildStepView::Done(Err(error)),
            },
            Some(BuildProgressView::Ran(stage, outcome)) => Self::build_commands(
                Nixos::build_step(self, config_name, build_cmdline, Some((stage, outcome))),
            ),
            None => Self::build_commands(Nixos::build_step(self, config_name, build_cmdline, None)),
        }
    }

    /// A step of the commands of a build, as a step of the build.
    pub open spec fn build_commands(step: StepView<BuildStageView, BuildReportView>) -> BuildStepView {
        match step {
            StepView::Run(stage, command) => BuildStepView::Run(stage, command),
            StepView::Done(Ok(report)) => BuildStepView::Decode(report),
            StepView::Done(Err(error)) => BuildStepView::Done(Err(error)),
        }
    }

    /// The flake reference of the system configuration named `hostname`.
    pub open spec fn nixos_system_config(self, hostname: Seq<char>) -> Seq<char> {
        self.resolved_path + "#nixosConfigurations."@ + hostname
            + ".config.system.build.toplevel"@
    }

    /// The source in `dir`, or why it could not be resolved: a failure of
    /// the resolver, in the context of the directory.
    pub open spec fn resolve(dir: Seq<char>, resolution: Resolution) -> Result<
        FlakeView,
        DeployErrorView,
    > {
        match resolution.outcome() {
            Ok(path) => Ok(FlakeView { dir, resolved_path: path }),
            Err(error) => Err(error.within(ContextView::Flake { dir })),
        }
    }
}

impl Flake {
    /// The build source in the directory `dir`, given what the resolver
    /// said about that directory.
    pub fn from_path(dir: &str, resolution: Resolution) -> (flake: Result<Flake, DeployError>)
        ensures
            match flake {
                Ok(flake) => FlakeView::resolve(dir@, resolution) == Ok::<FlakeView, DeployErrorView>(
                    flake@,
                ),
                Err(error) => FlakeView::resolve(dir@, resolution) == Err::<
                    FlakeView,
                    DeployErrorView,
                >(error@),
            },
    {
        match FlakeInfo::from_path(resolution) {
            Ok(info) => Ok(Flake { dir: dir.to_owned(), resolved_path: info.path }),
            Err(error) => Err(error.within(Context::Flake { dir: dir.to_owned() })),
        }
    }

    /// The directory that the source lives in.
    pub fn dir(&self) -> (dir: &str)
        ensures
            dir@ == self@.dir,
    {
        self.dir.as_str()
    }

    /// The store path of the source.
    pub fn resolved_path(&self) -> (path: &str)
        ensures
            path@ == self@.resolved_path,
    {
        self.resolved_path.as_str()
    }

    /// The flake reference of the NixOS system configuration for `hostname`.
    pub fn nixos_system_config(&self, hostname: &str) -> (reference: String)
        ensures
            reference@ == self@.nixos_system_config(hostname@),
    {
        let head = concat3(self.resolved_path(), "#nixosConfigurations.", hostname);
        concat2(head.as_str(), ".config.system.build.toplevel")
    }

    /// The command that copies the closure of the source to the host `to`.
    pub fn copy_command(&self, to: &str) -> (command: LocalCommand)
        ensures
            command@ == self@.copy_command(to@),
    {
        let mut args: Vec<String> = Vec::new();
        args.push(to.to_owned());
        args.push(self.resolved_path.clone());
        let command = LocalCommand { program: "nix-copy-closure".to_owned(), args };
        assert(command@.args =~= self@.copy_command(to@).args);
        command
    }

    /// What came of the copy, given the outcome of its command.
    pub fn copy_result(outcome: LocalOutcome) -> (result: Result<(), DeployError>)
        ensures
            crate::step::result_view(result) == FlakeView::copy_result(outcome),
    {
        match outcome {
            LocalOutcome::NotStarted(description) => Err(
                DeployError::new(Failure::CopyNotStarted(description)),
            ),
            LocalOutcome::Exited { success } => if success {
                Ok(())
            } else {
                Err(DeployError::new(Failure::CopyFailed))
            },
        }
    }

    /// Copies the closure of the source to the host `to`.
    pub fn copy_closure(&self, to: &str, previous: Option<LocalOutcome>) -> (step: CopyStep)
        ensures
            step@ == self@.copy_step(to@, previous),
    {
        match previous {
            None => CopyStep::Run(self.copy_command(to)),
            Some(outcome) => CopyStep::Done(Self::copy_result(outcome)),
        }
    }

    fn commands(step: Step<BuildStage, BuildReport>) -> (next: BuildStep)
        ensures
            next@ == FlakeView::build_commands(step@),
    {
        match step {
            Step::Run(stage, command) => BuildStep::Run(stage, command),
            Step::Done(Ok(report)) => BuildStep::Decode(report),
            Step::Done(Err(error)) => BuildStep::Done(Err(error)),
        }
    }

    /// Builds the system configuration `config_name` of the source on the
    /// host `on`, or the one named after the host where none is given.
    /// `build_cmdline` is passed on to the build.
    pub fn build(
        &self,
        on: Arc<Nixos>,
        config_name: Option<&str>,
        build_cmdline: &Vec<String>,
        previous: Option<BuildProgress>,
    ) -> (step: BuildStep)
        ensures
            step@ == self@.build_step(
                on@,
                text_view(config_name),
                build_cmdline@,
                progress_view(previous),
            ),
    {
        match previous {
            Some(BuildProgress::Decoded(system_name, decoded)) => match on.build_result(
                system_name,
                decoded,
            ) {
                Ok((path, name)) => BuildStep::Done(Ok(SystemConfiguration::new(path, on, name))),
                Err(error) => BuildStep::Done(Err(error)),
            },
            Some(BuildProgress::Ran(stage, outcome)) => Self::commands(
                on.build_flake(self, config_name, build_cmdline, Some((stage, outcome))),
            ),
            None => Self::commands(on.build_flake(self, config_name, build_cmdline, None)),
        }
    }
}

} // verus!
