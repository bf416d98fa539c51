//! NixOS as a deployment target: the command that each operation runs on
//! the host, and what the outcome of each command means.
use crate::command::{
    escaped_all, ArgView, CommandOutcome, RemoteCommand, RemoteCommandView, Sink, Source,
};
use crate::error::{Context, ContextView, DeployError, DeployErrorView, Failure, FailureView};
use crate::flake::{Flake, FlakeView};
use crate::os::Verb;
use crate::path::{base_name, file_name, join, joined};
use crate::step::{in_context, resumed, text_view, Step, StepView};
use crate::text::{chars_of, concat3, decode_lossy, lossy_text};
use std::sync::Arc;
use vstd::prelude::*;

verus! {

/// The self-check that a closure carries where no other one is named,
/// relative to the closure.
pub const DEFAULT_PREFLIGHT_SCRIPT_NAME: &'static str = "pre-activate-safety-checks";

/// A NixOS host.
#[derive(Debug, Clone, PartialEq, Eq)]
pub struct Nixos {
    host: String,
}

impl View for Nixos {
    type V = Seq<char>;

    closed spec fn view(&self) -> Seq<char> {
        self.host@
    }
}

/// One record of the structured result of a build.
#[derive(Debug, Clone, PartialEq, Eq)]
pub struct BuildRecord {
    /// The derivation that was built.
    pub drv_path: String,
    pub outputs: BuildOutputs,
}

/// The outputs of one built derivation.
#[derive(Debug, Clone, PartialEq, Eq)]
pub struct BuildOutputs {
    /// The store path of the default output.
    pub out: String,
}

/// Where a build stands.
#[derive(Debug, Clone, PartialEq, Eq)]
pub enum BuildStage {
    /// The host is being asked for its name.
    Naming,
    /// The build that streams its log is running.
    Building { system_name: String },
    /// The build that reports its result in structured form is running.
    Reporting { system_name: String },
}

/// The view of [`BuildStage`] that contracts speak of: every text as its sequence
/// of characters.
pub enum BuildStageView {
    Naming,
    Building { system_name: Seq<char> },
    Reporting { system_name: Seq<char> },
}

impl View for BuildStage {
    type V = BuildStageView;

    open spec fn view(&self) -> BuildStageView {
        match self {
            BuildStage::Naming => BuildStageView::Naming,
            BuildStage::Building { system_name } => BuildStageView::Building {
                system_name: system_name@,
            },
            BuildStage::Reporting { system_name } => BuildStageView::Reporting {
                system_name: system_name@,
            },
        }
    }
}

/// What the commands of a build leave behind: the name of the system that
/// was built, and the structured result, still to be decoded.
#[derive(Debug, Clone, PartialEq, Eq)]
pub struct BuildReport {
    pub system_name: String,
    pub report: Vec<u8>,
}

/// The view of [`BuildReport`] that contracts speak of: every text as its sequence
/// of characters.
pub struct BuildReportView {
    pub system_name: Seq<char>,
    pub report: Seq<u8>,
}

impl View for BuildReport {
    type V = BuildReportView;

    open spec fn view(&self) -> BuildReportView {
        BuildReportView { system_name: self.system_name@, report: self.report@ }
    }
}

/// Where the check of the host's health stands.
#[derive(Debug, Clone, PartialEq, Eq)]
pub enum HealthStage {
    /// The host is being asked whether it is running well.
    Probing,
    /// The host said it is not, in these words, and is being asked for its
    /// failed units.
    Listing { status: String },
}

/// The view of [`HealthStage`] that contracts speak of: every text as its sequence
/// of characters.
pub enum HealthStageView {
    Probing,
    Listing { status: Seq<char> },
}

impl View for HealthStage {
    type V = HealthStageView;

    open spec fn view(&self) -> HealthStageView {
        match self {
            HealthStage::Probing => HealthStageView::Probing,
            HealthStage::Listing { status } => HealthStageView::Listing { status: status@ },
        }
    }
}

/// Where the self-check of a built closure stands.
#[derive(Debug, Clone, Copy, PartialEq, Eq, Structural)]
pub enum SelfCheckStage {
    /// The host is being asked whether the closure carries the
    /// self-check.
    Locating,
    /// The self-check is running.
    Running,
}

impl View for SelfCheckStage {
    type V = SelfCheckStage;

    open spec fn view(&self) -> SelfCheckStage {
        *self
    }
}

/// An escaped argument.
pub open spec fn esc(text: Seq<char>) -> ArgView {
    ArgView::Escaped(text)
}

/// The text of captured output as a shell user reads it: decoded, without
/// the line break that ends it.
pub open spec fn shell_output(stdout: Seq<u8>) -> Seq<char> {
    if stdout.len() > 0 && stdout.last() == 10u8 {
        lossy_text(stdout.drop_last())
    } else {
        lossy_text(stdout)
    }
}

/// The decoded output of a command without the line break that ends it.
/// The output must not be empty.
pub fn strip_shell_output(stdout: &[u8]) -> (text: String)
    requires
        stdout@.len() > 0,
    ensures
        text@ == shell_output(stdout@),
{
    let len = stdout.len();
    if stdout[len - 1] == 10u8 {
        let head = vstd::slice::slice_subrange(stdout, 0, len - 1);
        assert(head@ =~= stdout@.drop_last());
        decode_lossy(head)
    } else {
        decode_lossy(stdout)
    }
}

/// A closure that carries no self-check passes, and nothing is run on its
/// account: whether a script is named or not, the check first only asks
/// whether the script is there, and when the host says it is not, the check
/// ends in success without another command.
pub proof fn lemma_missing_self_check_passes(
    derivation: Seq<char>,
    script: Option<Seq<char>>,
    outcome: CommandOutcome,
)
    requires
        outcome matches CommandOutcome::Exited { success, .. } && !success,
    ensures
        Nixos::self_check_step(derivation, script, None) == StepView::<SelfCheckStage, ()>::Run(
            SelfCheckStage::Locating,
            Nixos::existence_command(Nixos::script_path(derivation, script)),
        ),
        Nixos::self_check_step(derivation, script, Some((SelfCheckStage::Locating, outcome)))
            == StepView::<SelfCheckStage, ()>::Done(Ok(())),
{
}

/// A self-check is run only when the host has said that it is there, and
/// it is the script that was looked for.
pub proof fn lemma_self_check_is_located_first(
    derivation: Seq<char>,
    script: Option<Seq<char>>,
    previous: Option<(SelfCheckStage, CommandOutcome)>,
)
    requires
        Nixos::self_check_step(derivation, script, previous) is Run,
        Nixos::self_check_step(derivation, script, previous)->Run_0 == SelfCheckStage::Running,
    ensures
        previous matches Some((SelfCheckStage::Locating, outcome)) && outcome.succeeded(),
        Nixos::self_check_step(derivation, script, previous)->Run_1 == Nixos::self_check_command(
            Nixos::script_path(derivation, script),
        ),
{
}

/// A build identifies its result only from a report of exactly one
/// record: a report of none, or of more than one, is refused with the
/// number of its records, whatever the records hold.
pub proof fn lemma_build_needs_one_record(system_name: Seq<char>, records: Vec<BuildRecord>)
    ensures
        Nixos::identified(system_name, Ok(records)) is Ok <==> records@.len() == 1,
        records@.len() != 1 ==> Nixos::identified(system_name, Ok(records)) == Err::<
            (Seq<char>, Seq<char>),
            DeployErrorView,
        >(DeployErrorView::new(FailureView::BuildResults { count: records.len() })),
{
}

impl crate::destination::Flavor {
    /// The adapter for a host of this flavor that sessions know as `host`.
    pub fn on_connection(&self, host: &str) -> (system: Arc<Nixos>)
        ensures
            system@ == host@,
    {
        match self {
            crate::destination::Flavor::Nixos => Arc::new(Nixos::new(host.to_owned())),
        }
    }
}

impl Nixos {
    // ------------------------------------------------------------------
    // The commands.
    // ------------------------------------------------------------------
    /// The word that the activation script knows a verb by.
    pub open spec fn verb_text(verb: Verb) -> Seq<char> {
        match verb {
            Verb::Test => "test"@,
            Verb::Build => "build"@,
            Verb::Boot => "boot"@,
        }
    }

    /// The activation script of a configuration, and the verb for it.
    pub open spec fn activation_line(verb: Verb, derivation: Seq<char>) -> Seq<Seq<char>> {
        seq![joined(derivation, "bin/switch-to-configuration"@), Self::verb_text(verb)]
    }

    /// Asks the host for its name.
    pub open spec fn hostname_command() -> RemoteCommandView {
        RemoteCommandView {
            program: "hostname"@,
            args: Seq::empty(),
            stdin: Source::Null,
            stdout: Sink::Capture,
            stderr: Sink::Inherit,
        }
    }

    /// Asks the host whether `path` is a regular file. The path is handed to
    /// the remote shell as written.
    pub open spec fn existence_command(path: Seq<char>) -> RemoteCommandView {
        RemoteCommandView {
            program: "test"@,
            args: seq![esc("-f"@), ArgView::Raw(path)],
            stdin: Source::Inherit,
            stdout: Sink::Null,
            stderr: Sink::Log,
        }
    }

    /// Asks the host whether it is running well, once it has started up.
    pub open spec fn health_command() -> RemoteCommandView {
        RemoteCommandView {
            program: "sudo"@,
            args: seq![esc("systemctl"@), esc("is-system-running"@), esc("--wait"@)],
            stdin: Source::Null,
            stdout: Sink::Capture,
            stderr: Sink::Capture,
        }
    }

    /// Asks the host for the units that have failed.
    pub open spec fn failed_units_command() -> RemoteCommandView {
        RemoteCommandView {
            program: "sudo"@,
            args: seq![esc("systemctl"@), esc("list-units"@), esc("--failed"@)],
            stdin: Source::Null,
            stdout: Sink::Capture,
            stderr: Sink::Capture,
        }
    }

    /// Runs the self-check at `script_path`. The path is handed to the
    /// remote shell as written.
    pub open spec fn self_check_command(script_path: Seq<char>) -> RemoteCommandView {
        RemoteCommandView::logged("sudo"@, seq![ArgView::Raw(script_path)])
    }

    /// What every build command starts with.
    pub open spec fn build_prefix() -> Seq<ArgView> {
        seq![
            esc("-C"@),
            esc("/tmp"@),
            esc("nix"@),
            esc(Self::verb_text(Verb::Build)),
            esc("-L"@),
            esc("--no-link"@),
        ]
    }

    /// Builds `target`, streaming the build log.
    pub open spec fn build_command(build_cmdline: Seq<String>, target: Seq<char>) -> RemoteCommandView {
        RemoteCommandView::logged(
            "env"@,
            Self::build_prefix() + escaped_all(build_cmdline) + seq![esc(target)],
        )
    }

    /// Builds `target` and reports the result in structured form.
    pub open spec fn report_command(build_cmdline: Seq<String>, target: Seq<char>) -> RemoteCommandView {
        RemoteCommandView {
            program: "env"@,
            args: Self::build_prefix() + escaped_all(build_cmdline) + seq![
                esc("--json"@),
                esc(target),
            ],
            stdin: Source::Inherit,
            stdout: Sink::Capture,
            stderr: Sink::Log,
        }
    }

    /// Points the system profile at `derivation`.
    pub open spec fn set_generation_command(derivation: Seq<char>) -> RemoteCommandView {
        RemoteCommandView::logged(
            "sudo"@,
            seq![
                esc("nix-env"@),
                esc("-p"@),
                esc("/nix/var/nix/profiles/system"@),
                esc("--set"@),
                esc(derivation),
            ],
        )
    }

    /// The name of the unit that the activation test of a path called
    /// `name` runs in.
    pub open spec fn test_unit(name: Seq<char>) -> Seq<char> {
        Self::verb_text(Verb::Test) + "--"@ + name
    }

    /// Activates `derivation` for a test, inside a supervised one-shot unit
    /// called `unit`.
    pub open spec fn test_command(derivation: Seq<char>, unit: Seq<char>) -> RemoteCommandView {
        RemoteCommandView::logged(
            "sudo"@,
            seq![
                esc("systemd-run"@),
                esc("--working-directory=/tmp"@),
                esc("--service-type=oneshot"@),
                esc("--send-sighup"@),
                esc("--unit"@),
                esc(unit),
                esc("--wait"@),
                esc("--quiet"@),
                esc("--collect"@),
                esc("--pipe"@),
                esc("--setenv=LC_ALL=C"@),
            ] + Self::activation_line(Verb::Test, derivation).map_values(|text: Seq<char>| esc(text)),
        )
    }

    /// Makes `derivation` the boot default.
    pub open spec fn boot_command(derivation: Seq<char>) -> RemoteCommandView {
        RemoteCommandView::logged(
            "sudo"@,
            Self::activation_line(Verb::Boot, derivation).map_values(|text: Seq<char>| esc(text))
                + seq![esc(derivation)],
        )
    }

    // ------------------------------------------------------------------
    // What the outcomes mean.
    // ------------------------------------------------------------------
    /// The failure of a session that could not run a command.
    pub open spec fn lost(description: Seq<char>) -> DeployErrorView {
        DeployErrorView::new(FailureView::Transport(description))
    }

    /// What a command that is run for its effect comes to: success when it
    /// exits with status zero, else a failure that holds the command line
    /// and the status. A session that fails is a failure of another kind.
    pub open spec fn run_result(command: RemoteCommandView, outcome: CommandOutcome) -> Result<
        (),
        DeployErrorView,
    > {
        match outcome {
            CommandOutcome::Lost(description) => Err(Self::lost(description@)),
            CommandOutcome::Exited { success, status, .. } => if success {
                Ok(())
            } else {
                Err(
                    DeployErrorView::new(
                        FailureView::CommandFailed { command: command.line(), status: status@ },
                    ),
                )
            },
        }
    }

    /// Running one command with its output and errors sent to the log.
    pub open spec fn run_step(command: RemoteCommandView, previous: Option<CommandOutcome>) -> StepView<
        (),
        (),
    > {
        let logged = RemoteCommandView::logged(command.program, command.args);
        match previous {
            None => StepView::Run((), logged),
            Some(outcome) => StepView::Done(Self::run_result(logged, outcome)),
        }
    }

    /// The name that the host reports: its output without the line break
    /// at the end. A host that fails to answer, or answers with nothing,
    /// has no name.
    pub open spec fn hostname_result(outcome: CommandOutcome) -> Result<Seq<char>, DeployErrorView> {
        match outcome {
            CommandOutcome::Lost(description) => Err(Self::lost(description@)),
            CommandOutcome::Exited { success, status, stdout } => if !success {
                Err(DeployErrorView::new(FailureView::HostnameQuery { status: status@ }))
            } else if stdout@.len() == 0 {
                Err(DeployErrorView::new(FailureView::EmptyHostname))
            } else {
                Ok(shell_output(stdout@))
            },
        }
    }

    /// Asking the host for its name.
    pub open spec fn hostname_step(previous: Option<CommandOutcome>) -> StepView<(), Seq<char>> {
        match previous {
            None => StepView::Run((), Self::hostname_command()),
            Some(outcome) => StepView::Done(Self::hostname_result(outcome)),
        }
    }

    /// Whether the file exists: the exit status of the test is the answer.
    pub open spec fn existence_result(outcome: CommandOutcome) -> Result<bool, DeployErrorView> {
        match outcome {
            CommandOutcome::Lost(description) => Err(Self::lost(description@)),
            CommandOutcome::Exited { success, .. } => Ok(success),
        }
    }

    /// Asking the host whether a file exists.
    pub open spec fn existence_step(path: Seq<char>, previous: Option<CommandOutcome>) -> StepView<
        (),
        bool,
    > {
        match previous {
            None => StepView::Run((), Self::existence_command(path)),
            Some(outcome) => StepView::Done(Self::existence_result(outcome)),
        }
    }

    /// What the host said about its health: the decoded output without the
    /// line break that ends it, and nothing where no line break ends it.
    pub open spec fn health_status(stdout: Seq<u8>) -> Seq<char> {
        let text = lossy_text(stdout);
        if text.len() > 0 && text.last() == '\n' {
            text.drop_last()
        } else {
            Seq::empty()
        }
    }

    /// Checking that the host is running well. A host that is not is asked
    /// for its failed units, and then refused.
    pub open spec fn health_step(previous: Option<(HealthStageView, CommandOutcome)>) -> StepView<
        HealthStageView,
        (),
    > {
        match previous {
            None => StepView::Run(HealthStageView::Probing, Self::health_command()),
            Some((_, CommandOutcome::Lost(description))) => StepView::Done(
                Err(Self::lost(description@)),
            ),
            Some((HealthStageView::Probing, CommandOutcome::Exited { success, stdout, .. })) => if success {
                StepView::Done(Ok(()))
            } else {
                StepView::Run(
                    HealthStageView::Listing { status: Self::health_status(stdout@) },
                    Self::failed_units_command(),
                )
            },
            Some((HealthStageView::Listing { status }, CommandOutcome::Exited { stdout, .. })) => StepView::Done(
                Err(
                    DeployErrorView::new(
                        FailureView::Unhealthy { status, failed_units: lossy_text(stdout@) },
                    ),
                ),
            ),
        }
    }

    /// Where the self-check of a closure lies: the given script, or the
    /// default one, inside the closure.
    pub open spec fn script_path(derivation: Seq<char>, script: Option<Seq<char>>) -> Seq<char> {
        match script {
            Some(script) => joined(derivation, script),
            None => joined(derivation, DEFAULT_PREFLIGHT_SCRIPT_NAME@),
        }
    }

    /// Running the self-check of a built closure: the named script, or
    /// else the default one. The script is looked for first, and a closure
    /// without it passes with nothing run.
    pub open spec fn self_check_step(
        derivation: Seq<char>,
        script: Option<Seq<char>>,
        previous: Option<(SelfCheckStage, CommandOutcome)>,
    ) -> StepView<SelfCheckStage, ()> {
        let path = Self::script_path(derivation, script);
        let check = Self::self_check_command(path);
        match previous {
            None => StepView::Run(SelfCheckStage::Locating, Self::existence_command(path)),
            Some((SelfCheckStage::Locating, outcome)) => match Self::existence_result(outcome) {
                Ok(found) => if found {
                    StepView::Run(SelfCheckStage::Running, check)
                } else {
                    StepView::Done(Ok(()))
                },
                Err(error) => StepView::Done(Err(error)),
            },
            Some((SelfCheckStage::Running, outcome)) => StepView::Done(
                in_context(Self::run_result(check, outcome), ContextView::SelfChecks),
            ),
        }
    }

    /// An operation of one command: the command is run with its output in
    /// the log, and a failure is reported in the operation's context.
    pub open spec fn verb_step(
        command: RemoteCommandView,
        context: ContextView,
        previous: Option<CommandOutcome>,
    ) -> StepView<(), ()> {
        match previous {
            None => StepView::Run((), command),
            Some(outcome) => StepView::Done(in_context(Self::run_result(command, outcome), context)),
        }
    }

    /// Pointing the system profile at a path.
    pub open spec fn set_generation_step(derivation: Seq<char>, previous: Option<CommandOutcome>) -> StepView<
        (),
        (),
    > {
        Self::verb_step(
            Self::set_generation_command(derivation),
            ContextView::SetGeneration { path: derivation },
            previous,
        )
    }

    /// Activating a path for a test. A path without a final component cannot
    /// name the unit to run the test in, and is refused before anything runs.
    pub open spec fn test_step(derivation: Seq<char>, previous: Option<CommandOutcome>) -> StepView<
        (),
        (),
    > {
        match base_name(derivation) {
            None => StepView::Done(
                Err(DeployErrorView::new(FailureView::NoFileName { path: derivation })),
            ),
            Some(name) => Self::verb_step(
                Self::test_command(derivation, Self::test_unit(name)),
                ContextView::Test { path: derivation },
                previous,
            ),
        }
    }

    /// Making a path the boot default.
    pub open spec fn boot_step(derivation: Seq<char>, previous: Option<CommandOutcome>) -> StepView<
        (),
        (),
    > {
        Self::verb_step(
            Self::boot_command(derivation),
            ContextView::BootUpdate { path: derivation },
            previous,
        )
    }

    /// The first command of the build of the system called `system_name`.
    pub open spec fn start_build(
        flake: FlakeView,
        build_cmdline: Seq<String>,
        system_name: Seq<char>,
    ) -> StepView<BuildStageView, BuildReportView> {
        StepView::Run(
            BuildStageView::Building { system_name },
            Self::build_command(build_cmdline, flake.nixos_system_config(system_name)),
        )
    }

    /// Building the configuration of a system from a source. The system is
    /// the one named, or else the one that the host says it is. The build
    /// runs twice: once with its log streamed, and once more, from the
    /// cache, for its result in structured form.
    pub open spec fn build_step(
        flake: FlakeView,
        config_name: Option<Seq<char>>,
        build_cmdline: Seq<String>,
        previous: Option<(BuildStageView, CommandOutcome)>,
    ) -> StepView<BuildStageView, BuildReportView> {
        match previous {
            None => match config_name {
                None => StepView::Run(BuildStageView::Naming, Self::hostname_command()),
                Some(name) => Self::start_build(flake, build_cmdline, name),
            },
            Some((BuildStageView::Naming, outcome)) => match Self::hostname_result(outcome) {
                Ok(name) => Self::start_build(flake, build_cmdline, name),
                Err(error) => StepView::Done(Err(error)),
            },
            Some((BuildStageView::Building { system_name }, outcome)) => {
                let target = flake.nixos_system_config(system_name);
                match Self::run_result(Self::build_command(build_cmdline, target), outcome) {
                    Ok(_) => StepView::Run(
                        BuildStageView::Reporting { system_name },
                        Self::report_command(build_cmdline, target),
                    ),
                    Err(error) => StepView::Done(Err(error.within(ContextView::Build))),
                }
            },
            Some((BuildStageView::Reporting { system_name }, outcome)) => match outcome {
                CommandOutcome::Lost(description) => StepView::Done(Err(Self::lost(description@))),
                CommandOutcome::Exited { success, stdout, .. } => if success {
                    StepView::Done(Ok(BuildReportView { system_name, report: stdout@ }))
                } else {
                    StepView::Done(Err(DeployErrorView::new(FailureView::BuildFailed)))
                },
            },
        }
    }

    /// The built closure that a decoded report identifies, with the name of
    /// its system: the output of the report's one record. A report that
    /// could not be decoded, or that holds no record or more than one,
    /// identifies none.
    pub open spec fn identified(
        system_name: Seq<char>,
        decoded: Result<Vec<BuildRecord>, String>,
    ) -> Result<(Seq<char>, Seq<char>), DeployErrorView> {
        match decoded {
            Err(description) => Err(DeployErrorView::new(FailureView::BuildOutput(description@))),
            Ok(records) => if records@.len() == 1 {
                Ok((records@[0].outputs.out@, system_name))
            } else {
                Err(DeployErrorView::new(FailureView::BuildResults { count: records.len() }))
            },
        }
    }

    // ------------------------------------------------------------------
    // The operations.
    // ------------------------------------------------------------------
    /// The adapter for the host that sessions know as `host`.
    pub fn new(host: String) -> (system: Nixos)
        ensures
            system@ == host@,
    {
        Nixos { host }
    }

    /// What sessions know the host as.
    pub fn host(&self) -> (host: &str)
        ensures
            host@ == self@,
    {
        self.host.as_str()
    }

    /// The word that the activation script knows `verb` by.
    pub fn verb_command(verb: Verb) -> (word: &'static str)
        ensures
            word@ == Self::verb_text(verb),
    {
        match verb {
            Verb::Test => "test",
            Verb::Build => "build",
            Verb::Boot => "boot",
        }
    }

    /// The activation script of the configuration at `derivation`, followed
    /// by the word for `verb`.
    pub fn activation_command_line(&self, verb: Verb, derivation: &str) -> (line: Vec<String>)
        ensures
            line@.map_values(|text: String| text@) == Self::activation_line(verb, derivation@),
    {
        let script = join(derivation, "bin/switch-to-configuration");
        let mut line: Vec<String> = Vec::new();
        line.push(script);
        line.push(Self::verb_command(verb).to_owned());
        assert(line@.map_values(|text: String| text@) =~= Self::activation_line(verb, derivation@));
        line
    }

    fn lost_session(description: String) -> (error: DeployError)
        ensures
            error@ == Self::lost(description@),
    {
        DeployError::new(Failure::Transport(description))
    }

    fn finish(command: &RemoteCommand, outcome: CommandOutcome) -> (result: Result<(), DeployError>)
        ensures
            crate::step::result_view(result) == Self::run_result(command@, outcome),
    {
        match outcome {
            CommandOutcome::Lost(description) => Err(Self::lost_session(description)),
            CommandOutcome::Exited { success, status, .. } => if success {
                Ok(())
            } else {
                Err(DeployError::new(Failure::CommandFailed { command: command.line(), status }))
            },
        }
    }

    /// Runs `command` with its output and errors sent to the log, and
    /// checks its exit status.
    pub fn run_command(&self, command: RemoteCommand, previous: Option<CommandOutcome>) -> (step: Step<
        (),
        (),
    >)
        ensures
            step@ == Self::run_step(command@, previous),
    {
        let logged = command.stdin(Source::Inherit).stdout(Sink::Log).stderr(Sink::Log);
        match previous {
            None => Step::Run((), logged),
            Some(outcome) => Step::Done(Self::finish(&logged, outcome)),
        }
    }

    fn hostname_query() -> (command: RemoteCommand)
        ensures
            command@ == Self::hostname_command(),
    {
        RemoteCommand::new("hostname").stdin(Source::Null).stdout(Sink::Capture).stderr(
            Sink::Inherit,
        )
    }

    fn hostname_answer(outcome: CommandOutcome) -> (name: Result<String, DeployError>)
        ensures
            crate::step::result_view(name) == Self::hostname_result(outcome),
    {
        match outcome {
            CommandOutcome::Lost(description) => Err(Self::lost_session(description)),
            CommandOutcome::Exited { success, status, stdout } => if !success {
                Err(DeployError::new(Failure::HostnameQuery { status }))
            } else if stdout.len() == 0 {
                Err(DeployError::new(Failure::EmptyHostname))
            } else {
                Ok(strip_shell_output(stdout.as_slice()))
            },
        }
    }

    /// Asks the host for its name.
    pub fn hostname(&self, previous: Option<CommandOutcome>) -> (step: Step<(), String>)
        ensures
            step@ == Self::hostname_step(previous),
    {
        match previous {
            None => Step::Run((), Self::hostname_query()),
            Some(outcome) => Step::Done(Self::hostname_answer(outcome)),
        }
    }

    fn existence(path: &str) -> (command: RemoteCommand)
        ensures
            command@ == Self::existence_command(path@),
    {
        let command = RemoteCommand::new("test").arg("-f").raw_arg(path).stdout(Sink::Null).stderr(
            Sink::Log,
        );
        assert(command@.args =~= Self::existence_command(path@).args);
        command
    }

    /// Asks the host whether `path` is a regular file.
    pub fn test_file_existence(&self, path: &str, previous: Option<CommandOutcome>) -> (step: Step<
        (),
        bool,
    >)
        ensures
            step@ == Self::existence_step(path@, previous),
    {
        match previous {
            None => Step::Run((), Self::existence(path)),
            Some(CommandOutcome::Lost(description)) => Step::Done(
                Err(Self::lost_session(description)),
            ),
            Some(CommandOutcome::Exited { success, .. }) => Step::Done(Ok(success)),
        }
    }

    fn status_of(stdout: &[u8]) -> (status: String)
        ensures
            status@ == Self::health_status(stdout@),
    {
        let text = decode_lossy(stdout);
        let chars = chars_of(text.as_str());
        let len = chars.len();
        if len > 0 && chars[len - 1] == '\n' {
            let head = text.as_str().substring_char(0, len - 1);
            assert(head@ =~= text@.drop_last());
            head.to_owned()
        } else {
            String::new()
        }
    }

    /// Checks that the host is running well.
    pub fn preflight_check_system(&self, previous: Option<(HealthStage, CommandOutcome)>) -> (step: Step<
        HealthStage,
        (),
    >)
        ensures
            step@ == Self::health_step(resumed(previous)),
    {
        match previous {
            None => {
                let command = RemoteCommand::new("sudo").arg("systemctl").arg(
                    "is-system-running",
                ).arg("--wait").stdin(Source::Null).stdout(Sink::Capture).stderr(Sink::Capture);
                assert(command@.args =~= Self::health_command().args);
                Step::Run(HealthStage::Probing, command)
            },
            Some((_, CommandOutcome::Lost(description))) => Step::Done(
                Err(Self::lost_session(description)),
            ),
            Some((HealthStage::Probing, CommandOutcome::Exited { success, stdout, .. })) => if success {
                Step::Done(Ok(()))
            } else {
                let status = Self::status_of(stdout.as_slice());
                let command = RemoteCommand::new("sudo").arg("systemctl").arg("list-units").arg(
                    "--failed",
                ).stdin(Source::Null).stdout(Sink::Capture).stderr(Sink::Capture);
                assert(command@.args =~= Self::failed_units_command().args);
                Step::Run(HealthStage::Listing { status }, command)
            },
            Some((HealthStage::Listing { status }, CommandOutcome::Exited { stdout, .. })) => {
                let failed_units = decode_lossy(stdout.as_slice());
                Step::Done(Err(DeployError::new(Failure::Unhealthy { status, failed_units })))
            },
        }
    }

    fn self_check(script_path: &str) -> (command: RemoteCommand)
        ensures
            command@ == Self::self_check_command(script_path@),
    {
        RemoteCommand::new("sudo").raw_arg(script_path).stdout(Sink::Log).stderr(Sink::Log)
    }

    /// Runs the self-check that the closure at `derivation` carries: the
    /// one at `script`, or else the default one. A closure that does not
    /// have the script passes without anything being run.
    pub fn preflight_check_closure(
        &self,
        derivation: &str,
        script: Option<&str>,
        previous: Option<(SelfCheckStage, CommandOutcome)>,
    ) -> (step: Step<SelfCheckStage, ()>)
        ensures
            step@ == Self::self_check_step(derivation@, text_view(script), previous),
    {
        let script_path = match script {
            Some(script) => join(derivation, script),
            None => join(derivation, DEFAULT_PREFLIGHT_SCRIPT_NAME),
        };
        match previous {
            None => Step::Run(SelfCheckStage::Locating, Self::existence(script_path.as_str())),
            Some((SelfCheckStage::Locating, outcome)) => match outcome {
                CommandOutcome::Lost(description) => Step::Done(Err(Self::lost_session(description))),
                CommandOutcome::Exited { success, .. } => if success {
                    Step::Run(SelfCheckStage::Running, Self::self_check(script_path.as_str()))
                } else {
                    Step::Done(Ok(()))
                },
            },
            Some((SelfCheckStage::Running, outcome)) => {
                let command = Self::self_check(script_path.as_str());
                Step::Done(Self::finish(&command, outcome)).within(Context::SelfChecks)
            },
        }
    }

    fn build_prefix_on(command: RemoteCommand) -> (prefixed: RemoteCommand)
        ensures
            prefixed@ == (RemoteCommandView {
                args: command@.args + Self::build_prefix(),
                ..command@
            }),
    {
        let prefixed = command.arg("-C").arg("/tmp").arg("nix").arg(
            Self::verb_command(Verb::Build),
        ).arg("-L").arg("--no-link");
        assert(prefixed@.args =~= command@.args + Self::build_prefix());
        prefixed
    }

    fn streamed_build(build_cmdline: &Vec<String>, target: &str) -> (command: RemoteCommand)
        ensures
            command@ == Self::build_command(build_cmdline@, target@),
    {
        let command = Self::build_prefix_on(RemoteCommand::new("env")).args(build_cmdline).arg(
            target,
        ).stdout(Sink::Log).stderr(Sink::Log);
        assert(command@.args =~= Self::build_command(build_cmdline@, target@).args);
        command
    }

    fn reported_build(build_cmdline: &Vec<String>, target: &str) -> (command: RemoteCommand)
        ensures
            command@ == Self::report_command(build_cmdline@, target@),
    {
        let command = Self::build_prefix_on(RemoteCommand::new("env")).args(build_cmdline).arg(
            "--json",
        ).arg(target).stdout(Sink::Capture).stderr(Sink::Log);
        assert(command@.args =~= Self::report_command(build_cmdline@, target@).args);
        command
    }

    fn begin_build(flake: &Flake, build_cmdline: &Vec<String>, system_name: String) -> (step: Step<
        BuildStage,
        BuildReport,
    >)
        ensures
            step@ == Self::start_build(flake@, build_cmdline@, system_name@),
    {
        let target = flake.nixos_system_config(system_name.as_str());
        let command = Self::streamed_build(build_cmdline, target.as_str());
        Step::Run(BuildStage::Building { system_name }, command)
    }

    /// Builds the system configuration `config_name` of `flake` on the
    /// host, or the one named after the host where none is given.
    /// `build_cmdline` is passed on to the build. A build that succeeds
    /// ends with the name of the system and the structured result of the
    /// build, which [`Nixos::build_result`] reads once it is decoded.
    pub fn build_flake(
        &self,
        flake: &Flake,
        config_name: Option<&str>,
        build_cmdline: &Vec<String>,
        previous: Option<(BuildStage, CommandOutcome)>,
    ) -> (step: Step<BuildStage, BuildReport>)
        ensures
            step@ == Self::build_step(
                flake@,
                text_view(config_name),
                build_cmdline@,
                resumed(previous),
            ),
    {
        match previous {
            None => match config_name {
                None => Step::Run(BuildStage::Naming, Self::hostname_query()),
                Some(name) => Self::begin_build(flake, build_cmdline, name.to_owned()),
            },
            Some((BuildStage::Naming, outcome)) => match Self::hostname_answer(outcome) {
                Ok(name) => Self::begin_build(flake, build_cmdline, name),
                Err(error) => Step::Done(Err(error)),
            },
            Some((BuildStage::Building { system_name }, outcome)) => {
                let target = flake.nixos_system_config(system_name.as_str());
                let command = Self::streamed_build(build_cmdline, target.as_str());
                match Self::finish(&command, outcome) {
                    Ok(_) => Step::Run(
                        BuildStage::Reporting { system_name },
                        Self::reported_build(build_cmdline, target.as_str()),
                    ),
                    Err(error) => Step::Done(Err(error.within(Context::Build))),
                }
            },
            Some((BuildStage::Reporting { system_name }, outcome)) => match outcome {
                CommandOutcome::Lost(description) => Step::Done(Err(Self::lost_session(description))),
                CommandOutcome::Exited { success, stdout, .. } => if success {
                    Step::Done(Ok(BuildReport { system_name, report: stdout }))
                } else {
                    Step::Done(Err(DeployError::new(Failure::BuildFailed)))
                },
            },
        }
    }

    /// Reads the decoded structured result of a build: the store path of
    /// the built closure, with the name of its system. The result has to
    /// hold exactly one record, whatever the records hold.
    pub fn build_result(
        &self,
        system_name: String,
        decoded: Result<Vec<BuildRecord>, String>,
    ) -> (built: Result<(String, String), DeployError>)
        ensures
            match built {
                Ok((path, name)) => Self::identified(system_name@, decoded) == Ok::<
                    (Seq<char>, Seq<char>),
                    DeployErrorView,
                >((path@, name@)),
                Err(error) => Self::identified(system_name@, decoded) == Err::<
                    (Seq<char>, Seq<char>),
                    DeployErrorView,
                >(error@),
            },
            built is Ok <==> (decoded matches Ok(records) && records@.len() == 1),
    {
        match decoded {
            Err(description) => Err(DeployError::new(Failure::BuildOutput(description))),
            Ok(records) => if records.len() == 1 {
                Ok((records[0].outputs.out.clone(), system_name))
            } else {
                Err(DeployError::new(Failure::BuildResults { count: records.len() }))
            },
        }
    }

    /// Points the system profile at `derivation`, without activating it.
    pub fn set_as_current_generation(&self, derivation: &str, previous: Option<CommandOutcome>) -> (step: Step<
        (),
        (),
    >)
        ensures
            step@ == Self::set_generation_step(derivation@, previous),
    {
        let command = RemoteCommand::new("sudo").arg("nix-env").arg("-p").arg(
            "/nix/var/nix/profiles/system",
        ).arg("--set").arg(derivation);
        assert(command@.args =~= Self::set_generation_command(derivation@).args);
        self.run_command(command, previous).within(
            Context::SetGeneration { path: derivation.to_owned() },
        )
    }

    /// Activates the configuration at `derivation` on the running system,
    /// inside a supervised one-shot unit named after the path.
    pub fn test_config(&self, derivation: &str, previous: Option<CommandOutcome>) -> (step: Step<(), ()>)
        ensures
            step@ == Self::test_step(derivation@, previous),
    {
        match file_name(derivation) {
            None => Step::Done(
                Err(DeployError::new(Failure::NoFileName { path: derivation.to_owned() })),
            ),
            Some(name) => {
                let unit = concat3(Self::verb_command(Verb::Test), "--", name.as_str());
                let line = self.activation_command_line(Verb::Test, derivation);
                let command = RemoteCommand::new("sudo").arg("systemd-run").arg(
                    "--working-directory=/tmp",
                ).arg("--service-type=oneshot").arg("--send-sighup").arg("--unit").arg(
                    unit.as_str(),
                ).arg("--wait").arg("--quiet").arg("--collect").arg("--pipe").arg(
                    "--setenv=LC_ALL=C",
                ).args(&line);
                assert(command@.args =~= Self::test_command(derivation@, unit@).args) by {
                    assert(escaped_all(line@) =~= Self::activation_line(
                        Verb::Test,
                        derivation@,
                    ).map_values(|text: Seq<char>| esc(text)));
                }
                self.run_command(command, previous).within(
                    Context::Test { path: derivation.to_owned() },
                )
            },
        }
    }

    /// Makes the configuration at `derivation` the default boot entry.
    pub fn update_boot_for_config(&self, derivation: &str, previous: Option<CommandOutcome>) -> (step: Step<
        (),
        (),
    >)
        ensures
            step@ == Self::boot_step(derivation@, previous),
    {
        let line = self.activation_command_line(Verb::Boot, derivation);
        let command = RemoteCommand::new("sudo").args(&line).arg(derivation);
        assert(command@.args =~= Self::boot_command(derivation@).args) by {
            assert(escaped_all(line@) =~= Self::activation_line(Verb::Boot, derivation@).map_values(
                |text: Seq<char>| esc(text),
            ));
        }
        self.run_command(command, previous).within(
            Context::BootUpdate { path: derivation.to_owned() },
        )
    }
}

} // verus!
