//! What can go wrong during a deployment, and how it is reported: a root
//! cause, wrapped in the context of each layer that it passed through.
use crate::text::{concat2, concat3, debug_quote, debug_text};
use vstd::prelude::*;

verus! {

/// The root cause of a failed deployment.
#[derive(Debug, Clone, PartialEq, Eq)]
pub enum Failure {
    /// The session to the host failed; holds the transport's description.
    Transport(String),
    /// A remote command exited with a status other than zero.
    CommandFailed { command: String, status: String },
    /// The host did not answer the query for its name.
    HostnameQuery { status: String },
    /// The host answered the query for its name with nothing.
    EmptyHostname,
    /// The host reports that it is not running well.
    Unhealthy { status: String, failed_units: String },
    /// The build that reports its result in structured form failed.
    BuildFailed,
    /// The structured build result could not be decoded.
    BuildOutput(String),
    /// The structured build result did not hold exactly one record.
    BuildResults { count: usize },
    /// The built path has no final component to name the test unit after.
    NoFileName { path: String },
    /// The copy of the closure ran and failed.
    CopyFailed,
    /// The copy of the closure could not be started.
    CopyNotStarted(String),
    /// The copy of the closure ran out of time, and no retry is left.
    CopyTimedOut,
    /// The resolver of the build source exited with a failure.
    ResolverFailed { stderr: String },
    /// The answer of the resolver could not be decoded.
    ResolverOutput(String),
    /// The resolver could not be run.
    ResolverNotRun(String),
    /// A destination specifier that is neither a host name nor a known URL.
    InvalidDestination(String),
    /// A flavor other than the known ones.
    InvalidFlavor(String),
    /// A stage behavior other than `run` and `skip`.
    InvalidBehavior(String),
    /// An event arrived that does not answer what was asked for.
    Protocol,
}

/// The view of [`Failure`] that contracts speak of: every text as its sequence
/// of characters.
pub enum FailureView {
    Transport(Seq<char>),
    CommandFailed { command: Seq<char>, status: Seq<char> },
    HostnameQuery { status: Seq<char> },
    EmptyHostname,
    Unhealthy { status: Seq<char>, failed_units: Seq<char> },
    BuildFailed,
    BuildOutput(Seq<char>),
    BuildResults { count: usize },
    NoFileName { path: Seq<char> },
    CopyFailed,
    CopyNotStarted(Seq<char>),
    CopyTimedOut,
    ResolverFailed { stderr: Seq<char> },
    ResolverOutput(Seq<char>),
    ResolverNotRun(Seq<char>),
    InvalidDestination(Seq<char>),
    InvalidFlavor(Seq<char>),
    InvalidBehavior(Seq<char>),
    Protocol,
}

impl View for Failure {
    type V = FailureView;

    open spec fn view(&self) -> FailureView {
        match self {
            Failure::Transport(text) => FailureView::Transport(text@),
            Failure::CommandFailed { command, status } => FailureView::CommandFailed {
                command: command@,
                status: status@,
            },
            Failure::HostnameQuery { status } => FailureView::HostnameQuery { status: status@ },
            Failure::EmptyHostname => FailureView::EmptyHostname,
            Failure::Unhealthy { status, failed_units } => FailureView::Unhealthy {
                status: status@,
                failed_units: failed_units@,
            },
            Failure::BuildFailed => FailureView::BuildFailed,
            Failure::BuildOutput(text) => FailureView::BuildOutput(text@),
            Failure::BuildResults { count } => FailureView::BuildResults { count: *count },
            Failure::NoFileName { path } => FailureView::NoFileName { path: path@ },
            Failure::CopyFailed => FailureView::CopyFailed,
            Failure::CopyNotStarted(text) => FailureView::CopyNotStarted(text@),
            Failure::CopyTimedOut => FailureView::CopyTimedOut,
            Failure::ResolverFailed { stderr } => FailureView::ResolverFailed { stderr: stderr@ },
            Failure::ResolverOutput(text) => FailureView::ResolverOutput(text@),
            Failure::ResolverNotRun(text) => FailureView::ResolverNotRun(text@),
            Failure::InvalidDestination(text) => FailureView::InvalidDestination(text@),
            Failure::InvalidFlavor(text) => FailureView::InvalidFlavor(text@),
            Failure::InvalidBehavior(text) => FailureView::InvalidBehavior(text@),
            Failure::Protocol => FailureView::Protocol,
        }
    }
}

impl FailureView {
    /// The failure in words.
    pub open spec fn message(self) -> Seq<char> {
        match self {
            FailureView::Transport(text) => text,
            FailureView::CommandFailed { command, status } => "Remote command "@ + command
                + " failed with status "@ + status,
            FailureView::HostnameQuery { status } => "Could not query for hostname: "@ + status,
            FailureView::EmptyHostname => "The host reported an empty name"@,
            FailureView::Unhealthy { .. } => "Can not deploy to an unhealthy system"@,
            FailureView::BuildFailed => "Could not build the flake."@,
            FailureView::BuildOutput(text) => text,
            FailureView::BuildResults { .. } => "Did not receive the required number of results"@,
            FailureView::NoFileName { path } => "Built path has a weird format: "@ + debug_text(
                path,
            ),
            FailureView::CopyFailed => "nix-copy-closure failed"@,
            FailureView::CopyNotStarted(text) => text,
            FailureView::CopyTimedOut => "deadline has elapsed"@,
            FailureView::ResolverFailed { stderr } => "nix flake info failed:\n"@ + stderr,
            FailureView::ResolverOutput(text) => text,
            FailureView::ResolverNotRun(text) => text,
            FailureView::InvalidDestination(text) => "Unable to parse "@ + text,
            FailureView::InvalidFlavor(text) => "Can not parse "@ + debug_text(text)
                + " - only \"nixos\" is a valid flavor"@,
            FailureView::InvalidBehavior(text) => "Unknown behavior "@ + debug_text(text),
            FailureView::Protocol => "Received an event that answers no pending action"@,
        }
    }
}

impl Failure {
    /// The failure in words.
    pub fn message(&self) -> (text: String)
        ensures
            text@ == self@.message(),
    {
        match self {
            Failure::Transport(text) => text.clone(),
            Failure::CommandFailed { command, status } => {
                let head = concat3("Remote command ", command.as_str(), " failed with status ");
                concat2(head.as_str(), status.as_str())
            },
            Failure::HostnameQuery { status } => concat2(
                "Could not query for hostname: ",
                status.as_str(),
            ),
            Failure::EmptyHostname => "The host reported an empty name".to_owned(),
            Failure::Unhealthy { .. } => "Can not deploy to an unhealthy system".to_owned(),
            Failure::BuildFailed => "Could not build the flake.".to_owned(),
            Failure::BuildOutput(text) => text.clone(),
            Failure::BuildResults { .. } => "Did not receive the required number of results".to_owned(),
            Failure::NoFileName { path } => {
                let quoted = debug_quote(path.as_str());
                concat2("Built path has a weird format: ", quoted.as_str())
            },
            Failure::CopyFailed => "nix-copy-closure failed".to_owned(),
            Failure::CopyNotStarted(text) => text.clone(),
            Failure::CopyTimedOut => "deadline has elapsed".to_owned(),
            Failure::ResolverFailed { stderr } => concat2("nix flake info failed:\n", stderr.as_str()),
            Failure::ResolverOutput(text) => text.clone(),
            Failure::ResolverNotRun(text) => text.clone(),
            Failure::InvalidDestination(text) => concat2("Unable to parse ", text.as_str()),
            Failure::InvalidFlavor(text) => {
                let quoted = debug_quote(text.as_str());
                concat3("Can not parse ", quoted.as_str(), " - only \"nixos\" is a valid flavor")
            },
            Failure::InvalidBehavior(text) => {
                let quoted = debug_quote(text.as_str());
                concat2("Unknown behavior ", quoted.as_str())
            },
            Failure::Protocol => "Received an event that answers no pending action".to_owned(),
        }
    }
}

/// What a layer adds to a failure that passes through it: which step it
/// was, and what state the host was left in.
#[derive(Debug, Clone, PartialEq, Eq)]
pub enum Context {
    /// The self-check of the built closure did not pass.
    SelfChecks,
    /// The build with streamed output failed.
    Build,
    /// The system profile could not be pointed at the path.
    SetGeneration { path: String },
    /// The activation test of the path failed.
    Test { path: String },
    /// The path could not be made the boot default.
    BootUpdate { path: String },
    /// The trial run of the boot activation failed; nothing was changed.
    TrialBoot,
    /// The system profile may have been changed and may need a look.
    ProfileCleanup,
    /// The system profile was changed but the boot default was not.
    ProfileReset,
    /// The session to the host could not be opened.
    Connecting { host: String },
    /// The build source in this directory could not be resolved.
    Flake { dir: String },
    /// The resolver of the build source could not be started.
    ResolverStart,
    /// The deployment to this destination failed.
    Destination { host: String },
}

/// The view of [`Context`] that contracts speak of: every text as its sequence
/// of characters.
pub enum ContextView {
    SelfChecks,
    Build,
    SetGeneration { path: Seq<char> },
    Test { path: Seq<char> },
    BootUpdate { path: Seq<char> },
    TrialBoot,
    ProfileCleanup,
    ProfileReset,
    Connecting { host: Seq<char> },
    Flake { dir: Seq<char> },
    ResolverStart,
    Destination { host: Seq<char> },
}

impl View for Context {
    type V = ContextView;

    open spec fn view(&self) -> ContextView {
        match self {
            Context::SelfChecks => ContextView::SelfChecks,
            Context::Build => ContextView::Build,
            Context::SetGeneration { path } => ContextView::SetGeneration { path: path@ },
            Context::Test { path } => ContextView::Test { path: path@ },
            Context::BootUpdate { path } => ContextView::BootUpdate { path: path@ },
            Context::TrialBoot => ContextView::TrialBoot,
            Context::ProfileCleanup => ContextView::ProfileCleanup,
            Context::ProfileReset => ContextView::ProfileReset,
            Context::Connecting { host } => ContextView::Connecting { host: host@ },
            Context::Flake { dir } => ContextView::Flake { dir: dir@ },
            Context::ResolverStart => ContextView::ResolverStart,
            Context::Destination { host } => ContextView::Destination { host: host@ },
        }
    }
}

impl ContextView {
    /// The context in words.
    pub open spec fn message(self) -> Seq<char> {
        match self {
            ContextView::SelfChecks => "System closure self-checks failed"@,
            ContextView::Build => "Could not build the flake"@,
            ContextView::SetGeneration { path } => "Could not set "@ + debug_text(path)
                + " as the current generation"@,
            ContextView::Test { path } => "testing the system closure "@ + debug_text(path)
                + " failed"@,
            ContextView::BootUpdate { path } => "Could not set "@ + debug_text(path)
                + " up as the boot system"@,
            ContextView::TrialBoot => "Trial run of boot activation failed. No cleanup necessary."@,
            ContextView::ProfileCleanup => "You may have to check the system profile generation to clean up."@,
            ContextView::ProfileReset => "Actually setting the boot configuration failed. To clean up, you'll have to reset the system profile."@,
            ContextView::Connecting { host } => "Connecting to "@ + debug_text(host),
            ContextView::Flake { dir } => "Flake "@ + debug_text(dir),
            ContextView::ResolverStart => "Could not execute nix flake info"@,
            ContextView::Destination { host } => "Deploying to "@ + debug_text(host),
        }
    }
}

impl Context {
    /// The context in words.
    pub fn message(&self) -> (text: String)
        ensures
            text@ == self@.message(),
    {
        match self {
            Context::SelfChecks => "System closure self-checks failed".to_owned(),
            Context::Build => "Could not build the flake".to_owned(),
            Context::SetGeneration { path } => {
                let quoted = debug_quote(path.as_str());
                concat3("Could not set ", quoted.as_str(), " as the current generation")
            },
            Context::Test { path } => {
                let quoted = debug_quote(path.as_str());
                concat3("testing the system closure ", quoted.as_str(), " failed")
            },
            Context::BootUpdate { path } => {
                let quoted = debug_quote(path.as_str());
                concat3("Could not set ", quoted.as_str(), " up as the boot system")
            },
            Context::TrialBoot => "Trial run of boot activation failed. No cleanup necessary.".to_owned(),
            Context::ProfileCleanup => "You may have to check the system profile generation to clean up.".to_owned(),
            Context::ProfileReset => "Actually setting the boot configuration failed. To clean up, you'll have to reset the system profile.".to_owned(),
            Context::Connecting { host } => {
                let quoted = debug_quote(host.as_str());
                concat2("Connecting to ", quoted.as_str())
            },
            Context::Flake { dir } => {
                let quoted = debug_quote(dir.as_str());
                concat2("Flake ", quoted.as_str())
            },
            Context::ResolverStart => "Could not execute nix flake info".to_owned(),
            Context::Destination { host } => {
                let quoted = debug_quote(host.as_str());
                concat2("Deploying to ", quoted.as_str())
            },
        }
    }
}

/// A failed deployment: the root cause and the context that each layer
/// added on the way up, innermost first.
#[derive(Debug, Clone, PartialEq, Eq)]
pub struct DeployError {
    pub failure: Failure,
    pub context: Vec<Context>,
}

/// The view of [`DeployError`] that contracts speak of: every text as its sequence
/// of characters.
pub struct DeployErrorView {
    pub failure: FailureView,
    pub context: Seq<ContextView>,
}

impl View for DeployError {
    type V = DeployErrorView;

    open spec fn view(&self) -> DeployErrorView {
        DeployErrorView {
            failure: self.failure@,
            context: self.context@.map_values(|context: Context| context@),
        }
    }
}

impl DeployErrorView {
    /// A failure that has passed through no layer yet.
    pub open spec fn new(failure: FailureView) -> DeployErrorView {
        DeployErrorView { failure, context: Seq::empty() }
    }

    /// The error after one more layer has added its context.
    pub open spec fn within(self, context: ContextView) -> DeployErrorView {
        DeployErrorView { failure: self.failure, context: self.context.push(context) }
    }

    /// The messages from the outermost context down to the root cause.
    pub open spec fn chain(self) -> Seq<Seq<char>> {
        self.context.reverse().map_values(|context: ContextView| context.message()).push(
            self.failure.message(),
        )
    }
}

impl DeployError {
    /// A failure that has passed through no layer yet.
    pub fn new(failure: Failure) -> (error: DeployError)
        ensures
            error@ == DeployErrorView::new(failure@),
    {
        let error = DeployError { failure, context: Vec::new() };
        assert(error@.context =~= Seq::empty());
        error
    }

    /// Wraps the error in the context of one more layer.
    pub fn within(self, context: Context) -> (error: DeployError)
        ensures
            error@ == self@.within(context@),
    {
        let mut error = self;
        error.context.push(context);
        assert(error@.context =~= self@.context.push(context@));
        error
    }

    /// The messages from the outermost context down to the root cause.
    pub fn chain(&self) -> (messages: Vec<String>)
        ensures
            messages@.map_values(|text: String| text@) == self@.chain(),
    {
        let mut messages: Vec<String> = Vec::new();
        let total = self.context.len();
        let mut i: usize = total;
        while i > 0
            invariant
                i <= total,
                total == self.context.len(),
                messages.len() == total - i,
                forall|k: int|
                    0 <= k < messages.len() ==> messages[k]@ == self.context[total - 1 - k]@.message(),
            decreases i,
        {
            i = i - 1;
            let text = self.context[i].message();
            messages.push(text);
        }
        messages.push(self.failure.message());
        proof {
            let texts = messages@.map_values(|text: String| text@);
            let chain = self@.chain();
            assert(texts.len() == chain.len());
            assert forall|k: int| 0 <= k < texts.len() implies texts[k] == chain[k] by {
                if k < total {
                    assert(self@.context.reverse()[k] == self@.context[total - 1 - k]);
                }
            }
            assert(texts =~= chain);
        }
        messages
    }
}

} // verus!
