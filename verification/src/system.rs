//! A configuration that has been built on a host and is ready to be
//! checked, tested and activated there.
use crate::command::{CommandOutcome, RemoteCommandView};
use crate::error::{Context, ContextView, DeployErrorView};
use crate::os::nixos::{HealthStage, Nixos, SelfCheckStage};
use crate::step::{in_context, resumed, text_view, Step, StepView};
use std::sync::Arc;
use vstd::prelude::*;

verus! {

/// A system configuration that was built on a host.
#[derive(Debug, Clone, PartialEq, Eq)]
pub struct SystemConfiguration {
    /// The store path of the built closure, on the host that built it.
    path: String,
    /// The host that built it.
    system: Arc<Nixos>,
    /// The name of the system that the configuration is for.
    system_name: String,
}

/// The view of [`SystemConfiguration`] that contracts speak of: every text as its sequence
/// of characters.
pub struct SystemConfigurationView {
    pub path: Seq<char>,
    pub host: Seq<char>,
    pub system_name: Seq<char>,
}

impl View for SystemConfiguration {
    type V = SystemConfigurationView;

    closed spec fn view(&self) -> SystemConfigurationView {
        SystemConfigurationView {
            path: self.path@,
            host: self.system@,
            system_name: self.system_name@,
        }
    }
}

/// The calls that make a configuration the boot default, in their order.
#[derive(Debug, Clone, Copy, PartialEq, Eq, Structural)]
pub enum BootStage {
    /// The boot activation, run to see whether it would work. It changes
    /// nothing that has to be undone.
    Trial,
    /// The system profile is pointed at the configuration.
    SetGeneration,
    /// The boot activation, run for good.
    Commit,
}

impl View for BootStage {
    type V = BootStage;

    open spec fn view(&self) -> BootStage {
        *self
    }
}

impl BootStage {
    /// What the host is asked to do at this stage.
    pub open spec fn command(self, path: Seq<char>) -> RemoteCommandView {
        match self {
            BootStage::Trial => Nixos::boot_command(path),
            BootStage::SetGeneration => Nixos::set_generation_command(path),
            BootStage::Commit => Nixos::boot_command(path),
        }
    }

    /// What this stage is, in the words of a failure report.
    pub open spec fn layer(self, path: Seq<char>) -> ContextView {
        match self {
            BootStage::Trial => ContextView::BootUpdate { path },
            BootStage::SetGeneration => ContextView::SetGeneration { path },
            BootStage::Commit => ContextView::BootUpdate { path },
        }
    }

    /// What the operator is told when this stage fails: what state the
    /// host is left in.
    pub open spec fn guidance(self) -> ContextView {
        match self {
            BootStage::Trial => ContextView::TrialBoot,
            BootStage::SetGeneration => ContextView::ProfileCleanup,
            BootStage::Commit => ContextView::ProfileReset,
        }
    }

    /// The stage that follows this one when it succeeds.
    pub open spec fn following(self) -> Option<BootStage> {
        match self {
            BootStage::Trial => Some(BootStage::SetGeneration),
            BootStage::SetGeneration => Some(BootStage::Commit),
            BootStage::Commit => None,
        }
    }

    /// What came of this stage, given the outcome of its command.
    pub open spec fn result(self, path: Seq<char>, outcome: CommandOutcome) -> Result<
        (),
        DeployErrorView,
    > {
        in_context(
            in_context(Nixos::run_result(self.command(path), outcome), self.layer(path)),
            self.guidance(),
        )
    }
}

impl SystemConfigurationView {
    /// Making the configuration the boot default, in three calls: a trial
    /// of the boot activation, the switch of the system profile, and the
    /// boot activation for good. Each call is made only when the one
    /// before it has succeeded, and the first failure ends the operation,
    /// with the guidance of the stage that failed.
    pub open spec fn boot_step(self, previous: Option<(BootStage, CommandOutcome)>) -> StepView<
        BootStage,
        (),
    > {
        match previous {
            None => StepView::Run(BootStage::Trial, BootStage::Trial.command(self.path)),
            Some((stage, outcome)) => match stage.result(self.path, outcome) {
                Err(error) => StepView::Done(Err(error)),
                Ok(_) => match stage.following() {
                    Some(next) => StepView::Run(next, next.command(self.path)),
                    None => StepView::Done(Ok(())),
                },
            },
        }
    }
}

impl SystemConfigurationView {
    /// The calls that the boot activation makes after `previous`, in
    /// order, where `outcomes` holds what comes of each in turn. It stops
    /// at the first failure, and where `outcomes` ends.
    pub open spec fn boot_calls_after(
        self,
        previous: Option<(BootStage, CommandOutcome)>,
        outcomes: Seq<CommandOutcome>,
    ) -> Seq<BootStage>
        decreases outcomes.len(),
    {
        match self.boot_step(previous) {
            StepView::Done(_) => Seq::empty(),
            StepView::Run(stage, _) => if outcomes.len() == 0 {
                seq![stage]
            } else {
                seq![stage] + self.boot_calls_after(Some((stage, outcomes[0])), outcomes.skip(1))
            },
        }
    }

    /// The calls that the boot activation makes from its start, in order,
    /// where `outcomes` holds what comes of each in turn.
    pub open spec fn boot_calls(self, outcomes: Seq<CommandOutcome>) -> Seq<BootStage> {
        self.boot_calls_after(None, outcomes)
    }
}

/// The boot activation never points the system profile at a configuration
/// before a trial of the boot activation has succeeded, and never runs
/// the boot activation for good before the system profile has been
/// pointed at the configuration with success: whatever comes of its calls,
/// each of these calls directly follows the success of the one it depends
/// on. The first call is always the trial, and there are at most three.
pub proof fn lemma_boot_order(built: SystemConfigurationView, outcomes: Seq<CommandOutcome>)
    ensures
        1 <= built.boot_calls(outcomes).len() <= 3,
        built.boot_calls(outcomes).len() <= outcomes.len() + 1,
        built.boot_calls(outcomes)[0] == BootStage::Trial,
        forall|i: int|
            0 <= i < built.boot_calls(outcomes).len() && #[trigger] built.boot_calls(outcomes)[i]
                == BootStage::SetGeneration ==> i == 1 && outcomes[0].succeeded(),
        forall|i: int|
            0 <= i < built.boot_calls(outcomes).len() && #[trigger] built.boot_calls(outcomes)[i]
                == BootStage::Commit ==> i == 2 && built.boot_calls(outcomes)[1]
                == BootStage::SetGeneration && outcomes[0].succeeded() && outcomes[1].succeeded(),
{
    reveal_with_fuel(SystemConfigurationView::boot_calls_after, 5);
    let first = outcomes;
    if first.len() > 0 {
        let second = first.skip(1);
        assert(built.boot_step(Some((BootStage::Trial, first[0]))) is Run ==> first[0].succeeded());
        if second.len() > 0 {
            assert(second[0] == outcomes[1]);
            assert(built.boot_step(Some((BootStage::SetGeneration, second[0]))) is Run
                ==> second[0].succeeded());
            let third = second.skip(1);
            if third.len() > 0 {
                assert(built.boot_step(Some((BootStage::Commit, third[0]))) is Done);
            }
        }
    }
}

/// A stage of the boot activation that fails ends it, with the guidance
/// of that stage as the outermost context: whether nothing has to be
/// cleaned up, the system profile has to be looked at, or it has to be
/// reset.
pub proof fn lemma_boot_failure_guidance(
    built: SystemConfigurationView,
    stage: BootStage,
    outcome: CommandOutcome,
)
    requires
        !outcome.succeeded(),
    ensures
        built.boot_step(Some((stage, outcome))) matches StepView::Done(Err(error))
            && error.context.len() == 2 && error.context.last() == stage.guidance(),
{
}

impl SystemConfiguration {
    /// The configuration at `path` on the host `system`, built for the
    /// system called `system_name`.
    pub fn new(path: String, system: Arc<Nixos>, system_name: String) -> (built: SystemConfiguration)
        ensures
            built@ == (SystemConfigurationView {
                path: path@,
                host: system@,
                system_name: system_name@,
            }),
    {
        SystemConfiguration { path, system, system_name }
    }

    /// Activates the configuration on the running system, for a test.
    pub fn test_config(&self, previous: Option<CommandOutcome>) -> (step: Step<(), ()>)
        ensures
            step@ == Nixos::test_step(self@.path, previous),
    {
        self.system.test_config(self.path.as_str(), previous)
    }

    /// Makes the configuration the boot default.
    pub fn boot_config(&self, previous: Option<(BootStage, CommandOutcome)>) -> (step: Step<
        BootStage,
        (),
    >)
        ensures
            step@ == self@.boot_step(previous),
    {
        let path = self.path.as_str();
        match previous {
            None => self.system.update_boot_for_config(path, None).staged(BootStage::Trial),
            Some((BootStage::Trial, outcome)) => match self.system.update_boot_for_config(
                path,
                Some(outcome),
            ) {
                Step::Done(Ok(_)) => self.system.set_as_current_generation(path, None).staged(
                    BootStage::SetGeneration,
                ),
                failed => failed.within(Context::TrialBoot).staged(BootStage::Trial),
            },
            Some((BootStage::SetGeneration, outcome)) => match self.system.set_as_current_generation(
                path,
                Some(outcome),
            ) {
                Step::Done(Ok(_)) => self.system.update_boot_for_config(path, None).staged(
                    BootStage::Commit,
                ),
                failed => failed.within(Context::ProfileCleanup).staged(BootStage::SetGeneration),
            },
            Some((BootStage::Commit, outcome)) => self.system.update_boot_for_config(
                path,
                Some(outcome),
            ).within(Context::ProfileReset).staged(BootStage::Commit),
        }
    }

    /// Checks that the host is running well.
    pub fn preflight_check_system(&self, previous: Option<(HealthStage, CommandOutcome)>) -> (step: Step<
        HealthStage,
        (),
    >)
        ensures
            step@ == Nixos::health_step(resumed(previous)),
    {
        self.system.preflight_check_system(previous)
    }

    /// Runs the self-check that the configuration carries: the one at
    /// `script`, or else the default one. A configuration that does not
    /// have the script passes without anything being run.
    pub fn preflight_check_closure(
        &self,
        script: Option<&str>,
        previous: Option<(SelfCheckStage, CommandOutcome)>,
    ) -> (step: Step<SelfCheckStage, ()>)
        ensures
            step@ == Nixos::self_check_step(self@.path, text_view(script), previous),
    {
        self.system.preflight_check_closure(self.path.as_str(), script, previous)
    }

    /// The host that the configuration resides on.
    pub fn on(&self) -> (system: &Arc<Nixos>)
        ensures
            system@ == self@.host,
    {
        &self.system
    }

    /// The store path of the configuration.
    pub fn configuration(&self) -> (path: &str)
        ensures
            path@ == self@.path,
    {
        self.path.as_str()
    }

    /// The name of the system that the configuration is for.
    pub fn for_system(&self) -> (name: &str)
        ensures
            name@ == self@.system_name,
    {
        self.system_name.as_str()
    }
}

} // verus!
