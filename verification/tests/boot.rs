use deploy_flake::command::{Arg, CommandOutcome, RemoteCommand};
use deploy_flake::error::{Context, Failure};
use deploy_flake::os::nixos::{HealthStage, SelfCheckStage};
use deploy_flake::step::Step;
use deploy_flake::system::{BootStage, SystemConfiguration};
use deploy_flake::Flavor;

const STORE: &str = "/nix/store/abc-nixos-system-web-24.05";

fn built() -> SystemConfiguration {
    SystemConfiguration::new(STORE.to_string(), Flavor::Nixos.on_connection("web"), "web".to_string())
}

fn exited(success: bool) -> CommandOutcome {
    CommandOutcome::Exited {
        success,
        status: if success { "exit status: 0" } else { "exit status: 1" }.to_string(),
        stdout: vec![],
    }
}

fn words(command: &RemoteCommand) -> Vec<&str> {
    command.args.iter().map(Arg::text).collect()
}

/// Runs the boot activation against the outcomes given, and returns the
/// stages it called and how it ended, if it did.
fn boot(outcomes: &[bool]) -> (Vec<BootStage>, Option<Result<(), deploy_flake::DeployError>>) {
    let built = built();
    let mut calls = Vec::new();
    let mut outcomes = outcomes.iter();
    let mut step = built.boot_config(None);
    loop {
        match step {
            Step::Done(result) => return (calls, Some(result)),
            Step::Run(stage, _) => {
                calls.push(stage);
                match outcomes.next() {
                    Some(success) => step = built.boot_config(Some((stage, exited(*success)))),
                    None => return (calls, None),
                }
            }
        }
    }
}

#[test]
fn built_configuration_reports_what_it_is() {
    let built = built();
    assert_eq!(built.configuration(), STORE);
    assert_eq!(built.for_system(), "web");
    assert_eq!(built.on().host(), "web");
}

#[test]
fn boot_starts_with_a_trial() {
    match built().boot_config(None) {
        Step::Run(BootStage::Trial, command) => {
            let script = format!("{STORE}/bin/switch-to-configuration");
            assert_eq!(words(&command), vec![script.as_str(), "boot", STORE]);
        }
        other => panic!("unexpected step {other:?}"),
    }
}

#[test]
fn boot_makes_three_calls_in_order() {
    let (calls, end) = boot(&[true, true, true]);
    assert_eq!(calls, vec![BootStage::Trial, BootStage::SetGeneration, BootStage::Commit]);
    assert_eq!(end, Some(Ok(())));
}

#[test]
fn boot_sets_the_generation_between_trial_and_commit() {
    match built().boot_config(Some((BootStage::Trial, exited(true)))) {
        Step::Run(BootStage::SetGeneration, command) => {
            assert_eq!(
                words(&command),
                vec!["nix-env", "-p", "/nix/var/nix/profiles/system", "--set", STORE]
            );
        }
        other => panic!("unexpected step {other:?}"),
    }
    match built().boot_config(Some((BootStage::SetGeneration, exited(true)))) {
        Step::Run(BootStage::Commit, command) => assert_eq!(words(&command)[1], "boot"),
        other => panic!("unexpected step {other:?}"),
    }
}

#[test]
fn failed_trial_changes_nothing_and_says_so() {
    let (calls, end) = boot(&[false, true, true]);
    assert_eq!(calls, vec![BootStage::Trial]);
    let error = end.unwrap().unwrap_err();
    assert!(matches!(error.failure, Failure::CommandFailed { .. }));
    assert_eq!(
        error.context,
        vec![Context::BootUpdate { path: STORE.to_string() }, Context::TrialBoot]
    );
    assert_eq!(
        error.chain()[0],
        "Trial run of boot activation failed. No cleanup necessary."
    );
}

#[test]
fn failed_generation_switch_stops_before_the_commit() {
    let (calls, end) = boot(&[true, false, true]);
    assert_eq!(calls, vec![BootStage::Trial, BootStage::SetGeneration]);
    let error = end.unwrap().unwrap_err();
    assert_eq!(
        error.context,
        vec![Context::SetGeneration { path: STORE.to_string() }, Context::ProfileCleanup]
    );
    assert_eq!(
        error.chain()[0],
        "You may have to check the system profile generation to clean up."
    );
}

#[test]
fn failed_commit_asks_for_a_profile_reset() {
    let (calls, end) = boot(&[true, true, false]);
    assert_eq!(calls.len(), 3);
    let error = end.unwrap().unwrap_err();
    assert_eq!(
        error.context,
        vec![Context::BootUpdate { path: STORE.to_string() }, Context::ProfileReset]
    );
    assert_eq!(
        error.chain()[0],
        "Actually setting the boot configuration failed. To clean up, you'll have to reset the system profile."
    );
}

#[test]
fn lost_session_during_boot_is_a_transport_failure_with_guidance() {
    let lost = CommandOutcome::Lost("broken pipe".to_string());
    match built().boot_config(Some((BootStage::SetGeneration, lost))) {
        Step::Done(Err(error)) => {
            assert_eq!(error.failure, Failure::Transport("broken pipe".to_string()));
            assert_eq!(error.context.last(), Some(&Context::ProfileCleanup));
        }
        other => panic!("unexpected step {other:?}"),
    }
}

#[test]
fn boot_never_calls_a_stage_before_the_one_it_depends_on_succeeded() {
    for first in [true, false] {
        for second in [true, false] {
            for third in [true, false] {
                let outcomes = [first, second, third];
                let (calls, _) = boot(&outcomes);
                for (at, call) in calls.iter().enumerate() {
                    match call {
                        BootStage::Trial => assert_eq!(at, 0),
                        BootStage::SetGeneration => {
                            assert_eq!(calls[at - 1], BootStage::Trial);
                            assert!(outcomes[at - 1]);
                        }
                        BootStage::Commit => {
                            assert_eq!(calls[at - 1], BootStage::SetGeneration);
                            assert!(outcomes[at - 1]);
                        }
                    }
                }
            }
        }
    }
}

#[test]
fn configuration_checks_and_tests_its_own_path() {
    let built = built();
    match built.test_config(None) {
        Step::Run((), command) => {
            assert!(words(&command).contains(&"test--abc-nixos-system-web-24.05"));
        }
        other => panic!("unexpected step {other:?}"),
    }
    match built.preflight_check_closure(Some("check"), None) {
        Step::Run(SelfCheckStage::Locating, command) => {
            assert_eq!(
                command.args,
                vec![Arg::Escaped("-f".to_string()), Arg::Raw(format!("{STORE}/check"))]
            );
        }
        other => panic!("unexpected step {other:?}"),
    }
    let found = (SelfCheckStage::Locating, exited(true));
    match built.preflight_check_closure(Some("check"), Some(found)) {
        Step::Run(SelfCheckStage::Running, command) => {
            assert_eq!(command.args, vec![Arg::Raw(format!("{STORE}/check"))]);
        }
        other => panic!("unexpected step {other:?}"),
    }
    let missing = (SelfCheckStage::Locating, exited(false));
    assert_eq!(built.preflight_check_closure(Some("check"), Some(missing)), Step::Done(Ok(())));
    assert!(matches!(built.preflight_check_system(None), Step::Run(HealthStage::Probing, _)));
    let absent = built.preflight_check_closure(None, Some((SelfCheckStage::Locating, exited(false))));
    assert_eq!(absent, Step::Done(Ok(())));
}
