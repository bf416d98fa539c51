use deploy_flake::command::{Arg, CommandOutcome, LocalOutcome, RemoteCommand};
use deploy_flake::deploy::{Action, Behavior, Delay, Deployment, Event, Phase, Stage};
use deploy_flake::error::{Context, DeployError, Failure};
use deploy_flake::fanout::FanOut;
use deploy_flake::flake::{Flake, FlakeInfo, Resolution};
use deploy_flake::os::nixos::{BuildOutputs, BuildRecord};
use deploy_flake::system::BootStage;
use deploy_flake::Destination;

const STORE: &str = "/nix/store/abc-nixos-system-web-24.05";

fn plan(destination: &str, preflight: Behavior, test: Behavior) -> Deployment {
    let info = FlakeInfo { path: "/nix/store/src-source".to_string() };
    Deployment {
        flake: Flake::from_path(".", Resolution::Answered(info)).unwrap(),
        destination: Destination::from_str(destination).unwrap(),
        copy_timeout: Delay { secs: 5, nanos: 0 },
        do_preflight: preflight,
        pre_activate_script: None,
        do_test: test,
        build_cmdline: vec![],
        backoff: Deployment::default_backoff(),
    }
}

fn ok() -> Event {
    Event::Completed(exited(true, b""))
}

fn failed() -> Event {
    Event::Completed(exited(false, b""))
}

fn exited(success: bool, stdout: &[u8]) -> CommandOutcome {
    CommandOutcome::Exited {
        success,
        status: if success { "exit status: 0" } else { "exit status: 1" }.to_string(),
        stdout: stdout.to_vec(),
    }
}

fn copied() -> Event {
    Event::Copied(LocalOutcome::Exited { success: true })
}

fn decoded(outs: &[&str]) -> Event {
    Event::Decoded(Ok(outs
        .iter()
        .map(|out| BuildRecord {
            drv_path: "/nix/store/abc.drv".to_string(),
            outputs: BuildOutputs { out: out.to_string() },
        })
        .collect()))
}

/// Tells the deployment the events in order, and returns the stage it ends
/// in with every action it asked for.
fn run(plan: &Deployment, events: Vec<Event>) -> (Stage, Vec<Action>) {
    let (mut stage, first) = plan.start();
    let mut actions = vec![first];
    for event in events {
        let (next, action) = plan.step(stage, event);
        stage = next;
        actions.push(action);
    }
    (stage, actions)
}

fn words(command: &RemoteCommand) -> Vec<&str> {
    command.args.iter().map(Arg::text).collect()
}

fn program_and_word(action: &Action, index: usize) -> (String, String) {
    match action {
        Action::Run(command) => (command.program.clone(), words(command)[index].to_string()),
        other => panic!("unexpected action {other:?}"),
    }
}

fn in_destination(host: &str, failure: Failure, mut context: Vec<Context>) -> Action {
    context.push(Context::Destination { host: host.to_string() });
    Action::Finish(Err(DeployError { failure, context }))
}

#[test]
fn default_backoff_is_one_two_four_seconds() {
    assert_eq!(
        Deployment::default_backoff(),
        vec![
            Delay { secs: 1, nanos: 0 },
            Delay { secs: 2, nanos: 0 },
            Delay { secs: 4, nanos: 0 },
        ]
    );
}

#[test]
fn deployment_starts_with_the_copy() {
    let plan = plan("nixos://root@web/cfg", Behavior::Run, Behavior::Run);
    let (stage, action) = plan.start();
    assert_eq!(stage, Stage::Copying { retries: 0 });
    match action {
        Action::Copy { command, timeout, after } => {
            assert_eq!(command.program, "nix-copy-closure");
            assert_eq!(command.args, vec!["root@web", "/nix/store/src-source"]);
            assert_eq!(timeout, Delay { secs: 5, nanos: 0 });
            assert_eq!(after, None);
        }
        other => panic!("unexpected action {other:?}"),
    }
}

#[test]
fn full_deployment_runs_every_stage_in_order() {
    let plan = plan("nixos://root@web/cfg", Behavior::Run, Behavior::Run);
    let events = vec![
        copied(),
        Event::Connected,
        ok(),
        Event::Completed(exited(true, b"[..]")),
        decoded(&[STORE]),
        ok(),
        failed(),
        ok(),
        ok(),
        ok(),
        ok(),
    ];
    let (stage, actions) = run(&plan, events);
    assert_eq!(stage, Stage::BootCommitted);
    assert_eq!(stage.phase(), Some(Phase::BootCommitted));
    assert_eq!(actions.len(), 12);
    assert!(matches!(actions[0], Action::Copy { .. }));
    assert_eq!(actions[1], Action::Connect { host: "root@web".to_string() });
    assert_eq!(program_and_word(&actions[2], 3), ("env".to_string(), "build".to_string()));
    assert_eq!(program_and_word(&actions[3], 6), ("env".to_string(), "--json".to_string()));
    assert_eq!(actions[4], Action::Decode(b"[..]".to_vec()));
    assert_eq!(
        program_and_word(&actions[5], 1),
        ("sudo".to_string(), "is-system-running".to_string())
    );
    assert_eq!(
        program_and_word(&actions[6], 1),
        ("test".to_string(), format!("{STORE}/pre-activate-safety-checks"))
    );
    assert_eq!(program_and_word(&actions[7], 0), ("sudo".to_string(), "systemd-run".to_string()));
    assert_eq!(program_and_word(&actions[8], 1), ("sudo".to_string(), "boot".to_string()));
    assert_eq!(program_and_word(&actions[9], 0), ("sudo".to_string(), "nix-env".to_string()));
    assert_eq!(program_and_word(&actions[10], 1), ("sudo".to_string(), "boot".to_string()));
    assert_eq!(actions[11], Action::Finish(Ok(())));
}

#[test]
fn phases_are_reached_in_order() {
    let plan = plan("nixos://web/cfg", Behavior::Run, Behavior::Run);
    let events = vec![
        copied(),
        Event::Connected,
        ok(),
        ok(),
        decoded(&[STORE]),
        ok(),
        failed(),
        ok(),
        ok(),
        ok(),
        ok(),
    ];
    let (mut stage, _) = plan.start();
    let mut phases = vec![stage.phase()];
    for event in events {
        stage = plan.step(stage, event).0;
        phases.push(stage.phase());
    }
    let expected = [
        Phase::Disconnected,
        Phase::Disconnected,
        Phase::Connected,
        Phase::Connected,
        Phase::Connected,
        Phase::Built,
        Phase::Built,
        Phase::HealthChecked,
        Phase::Tested,
        Phase::Tested,
        Phase::Tested,
        Phase::BootCommitted,
    ];
    assert_eq!(phases, expected.map(Some).to_vec());
    assert_eq!(Stage::Failed.phase(), None);
}

#[test]
fn skipped_stages_are_left_out() {
    let plan = plan("nixos://web/cfg", Behavior::Skip, Behavior::Skip);
    let events = vec![copied(), Event::Connected, ok(), ok(), decoded(&[STORE])];
    let (stage, actions) = run(&plan, events);
    assert!(matches!(stage, Stage::Booting(_, BootStage::Trial)));
    assert_eq!(program_and_word(&actions[5], 1), ("sudo".to_string(), "boot".to_string()));
}

#[test]
fn skipped_test_goes_from_the_checks_to_the_boot_activation() {
    let plan = plan("nixos://web/cfg", Behavior::Run, Behavior::Skip);
    let events = vec![copied(), Event::Connected, ok(), ok(), decoded(&[STORE]), ok(), failed()];
    let (stage, _) = run(&plan, events);
    assert!(matches!(stage, Stage::Booting(_, BootStage::Trial)));
}

#[test]
fn bare_host_is_asked_for_its_name_before_the_build() {
    let plan = plan("web", Behavior::Skip, Behavior::Skip);
    let named = Event::Completed(exited(true, b"web-hostname\n"));
    let (_, actions) = run(&plan, vec![copied(), Event::Connected, named]);
    match &actions[2] {
        Action::Run(command) => assert_eq!(command.program, "hostname"),
        other => panic!("unexpected action {other:?}"),
    }
    match &actions[3] {
        Action::Run(command) => assert_eq!(
            words(command).last().copied(),
            Some("/nix/store/src-source#nixosConfigurations.web-hostname.config.system.build.toplevel")
        ),
        other => panic!("unexpected action {other:?}"),
    }
}

#[test]
fn copy_that_times_out_is_retried_with_backoff_and_then_given_up() {
    let plan = plan("web", Behavior::Run, Behavior::Run);
    let events = vec![
        Event::CopyTimedOut,
        Event::CopyTimedOut,
        Event::CopyTimedOut,
        Event::CopyTimedOut,
    ];
    let (stage, actions) = run(&plan, events);
    assert_eq!(stage, Stage::Failed);
    let waits: Vec<Option<Delay>> = actions[..4]
        .iter()
        .map(|action| match action {
            Action::Copy { after, .. } => *after,
            other => panic!("unexpected action {other:?}"),
        })
        .collect();
    assert_eq!(
        waits,
        vec![
            None,
            Some(Delay { secs: 1, nanos: 0 }),
            Some(Delay { secs: 2, nanos: 0 }),
            Some(Delay { secs: 4, nanos: 0 }),
        ]
    );
    assert_eq!(actions[4], in_destination("web", Failure::CopyTimedOut, vec![]));
}

#[test]
fn copy_without_backoff_is_given_up_at_the_first_timeout() {
    let mut plan = plan("web", Behavior::Run, Behavior::Run);
    plan.backoff = vec![];
    let (stage, actions) = run(&plan, vec![Event::CopyTimedOut]);
    assert_eq!(stage, Stage::Failed);
    assert_eq!(actions[1], in_destination("web", Failure::CopyTimedOut, vec![]));
}

#[test]
fn copy_that_succeeds_is_not_tried_again() {
    let plan = plan("web", Behavior::Run, Behavior::Run);
    let (stage, actions) = run(&plan, vec![copied()]);
    assert_eq!(stage, Stage::Connecting);
    assert_eq!(actions.len(), 2);
    assert_eq!(actions[1], Action::Connect { host: "web".to_string() });
}

#[test]
fn copy_that_succeeds_after_a_timeout_goes_on() {
    let plan = plan("web", Behavior::Run, Behavior::Run);
    let (stage, actions) = run(&plan, vec![Event::CopyTimedOut, copied()]);
    assert_eq!(stage, Stage::Connecting);
    assert_eq!(actions.len(), 3);
}

#[test]
fn copy_that_fails_is_not_retried() {
    let plan = plan("web", Behavior::Run, Behavior::Run);
    let refused = Event::Copied(LocalOutcome::Exited { success: false });
    let (stage, actions) = run(&plan, vec![refused]);
    assert_eq!(stage, Stage::Failed);
    assert_eq!(actions[1], in_destination("web", Failure::CopyFailed, vec![]));
    let unstarted = Event::Copied(LocalOutcome::NotStarted("no such file".to_string()));
    let (_, actions) = run(&plan, vec![unstarted]);
    assert_eq!(
        actions[1],
        in_destination("web", Failure::CopyNotStarted("no such file".to_string()), vec![])
    );
}

#[test]
fn failed_connection_ends_the_deployment() {
    let plan = plan("web", Behavior::Run, Behavior::Run);
    let refused = Event::ConnectFailed("connection refused".to_string());
    let (stage, actions) = run(&plan, vec![copied(), refused]);
    assert_eq!(stage, Stage::Failed);
    assert_eq!(
        actions[2],
        in_destination(
            "web",
            Failure::Transport("connection refused".to_string()),
            vec![Context::Connecting { host: "web".to_string() }],
        )
    );
}

#[test]
fn build_with_no_or_many_results_ends_the_deployment() {
    let plan = plan("nixos://web/cfg", Behavior::Run, Behavior::Run);
    let until_decode = || vec![copied(), Event::Connected, ok(), ok()];
    let mut none = until_decode();
    none.push(decoded(&[]));
    let (stage, actions) = run(&plan, none);
    assert_eq!(stage, Stage::Failed);
    assert_eq!(actions[5], in_destination("web", Failure::BuildResults { count: 0 }, vec![]));
    let mut two = until_decode();
    two.push(decoded(&[STORE, STORE]));
    let (_, actions) = run(&plan, two);
    assert_eq!(actions[5], in_destination("web", Failure::BuildResults { count: 2 }, vec![]));
    let mut garbled = until_decode();
    garbled.push(Event::Decoded(Err("expected value".to_string())));
    let (_, actions) = run(&plan, garbled);
    assert_eq!(
        actions[5],
        in_destination("web", Failure::BuildOutput("expected value".to_string()), vec![])
    );
}

#[test]
fn unhealthy_host_ends_the_deployment_before_any_activation() {
    let plan = plan("nixos://web/cfg", Behavior::Run, Behavior::Run);
    let events = vec![
        copied(),
        Event::Connected,
        ok(),
        ok(),
        decoded(&[STORE]),
        Event::Completed(exited(false, b"degraded\n")),
        Event::Completed(exited(true, b"foo.service\n")),
    ];
    let (stage, actions) = run(&plan, events);
    assert_eq!(stage, Stage::Failed);
    let failure = Failure::Unhealthy {
        status: "degraded".to_string(),
        failed_units: "foo.service\n".to_string(),
    };
    assert_eq!(actions[7], in_destination("web", failure, vec![]));
    for action in &actions {
        if let Action::Run(command) = action {
            assert!(!words(command).contains(&"systemd-run"));
            assert!(!words(command).contains(&"nix-env"));
        }
    }
}

#[test]
fn failed_test_ends_the_deployment_before_the_boot_activation() {
    let plan = plan("nixos://web/cfg", Behavior::Skip, Behavior::Run);
    let events = vec![copied(), Event::Connected, ok(), ok(), decoded(&[STORE]), failed()];
    let (stage, actions) = run(&plan, events);
    assert_eq!(stage, Stage::Failed);
    match &actions[6] {
        Action::Finish(Err(error)) => assert_eq!(
            error.context,
            vec![
                Context::Test { path: STORE.to_string() },
                Context::Destination { host: "web".to_string() },
            ]
        ),
        other => panic!("unexpected action {other:?}"),
    }
}

#[test]
fn event_that_answers_nothing_ends_the_deployment() {
    let plan = plan("web", Behavior::Run, Behavior::Run);
    let (stage, actions) = run(&plan, vec![Event::Connected]);
    assert_eq!(stage, Stage::Failed);
    assert_eq!(actions[1], in_destination("web", Failure::Protocol, vec![]));
    let (stage, action) = plan.step(Stage::Failed, ok());
    assert_eq!(stage, Stage::Failed);
    assert_eq!(action, in_destination("web", Failure::Protocol, vec![]));
    let (stage, action) = plan.step(Stage::BootCommitted, ok());
    assert_eq!(stage, Stage::BootCommitted);
    assert_eq!(action, in_destination("web", Failure::Protocol, vec![]));
    assert_eq!(
        Failure::Protocol.message(),
        "Received an event that answers no pending action"
    );
}

#[test]
fn named_self_check_of_the_plan_is_looked_for_and_run() {
    let mut plan = plan("nixos://web/cfg", Behavior::Run, Behavior::Run);
    plan.pre_activate_script = Some("bin/check".to_string());
    let events = vec![copied(), Event::Connected, ok(), ok(), decoded(&[STORE]), ok(), ok()];
    let (_, actions) = run(&plan, events);
    match &actions[6] {
        Action::Run(command) => {
            assert_eq!(command.program, "test");
            assert_eq!(
                command.args,
                vec![Arg::Escaped("-f".to_string()), Arg::Raw(format!("{STORE}/bin/check"))]
            );
        }
        other => panic!("unexpected action {other:?}"),
    }
    match &actions[7] {
        Action::Run(command) => {
            assert_eq!(command.program, "sudo");
            assert_eq!(command.args, vec![Arg::Raw(format!("{STORE}/bin/check"))]);
        }
        other => panic!("unexpected action {other:?}"),
    }
}

#[test]
fn missing_named_self_check_of_the_plan_is_passed_over() {
    let mut plan = plan("nixos://web/cfg", Behavior::Run, Behavior::Run);
    plan.pre_activate_script = Some("bin/check".to_string());
    let events = vec![copied(), Event::Connected, ok(), ok(), decoded(&[STORE]), ok(), failed()];
    let (stage, actions) = run(&plan, events);
    assert!(matches!(stage, Stage::Testing(_)));
    assert_eq!(program_and_word(&actions[7], 0), ("sudo".to_string(), "systemd-run".to_string()));
    for action in &actions {
        if let Action::Run(command) = action {
            assert_ne!(command.args, vec![Arg::Raw(format!("{STORE}/bin/check"))]);
        }
    }
}

#[test]
fn one_failing_destination_leaves_the_other_alone() {
    let first = plan("nixos://alpha/cfg", Behavior::Skip, Behavior::Skip);
    let second = plan("nixos://beta/cfg", Behavior::Skip, Behavior::Skip);
    let (alone_stage, alone_actions) = run(
        &second,
        vec![copied(), Event::Connected, ok(), ok(), decoded(&[STORE]), ok(), ok(), ok()],
    );
    let (fan, starts) = FanOut::new(vec![first, second]);
    assert_eq!(fan.len(), 2);
    assert_eq!(starts.len(), 2);
    let schedule = vec![
        (0, copied()),
        (1, copied()),
        (1, Event::Connected),
        (0, Event::Connected),
        (0, failed()),
        (1, ok()),
        (1, ok()),
        (1, decoded(&[STORE])),
        (1, ok()),
        (1, ok()),
        (1, ok()),
    ];
    let mut fan = fan;
    let mut actions = vec![vec![], vec![]];
    for (index, action) in starts.into_iter().enumerate() {
        actions[index].push(action);
    }
    for (index, event) in schedule {
        let (next, action) = fan.step(index, event);
        fan = next;
        actions[index].push(action);
    }
    assert_eq!(alone_stage, Stage::BootCommitted);
    assert_eq!(actions[1], alone_actions);
    assert_eq!(actions[1].last(), Some(&Action::Finish(Ok(()))));
    match actions[0].last() {
        Some(Action::Finish(Err(error))) => {
            assert_eq!(error.context.last(), Some(&Context::Destination { host: "alpha".to_string() }));
            assert!(error.chain().iter().all(|line| !line.contains("beta")));
        }
        other => panic!("unexpected action {other:?}"),
    }
}

#[test]
fn fan_out_refuses_an_unknown_index() {
    let (fan, _) = FanOut::new(vec![plan("web", Behavior::Run, Behavior::Run)]);
    let (fan, action) = fan.step(3, copied());
    assert_eq!(action, Action::Finish(Err(DeployError::new(Failure::Protocol))));
    let (_, action) = fan.step(0, copied());
    assert_eq!(action, Action::Connect { host: "web".to_string() });
}

#[test]
fn overall_result_is_the_first_failure() {
    let timed_out = DeployError::new(Failure::CopyTimedOut);
    let copy_failed = DeployError::new(Failure::CopyFailed);
    assert_eq!(FanOut::overall(vec![]), Ok(()));
    assert_eq!(FanOut::overall(vec![Ok(()), Ok(())]), Ok(()));
    assert_eq!(
        FanOut::overall(vec![Ok(()), Err(timed_out.clone()), Err(copy_failed.clone())]),
        Err(timed_out)
    );
    assert_eq!(FanOut::overall(vec![Err(copy_failed.clone()), Ok(())]), Err(copy_failed));
}
