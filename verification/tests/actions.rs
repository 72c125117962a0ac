//! The built-in custom actions, driven through real parameter objects,
//! and the launcher state machine.

use mxu_core::errors::LaunchFailure;
use mxu_core::launcher::{agent_child_args, agent_log_name, connect_timeout, AgentConfig,
    LaunchDirective, LaunchEvent, LaunchPhase, LaunchStep, LaunchTracker};
use mxu_core::mxu::{get_mxu_killproc_action, get_mxu_launch_action, get_mxu_notify_action,
    get_mxu_power_action, get_mxu_sleep_action, get_mxu_waituntil_action, get_mxu_webhook_action,
    mxu_action_names, ActionParamError, KillTarget, PowerKind, MXU_KILLPROC_ACTION,
    MXU_LAUNCH_ACTION, MXU_NOTIFY_ACTION, MXU_POWER_ACTION, MXU_SLEEP_ACTION,
    MXU_WAITUNTIL_ACTION, MXU_WEBHOOK_ACTION, WEBHOOK_TIMEOUT_SECS};

#[test]
fn sleep_reads_the_configured_seconds() {
    assert_eq!(get_mxu_sleep_action("{\"sleep_time\": 3}").seconds, 3);
}

#[test]
fn sleep_defaults_to_five_seconds() {
    assert_eq!(get_mxu_sleep_action("{}").seconds, 5);
    assert_eq!(get_mxu_sleep_action("not json").seconds, 5);
    assert_eq!(get_mxu_sleep_action("{\"sleep_time\": \"soon\"}").seconds, 5);
}

#[test]
fn waituntil_computes_the_wait_to_a_later_time() {
    // At 10:00:00 (36000 s), waiting for 12:30 is 9000 seconds away.
    let action = get_mxu_waituntil_action("{\"target_time\": \"12:30\"}", 36000).unwrap();
    assert_eq!(action.hour, 12);
    assert_eq!(action.minute, 30);
    assert_eq!(action.wait_seconds, 9000);
}

#[test]
fn waituntil_rolls_past_times_to_tomorrow() {
    // At 10:00:00, a 09:00 target has passed: wait until tomorrow.
    let action = get_mxu_waituntil_action("{\"target_time\": \"09:00\"}", 36000).unwrap();
    assert_eq!(action.wait_seconds, 82800);
    // A target equal to now means a full day.
    let action = get_mxu_waituntil_action("{\"target_time\": \"10:00\"}", 36000).unwrap();
    assert_eq!(action.wait_seconds, 86400);
}

#[test]
fn waituntil_rejects_bad_parameters() {
    assert_eq!(
        get_mxu_waituntil_action("not json", 0).unwrap_err(),
        ActionParamError::ParamUnreadable
    );
    assert_eq!(
        get_mxu_waituntil_action("{}", 0).unwrap_err(),
        ActionParamError::MissingField
    );
    assert_eq!(
        get_mxu_waituntil_action("{\"target_time\": \"  \"}", 0).unwrap_err(),
        ActionParamError::MissingField
    );
    assert_eq!(
        get_mxu_waituntil_action("{\"target_time\": \"25:00\"}", 0).unwrap_err(),
        ActionParamError::InvalidValue
    );
    assert_eq!(
        get_mxu_waituntil_action("{\"target_time\": \"12:60\"}", 0).unwrap_err(),
        ActionParamError::InvalidValue
    );
    assert_eq!(
        get_mxu_waituntil_action("{\"target_time\": \"1230\"}", 0).unwrap_err(),
        ActionParamError::InvalidValue
    );
    assert_eq!(
        get_mxu_waituntil_action("{\"target_time\": \"12:3a\"}", 0).unwrap_err(),
        ActionParamError::InvalidValue
    );
}

#[test]
fn waituntil_ignores_seconds_after_a_second_colon() {
    let action = get_mxu_waituntil_action("{\"target_time\": \"7:05:59\"}", 0).unwrap();
    assert_eq!(action.hour, 7);
    assert_eq!(action.minute, 5);
}

#[test]
fn launch_splits_arguments_shell_style() {
    let action = get_mxu_launch_action(
        "{\"program\": \"tool.exe\", \"args\": \"a \\\"b c\\\"\", \"wait_for_exit\": true}",
    )
    .unwrap();
    assert_eq!(action.program, "tool.exe");
    assert_eq!(action.args, vec!["a".to_string(), "b c".to_string()]);
    assert!(action.wait_for_exit);
}

#[test]
fn launch_falls_back_to_whitespace_split_on_unbalanced_quotes() {
    let action =
        get_mxu_launch_action("{\"program\": \"tool\", \"args\": \"a \\\"b c\"}").unwrap();
    assert_eq!(
        action.args,
        vec!["a".to_string(), "\"b".to_string(), "c".to_string()]
    );
}

#[test]
fn launch_defaults_and_rejections() {
    let action = get_mxu_launch_action("{\"program\": \"tool\"}").unwrap();
    assert!(action.args.is_empty());
    assert!(!action.wait_for_exit);
    assert_eq!(
        get_mxu_launch_action("nope").unwrap_err(),
        ActionParamError::ParamUnreadable
    );
    assert_eq!(
        get_mxu_launch_action("{}").unwrap_err(),
        ActionParamError::MissingField
    );
    assert_eq!(
        get_mxu_launch_action("{\"program\": \" \"}").unwrap_err(),
        ActionParamError::MissingField
    );
}

#[test]
fn webhook_needs_a_url() {
    let action = get_mxu_webhook_action("{\"url\": \"http://localhost/ping\"}").unwrap();
    assert_eq!(action.url, "http://localhost/ping");
    assert_eq!(
        get_mxu_webhook_action("nope").unwrap_err(),
        ActionParamError::ParamUnreadable
    );
    assert_eq!(
        get_mxu_webhook_action("{}").unwrap_err(),
        ActionParamError::MissingField
    );
    assert_eq!(
        get_mxu_webhook_action("{\"url\": \"\"}").unwrap_err(),
        ActionParamError::MissingField
    );
    assert_eq!(WEBHOOK_TIMEOUT_SECS, 10);
}

#[test]
fn notify_applies_defaults() {
    let action = get_mxu_notify_action("{}").unwrap();
    assert_eq!(action.title, "MXU");
    assert_eq!(action.body, "");
    let action =
        get_mxu_notify_action("{\"title\": \"Done\", \"body\": \"All tasks finished\"}").unwrap();
    assert_eq!(action.title, "Done");
    assert_eq!(action.body, "All tasks finished");
    assert_eq!(
        get_mxu_notify_action("nope").unwrap_err(),
        ActionParamError::ParamUnreadable
    );
}

#[test]
fn killproc_targets_self_by_default() {
    assert!(matches!(
        get_mxu_killproc_action("{}").unwrap(),
        KillTarget::CurrentProcess
    ));
    match get_mxu_killproc_action("{\"kill_self\": false, \"process_name\": \"game.exe\"}")
        .unwrap()
    {
        KillTarget::Named(name) => assert_eq!(name, "game.exe"),
        other => panic!("expected a named target, got {:?}", other),
    }
    assert_eq!(
        get_mxu_killproc_action("{\"kill_self\": false}").unwrap_err(),
        ActionParamError::MissingField
    );
    assert_eq!(
        get_mxu_killproc_action("{\"kill_self\": false, \"process_name\": \" \"}").unwrap_err(),
        ActionParamError::MissingField
    );
    assert_eq!(
        get_mxu_killproc_action("nope").unwrap_err(),
        ActionParamError::ParamUnreadable
    );
}

#[test]
fn power_maps_each_operation() {
    assert_eq!(
        get_mxu_power_action("{\"power_action\": \"shutdown\"}").unwrap(),
        PowerKind::Shutdown
    );
    assert_eq!(
        get_mxu_power_action("{\"power_action\": \"restart\"}").unwrap(),
        PowerKind::Restart
    );
    assert_eq!(
        get_mxu_power_action("{\"power_action\": \"screenoff\"}").unwrap(),
        PowerKind::ScreenOff
    );
    assert_eq!(
        get_mxu_power_action("{\"power_action\": \"sleep\"}").unwrap(),
        PowerKind::Sleep
    );
    // The operation defaults to a shutdown.
    assert_eq!(get_mxu_power_action("{}").unwrap(), PowerKind::Shutdown);
    assert_eq!(
        get_mxu_power_action("{\"power_action\": \"hibernate\"}").unwrap_err(),
        ActionParamError::InvalidValue
    );
    assert_eq!(
        get_mxu_power_action("nope").unwrap_err(),
        ActionParamError::ParamUnreadable
    );
}

#[test]
fn action_names_cover_all_seven() {
    let names = mxu_action_names();
    assert_eq!(
        names,
        vec![
            MXU_SLEEP_ACTION,
            MXU_WAITUNTIL_ACTION,
            MXU_LAUNCH_ACTION,
            MXU_WEBHOOK_ACTION,
            MXU_NOTIFY_ACTION,
            MXU_KILLPROC_ACTION,
            MXU_POWER_ACTION,
        ]
    );
    assert_eq!(names[0], "MXU_SLEEP_ACTION");
}

fn config(timeout: Option<i64>) -> AgentConfig {
    AgentConfig {
        child_exec: "agent/main.py".to_string(),
        child_args: Some(vec!["-u".to_string()]),
        identifier: None,
        timeout,
    }
}

#[test]
fn launcher_happy_path_runs_the_steps_in_order() {
    let (mut tracker, directive) = LaunchTracker::start(false);
    assert_eq!(directive, LaunchDirective::CreateClient { tcp: false });
    assert_eq!(
        tracker.step(LaunchEvent::ClientCreated),
        LaunchStep::Next(LaunchDirective::BindResource)
    );
    assert_eq!(
        tracker.step(LaunchEvent::ResourceBound),
        LaunchStep::Next(LaunchDirective::FetchIdentifier)
    );
    assert_eq!(
        tracker.step(LaunchEvent::IdentifierFetched),
        LaunchStep::Next(LaunchDirective::SpawnChild)
    );
    assert_eq!(
        tracker.step(LaunchEvent::ChildSpawned(4242)),
        LaunchStep::Next(LaunchDirective::Connect)
    );
    assert_eq!(
        tracker.step(LaunchEvent::Connected),
        LaunchStep::Next(LaunchDirective::RegisterSinks)
    );
    assert_eq!(tracker.step(LaunchEvent::SinksRegistered), LaunchStep::Complete);
    assert_eq!(tracker.phase, LaunchPhase::Done);
    assert_eq!(tracker.child, Some(4242));
}

#[test]
fn launcher_falls_back_when_the_alternate_transport_fails() {
    let (mut tracker, directive) = LaunchTracker::start(true);
    assert_eq!(directive, LaunchDirective::CreateClient { tcp: true });
    // The alternate transport fails: fall back to the default transport
    // rather than failing outright.
    assert_eq!(
        tracker.step(LaunchEvent::ClientCreateFailed),
        LaunchStep::Next(LaunchDirective::CreateClient { tcp: false })
    );
    assert_eq!(
        tracker.step(LaunchEvent::ClientCreated),
        LaunchStep::Next(LaunchDirective::BindResource)
    );
    // Without the compatibility flag the same failure aborts at once.
    let (mut direct, _) = LaunchTracker::start(false);
    assert_eq!(
        direct.step(LaunchEvent::ClientCreateFailed),
        LaunchStep::Abort { failure: LaunchFailure::ClientCreateFailed, kill_child: None }
    );
}

#[test]
fn launcher_aborts_before_spawn_kill_nothing() {
    let (mut tracker, _) = LaunchTracker::start(false);
    tracker.step(LaunchEvent::ClientCreated);
    assert_eq!(
        tracker.step(LaunchEvent::BindFailed),
        LaunchStep::Abort { failure: LaunchFailure::BindFailed, kill_child: None }
    );
    assert_eq!(tracker.phase, LaunchPhase::Failed);
}

#[test]
fn launcher_kills_the_spawned_child_on_handshake_failure() {
    let (mut tracker, _) = LaunchTracker::start(false);
    tracker.step(LaunchEvent::ClientCreated);
    tracker.step(LaunchEvent::ResourceBound);
    tracker.step(LaunchEvent::IdentifierFetched);
    tracker.step(LaunchEvent::ChildSpawned(77));
    assert_eq!(
        tracker.step(LaunchEvent::ConnectFailed),
        LaunchStep::Abort { failure: LaunchFailure::ConnectFailed, kill_child: Some(77) }
    );
}

#[test]
fn launcher_kills_the_spawned_child_on_sink_failure() {
    let (mut tracker, _) = LaunchTracker::start(false);
    tracker.step(LaunchEvent::ClientCreated);
    tracker.step(LaunchEvent::ResourceBound);
    tracker.step(LaunchEvent::IdentifierFetched);
    tracker.step(LaunchEvent::ChildSpawned(78));
    tracker.step(LaunchEvent::Connected);
    assert_eq!(
        tracker.step(LaunchEvent::SinkRegisterFailed),
        LaunchStep::Abort { failure: LaunchFailure::SinkRegisterFailed, kill_child: Some(78) }
    );
}

#[test]
fn agent_arguments_end_with_the_identifier() {
    let args = agent_child_args(&config(None), "ipc-socket-17");
    assert_eq!(args, vec!["-u".to_string(), "ipc-socket-17".to_string()]);
    let bare = AgentConfig {
        child_exec: "agent".to_string(),
        child_args: None,
        identifier: None,
        timeout: None,
    };
    assert_eq!(agent_child_args(&bare, "id"), vec!["id".to_string()]);
}

#[test]
fn connect_timeout_defaults_to_the_wait_forever_sentinel() {
    assert_eq!(connect_timeout(&config(None)), -1);
    assert_eq!(connect_timeout(&config(Some(30000))), 30000);
}

#[test]
fn log_names_encode_index_and_process_id() {
    assert_eq!(agent_log_name(0, 4321), "mxu-agent-0-4321.log");
    assert_eq!(agent_log_name(2, 900), "mxu-agent-2-900.log");
    assert_ne!(agent_log_name(1, 5), agent_log_name(1, 6));
    assert_ne!(agent_log_name(1, 5), agent_log_name(2, 5));
}
