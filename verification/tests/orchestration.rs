//! The orchestration flows end to end: batches, shutdown, submission,
//! and the registry that ties them together.

use mxu_core::batch::{apply_batch_outcomes, rollback_plan, BatchAccumulator, LaunchOutcome,
    RollbackAction};
use mxu_core::errors::{LaunchFailure, OrchestratorError};
use mxu_core::instance::{InstanceRuntime, ReleaseAction};
use mxu_core::registry::InstanceRegistry;
use mxu_core::shutdown::{shutdown_plan, shutdown_poll_decision, wind_down_all, wind_down_child,
    ShutdownAction, ShutdownOutcome, ShutdownStep, SHUTDOWN_MAX_POLLS, SHUTDOWN_POLL_INTERVAL_MS,
    SHUTDOWN_TOTAL_WAIT_MS};
use mxu_core::tasks::{begin_submission, collect_post_results, record_submission};

fn ready_registry(id: &str) -> InstanceRegistry {
    let mut reg = InstanceRegistry::new();
    assert!(reg.create(id.to_string()));
    reg.attach_resource(&id.to_string(), 10).unwrap();
    reg.replace_controller(&id.to_string(), 20).unwrap();
    reg
}

#[test]
fn batch_failure_rolls_back_started_prefix() {
    // Two agents start, the third fails its handshake: both started agents
    // are disconnected and both children killed and reaped, in order, and
    // the instance's collections stay empty.
    let mut reg = ready_registry("a");
    let id = "a".to_string();
    let outcomes = vec![
        LaunchOutcome::Launched(1, 11),
        LaunchOutcome::Launched(2, 22),
        LaunchOutcome::Failed(LaunchFailure::ConnectFailed),
    ];
    let err = apply_batch_outcomes(&mut reg, &id, &outcomes).unwrap_err();
    assert_eq!(
        err.1,
        OrchestratorError::AgentLaunchFailed { index: 2, cause: LaunchFailure::ConnectFailed }
    );
    assert_eq!(
        err.0,
        vec![
            RollbackAction::DisconnectAgent(1),
            RollbackAction::DisconnectAgent(2),
            RollbackAction::KillAndReap(11),
            RollbackAction::KillAndReap(22),
        ]
    );
    let rt = reg.get(&id).unwrap();
    assert_eq!(rt.agent_handles.len(), 0);
    assert_eq!(rt.agent_processes.len(), 0);
}

#[test]
fn batch_first_failure_wins() {
    // The very first launch fails: nothing to roll back.
    let mut reg = ready_registry("a");
    let id = "a".to_string();
    let outcomes = vec![
        LaunchOutcome::Failed(LaunchFailure::BindFailed),
        LaunchOutcome::Launched(9, 99),
    ];
    let err = apply_batch_outcomes(&mut reg, &id, &outcomes).unwrap_err();
    assert_eq!(
        err.1,
        OrchestratorError::AgentLaunchFailed { index: 0, cause: LaunchFailure::BindFailed }
    );
    assert!(err.0.is_empty());
}

#[test]
fn batch_success_appends_both_collections_atomically() {
    // All three launch: the instance gets exactly the three pairs, in
    // order, and the collections have equal lengths.
    let mut reg = ready_registry("a");
    let id = "a".to_string();
    let outcomes = vec![
        LaunchOutcome::Launched(1, 11),
        LaunchOutcome::Launched(2, 22),
        LaunchOutcome::Launched(3, 33),
    ];
    apply_batch_outcomes(&mut reg, &id, &outcomes).unwrap();
    let rt = reg.get(&id).unwrap();
    assert_eq!(rt.agent_handles, vec![1, 2, 3]);
    assert_eq!(rt.agent_processes, vec![11, 22, 33]);
    assert_eq!(rt.agent_handles.len(), outcomes.len());
    assert_eq!(rt.agent_processes.len(), outcomes.len());
}

#[test]
fn empty_batch_succeeds_with_nothing_appended() {
    let mut reg = ready_registry("a");
    let id = "a".to_string();
    let outcomes: Vec<LaunchOutcome> = Vec::new();
    apply_batch_outcomes(&mut reg, &id, &outcomes).unwrap();
    let rt = reg.get(&id).unwrap();
    assert_eq!(rt.agent_handles.len(), 0);
}

#[test]
fn batch_into_missing_instance_rolls_back_everything() {
    let mut reg = InstanceRegistry::new();
    let id = "ghost".to_string();
    let outcomes = vec![LaunchOutcome::Launched(5, 55)];
    let err = apply_batch_outcomes(&mut reg, &id, &outcomes).unwrap_err();
    assert_eq!(err.1, OrchestratorError::InstanceNotFound);
    assert_eq!(
        err.0,
        vec![RollbackAction::DisconnectAgent(5), RollbackAction::KillAndReap(55)]
    );
}

#[test]
fn accumulator_fail_names_index_and_cause() {
    let mut acc = BatchAccumulator::new();
    acc.push_success(7, 70);
    let (plan, err) = acc.fail(1, LaunchFailure::IdentifierMissing);
    assert_eq!(
        plan,
        vec![RollbackAction::DisconnectAgent(7), RollbackAction::KillAndReap(70)]
    );
    assert_eq!(
        err,
        OrchestratorError::AgentLaunchFailed { index: 1, cause: LaunchFailure::IdentifierMissing }
    );
}

#[test]
fn rollback_plan_orders_disconnects_before_kills() {
    let plan = rollback_plan(&vec![1, 2], &vec![11, 22]);
    assert_eq!(
        plan,
        vec![
            RollbackAction::DisconnectAgent(1),
            RollbackAction::DisconnectAgent(2),
            RollbackAction::KillAndReap(11),
            RollbackAction::KillAndReap(22),
        ]
    );
}

#[test]
fn shutdown_constants_fit_together() {
    assert_eq!(SHUTDOWN_POLL_INTERVAL_MS, 100);
    assert_eq!(SHUTDOWN_TOTAL_WAIT_MS, 5000);
    assert_eq!(SHUTDOWN_MAX_POLLS, 50);
    assert_eq!(
        SHUTDOWN_MAX_POLLS * SHUTDOWN_POLL_INTERVAL_MS,
        SHUTDOWN_TOTAL_WAIT_MS
    );
}

#[test]
fn cooperative_exits_are_never_forced() {
    // Three children all exit within the bound: no forced kill anywhere.
    let outcomes = wind_down_all(&vec![Some(0), Some(3), Some(50)], SHUTDOWN_MAX_POLLS);
    assert_eq!(
        outcomes,
        vec![
            ShutdownOutcome::CooperativeExit(0),
            ShutdownOutcome::CooperativeExit(3),
            ShutdownOutcome::CooperativeExit(50),
        ]
    );
    assert!(!outcomes.iter().any(|o| matches!(o, ShutdownOutcome::ForcedKill(_))));
}

#[test]
fn unresponsive_child_is_killed_at_exactly_the_bound() {
    assert_eq!(
        wind_down_child(None, SHUTDOWN_MAX_POLLS),
        ShutdownOutcome::ForcedKill(SHUTDOWN_MAX_POLLS)
    );
    // One poll past the bound also escalates.
    assert_eq!(
        wind_down_child(Some(SHUTDOWN_MAX_POLLS + 1), SHUTDOWN_MAX_POLLS),
        ShutdownOutcome::ForcedKill(SHUTDOWN_MAX_POLLS)
    );
}

#[test]
fn slow_neighbour_does_not_cost_a_well_behaved_child_its_window() {
    // The first child never exits, the second exits promptly: each child
    // gets its own full window, so the second is still cooperative.
    let outcomes = wind_down_all(&vec![None, Some(1)], SHUTDOWN_MAX_POLLS);
    assert_eq!(
        outcomes,
        vec![
            ShutdownOutcome::ForcedKill(SHUTDOWN_MAX_POLLS),
            ShutdownOutcome::CooperativeExit(1),
        ]
    );
}

#[test]
fn shutdown_of_no_children_does_nothing() {
    let outcomes = wind_down_all(&Vec::new(), SHUTDOWN_MAX_POLLS);
    assert!(outcomes.is_empty());
}

#[test]
fn poll_decision_never_kills_before_the_bound() {
    assert_eq!(shutdown_poll_decision(true, 0, 50), ShutdownStep::Reaped);
    assert_eq!(shutdown_poll_decision(false, 0, 50), ShutdownStep::PollAgain);
    assert_eq!(shutdown_poll_decision(false, 49, 50), ShutdownStep::PollAgain);
    assert_eq!(shutdown_poll_decision(false, 50, 50), ShutdownStep::ForceKill);
    assert_eq!(shutdown_poll_decision(true, 50, 50), ShutdownStep::Reaped);
}

#[test]
fn shutdown_plan_disconnects_before_awaiting() {
    let plan = shutdown_plan(&vec![1, 2], &vec![11, 22]);
    assert_eq!(
        plan,
        vec![
            ShutdownAction::Disconnect(1),
            ShutdownAction::Disconnect(2),
            ShutdownAction::AwaitChild(11),
            ShutdownAction::AwaitChild(22),
        ]
    );
}

#[test]
fn uninitialized_scheduler_fails_fast_and_submits_nothing() {
    let mut reg = ready_registry("a");
    let id = "a".to_string();
    reg.bind_scheduler(&id, 30).unwrap();
    // The scheduler exists but reports itself uninitialized: the flow
    // returns the configuration error and hands out nothing to post.
    let err = begin_submission(&reg, &id, false).unwrap_err();
    assert_eq!(err, OrchestratorError::SchedulerNotInitialized);
    // Nothing was cached either.
    assert!(reg.get(&id).unwrap().task_ids.is_empty());
}

#[test]
fn submission_gate_errors_in_check_order() {
    let id = "a".to_string();
    let mut reg = InstanceRegistry::new();
    assert_eq!(
        begin_submission(&reg, &id, true).unwrap_err(),
        OrchestratorError::InstanceNotFound
    );
    reg.create(id.clone());
    assert_eq!(
        begin_submission(&reg, &id, true).unwrap_err(),
        OrchestratorError::ResourceNotLoaded
    );
    reg.attach_resource(&id, 10).unwrap();
    assert_eq!(
        begin_submission(&reg, &id, true).unwrap_err(),
        OrchestratorError::ControllerNotConnected
    );
    reg.replace_controller(&id, 20).unwrap();
    assert_eq!(
        begin_submission(&reg, &id, true).unwrap_err(),
        OrchestratorError::SchedulerNotCreated
    );
    reg.bind_scheduler(&id, 30).unwrap();
    assert_eq!(begin_submission(&reg, &id, true).unwrap(), 30);
}

#[test]
fn three_tasks_second_fails_to_post() {
    // Of three posted tasks the middle one fails: the identifiers of the
    // first and third come back, in that order, and position one is
    // reported skipped.
    let mut reg = ready_registry("a");
    let id = "a".to_string();
    let results = vec![Some(101), None, Some(103)];
    let (ids, skipped) = record_submission(&mut reg, &id, &results).unwrap();
    assert_eq!(ids, vec![101, 103]);
    assert_eq!(skipped, vec![1]);
    assert_eq!(reg.get(&id).unwrap().task_ids, vec![101, 103]);
}

#[test]
fn collect_post_results_keeps_input_order() {
    let (ids, skipped) = collect_post_results(&vec![None, Some(7), Some(8), None]);
    assert_eq!(ids, vec![7, 8]);
    assert_eq!(skipped, vec![0, 3]);
    let (ids, skipped) = collect_post_results(&Vec::new());
    assert!(ids.is_empty());
    assert!(skipped.is_empty());
}

#[test]
fn resource_replace_invalidates_scheduler() {
    // A scheduler bound to the old resource does not survive a resource
    // replace: submission is rejected until a scheduler is recreated, and
    // the new scheduler binds to the new resource.
    let mut reg = ready_registry("a");
    let id = "a".to_string();
    reg.bind_scheduler(&id, 30).unwrap();
    assert_eq!(begin_submission(&reg, &id, true).unwrap(), 30);

    // Replace the resource: the scheduler goes with it, handles returned
    // for destruction in dependency order (scheduler first).
    let released = reg.clear_resource(&id).unwrap();
    assert_eq!(released, (Some(30), Some(10)));
    reg.attach_resource(&id, 11).unwrap();

    // A bare replace leaves no scheduler: submission is rejected.
    assert_eq!(
        begin_submission(&reg, &id, true).unwrap_err(),
        OrchestratorError::SchedulerNotCreated
    );

    // Recreating the scheduler binds it to the new resource.
    reg.bind_scheduler(&id, 31).unwrap();
    let binding = reg.get(&id).unwrap().scheduler.unwrap();
    assert_eq!(binding.handle, 31);
    assert_eq!(binding.resource, 11);
    assert_eq!(binding.controller, 20);
}

#[test]
fn controller_replace_also_invalidates_scheduler() {
    let mut reg = ready_registry("a");
    let id = "a".to_string();
    reg.bind_scheduler(&id, 30).unwrap();
    let released = reg.replace_controller(&id, 21).unwrap();
    assert_eq!(released, (Some(30), Some(20)));
    assert!(reg.get(&id).unwrap().scheduler.is_none());
}

#[test]
fn scheduler_needs_both_handles_and_binds_once() {
    let id = "a".to_string();
    let mut reg = InstanceRegistry::new();
    reg.create(id.clone());
    assert_eq!(
        reg.bind_scheduler(&id, 30).unwrap_err(),
        OrchestratorError::ResourceNotLoaded
    );
    reg.attach_resource(&id, 10).unwrap();
    assert_eq!(
        reg.bind_scheduler(&id, 30).unwrap_err(),
        OrchestratorError::ControllerNotConnected
    );
    reg.replace_controller(&id, 20).unwrap();
    reg.bind_scheduler(&id, 30).unwrap();
    assert_eq!(
        reg.bind_scheduler(&id, 31).unwrap_err(),
        OrchestratorError::SchedulerAlreadyBound
    );
}

#[test]
fn create_is_idempotent() {
    let mut reg = InstanceRegistry::new();
    assert!(reg.create("x".to_string()));
    reg.attach_resource(&"x".to_string(), 10).unwrap();
    // Creating the same identifier again succeeds without side effects.
    assert!(!reg.create("x".to_string()));
    assert_eq!(reg.get(&"x".to_string()).unwrap().resource, Some(10));
}

#[test]
fn attach_resource_rejects_a_second_resource() {
    let mut reg = InstanceRegistry::new();
    reg.create("x".to_string());
    reg.attach_resource(&"x".to_string(), 10).unwrap();
    assert_eq!(
        reg.attach_resource(&"x".to_string(), 11).unwrap_err(),
        OrchestratorError::ResourceAlreadyLoaded
    );
}

#[test]
fn destroy_hands_back_the_runtime_and_forgets_the_id() {
    let mut reg = ready_registry("x");
    let id = "x".to_string();
    let rt = reg.destroy(&id).unwrap();
    assert_eq!(rt.resource, Some(10));
    assert_eq!(rt.controller, Some(20));
    assert!(reg.get(&id).is_none());
    assert!(reg.destroy(&id).is_none());
}

#[test]
fn registry_keeps_instances_independent() {
    let mut reg = InstanceRegistry::new();
    reg.create("a".to_string());
    reg.create("b".to_string());
    reg.attach_resource(&"a".to_string(), 1).unwrap();
    reg.attach_resource(&"b".to_string(), 2).unwrap();
    reg.destroy(&"a".to_string()).unwrap();
    assert_eq!(reg.get(&"b".to_string()).unwrap().resource, Some(2));
}

#[test]
fn take_agents_takes_the_whole_batch() {
    let mut reg = ready_registry("a");
    let id = "a".to_string();
    reg.append_agent_batch(&id, vec![1, 2], vec![11, 22]).unwrap();
    let (handles, children) = reg.take_agents(&id).unwrap();
    assert_eq!(handles, vec![1, 2]);
    assert_eq!(children, vec![11, 22]);
    let rt = reg.get(&id).unwrap();
    assert!(rt.agent_handles.is_empty());
    assert!(rt.agent_processes.is_empty());
}

#[test]
fn task_id_cache_clears_on_stop() {
    let mut reg = ready_registry("a");
    let id = "a".to_string();
    reg.push_task_id(&id, 5).unwrap();
    reg.push_task_id(&id, 6).unwrap();
    assert_eq!(reg.get(&id).unwrap().task_ids, vec![5, 6]);
    reg.clear_task_ids(&id).unwrap();
    assert!(reg.get(&id).unwrap().task_ids.is_empty());
}

#[test]
fn release_plan_follows_dependency_order() {
    let mut rt = InstanceRuntime::new();
    rt.attach_resource(100);
    rt.replace_controller(200);
    rt.bind_scheduler(300).unwrap();
    rt.append_agent_batch(vec![1, 2], vec![11, 22]);
    let plan = rt.release_plan();
    assert_eq!(
        plan,
        vec![
            ReleaseAction::DisconnectAgent(1),
            ReleaseAction::DisconnectAgent(2),
            ReleaseAction::KillChild(11),
            ReleaseAction::KillChild(22),
            ReleaseAction::DestroyScheduler(300),
            ReleaseAction::DestroyController(200),
            ReleaseAction::DestroyResource(100),
        ]
    );
}

#[test]
fn release_plan_of_empty_instance_is_empty() {
    let rt = InstanceRuntime::new();
    assert!(rt.release_plan().is_empty());
}
