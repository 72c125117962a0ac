//! Error taxonomy of the orchestration layer.
//!
//! Configuration errors are reported immediately and have no side effects;
//! launch errors carry the index of the failing agent and come only after
//! the whole batch has been rolled back; shutdown errors are swallowed by
//! the coordinator and never surface here.

use vstd::prelude::*;

verus! {

/// Why a single agent launch failed.
#[derive(Clone, Copy, Debug, PartialEq, Eq, Structural)]
pub enum LaunchFailure {
    /// The engine-side agent client could not be created.
    ClientCreateFailed,
    /// The agent client could not be bound to the resource.
    BindFailed,
    /// The bound client reported no connection identifier.
    IdentifierMissing,
    /// The child process could not be spawned.
    SpawnFailed,
    /// The connect handshake failed or timed out.
    ConnectFailed,
    /// The callback sinks could not be registered after the handshake.
    SinkRegisterFailed,
}

/// An error of the orchestration layer.
#[derive(Clone, Copy, Debug, PartialEq, Eq, Structural)]
pub enum OrchestratorError {
    /// The named instance is not in the registry.
    InstanceNotFound,
    /// The instance has no loaded resource.
    ResourceNotLoaded,
    /// A resource is already loaded; it must be reset before another one
    /// is attached.
    ResourceAlreadyLoaded,
    /// The instance has no connected controller.
    ControllerNotConnected,
    /// The instance has no scheduler to operate on.
    SchedulerNotCreated,
    /// The scheduler reported itself uninitialized; nothing was submitted.
    SchedulerNotInitialized,
    /// A scheduler is already bound; it must be destroyed before rebinding.
    SchedulerAlreadyBound,
    /// Launch of the agent at this index failed; the batch was rolled back.
    AgentLaunchFailed { index: usize, cause: LaunchFailure },
}

impl LaunchFailure {
    /// A short description of the failure, for logs and user-facing errors.
    pub fn message(&self) -> &'static str {
        match self {
            LaunchFailure::ClientCreateFailed => "failed to create agent client",
            LaunchFailure::BindFailed => "failed to bind resource to agent client",
            LaunchFailure::IdentifierMissing => "failed to get agent identifier",
            LaunchFailure::SpawnFailed => "failed to spawn agent process",
            LaunchFailure::ConnectFailed => "failed to connect to agent",
            LaunchFailure::SinkRegisterFailed => "failed to register agent sinks",
        }
    }
}

impl OrchestratorError {
    /// A short description of the error, for logs and user-facing errors.
    pub fn message(&self) -> &'static str {
        match self {
            OrchestratorError::InstanceNotFound => "instance not found",
            OrchestratorError::ResourceNotLoaded => "resource not loaded",
            OrchestratorError::ResourceAlreadyLoaded => "resource already loaded",
            OrchestratorError::ControllerNotConnected => "controller not connected",
            OrchestratorError::SchedulerNotCreated => "tasker not created",
            OrchestratorError::SchedulerNotInitialized => "tasker not properly initialized",
            OrchestratorError::SchedulerAlreadyBound => "tasker already bound",
            OrchestratorError::AgentLaunchFailed { .. } => "agent start failed",
        }
    }
}

} // verus!
