//! Agent launcher: one agent's way from nothing to a connected engine
//! client paired with a live child process.
//!
//! The blocking operations — creating and binding the engine client,
//! spawning the child, the connect handshake — are the embedder's; this
//! module is the state machine that orders them and decides what each
//! outcome means. Its guarantees: no step that fails before the spawn
//! leaves a child behind (no orphan), and every failure after the spawn
//! kills the just-spawned child before the error is reported (no leak).

use vstd::prelude::*;

use crate::errors::LaunchFailure;
use crate::util::{dec_of, u64_to_dec};

verus! {

/// What one agent launch needs: the executable (relative to the caller's
/// working directory), its arguments, an optional engine-side identifier,
/// and the connect timeout in milliseconds (`None`, like the sentinel -1,
/// means wait indefinitely).
pub struct AgentConfig {
    pub child_exec: String,
    pub child_args: Option<Vec<String>>,
    pub identifier: Option<String>,
    pub timeout: Option<i64>,
}

/// Where a launch stands.
#[derive(Clone, Copy, Debug, PartialEq, Eq, Structural)]
pub enum LaunchPhase {
    /// Creating the engine client over the preferred transport.
    CreatingClient,
    /// The alternate transport failed; creating a default-transport client
    /// instead of failing outright.
    CreatingFallbackClient,
    /// Binding the client to the resource. No child exists yet.
    BindingResource,
    /// Asking the bound client for its connection identifier.
    FetchingIdentifier,
    /// Spawning the child process, the identifier as its last argument.
    SpawningChild,
    /// Readers attached; applying the timeout and connecting.
    Connecting,
    /// Connected; registering the callback sinks.
    RegisteringSinks,
    /// The launch succeeded.
    Done,
    /// The launch failed and was cleaned up.
    Failed,
}

/// What the embedder reports back after performing the current step.
#[derive(Clone, Copy, Debug, PartialEq, Eq, Structural)]
pub enum LaunchEvent {
    ClientCreated,
    ClientCreateFailed,
    ResourceBound,
    BindFailed,
    IdentifierFetched,
    IdentifierMissing,
    ChildSpawned(u32),
    SpawnFailed,
    Connected,
    ConnectFailed,
    SinksRegistered,
    SinkRegisterFailed,
}

/// What the embedder must do next.
#[derive(Clone, Copy, Debug, PartialEq, Eq, Structural)]
pub enum LaunchDirective {
    /// Create the engine client: over the alternate transport if `tcp` is
    /// set, over the default transport otherwise.
    CreateClient { tcp: bool },
    /// Bind the client to the instance's resource.
    BindResource,
    /// Ask the client for its connection identifier.
    FetchIdentifier,
    /// Spawn the child with the identifier appended as its last argument,
    /// both output streams piped.
    SpawnChild,
    /// Attach one pipe reader per stream, apply the connect timeout, and
    /// perform the connect handshake.
    Connect,
    /// Register the resource, controller and scheduler sinks.
    RegisterSinks,
}

/// What one event means for the launch.
#[derive(Clone, Copy, Debug, PartialEq, Eq, Structural)]
pub enum LaunchStep {
    /// Perform the next operation.
    Next(LaunchDirective),
    /// The launch failed: kill the named child if one was spawned, then
    /// report the failure.
    Abort { failure: LaunchFailure, kill_child: Option<u32> },
    /// The launch succeeded: hand the pair to the batch accumulator.
    Complete,
}

/// The launcher's state: its phase, whether the alternate transport was
/// asked for, and the child spawned so far, if any.
#[derive(Clone, Copy, Debug, PartialEq, Eq, Structural)]
pub struct LaunchTracker {
    pub phase: LaunchPhase,
    pub tcp_compat: bool,
    pub child: Option<u32>,
}

/// Which events can answer which phase.
pub open spec fn valid_event(phase: LaunchPhase, event: LaunchEvent) -> bool {
    match phase {
        LaunchPhase::CreatingClient | LaunchPhase::CreatingFallbackClient => event
            == LaunchEvent::ClientCreated || event == LaunchEvent::ClientCreateFailed,
        LaunchPhase::BindingResource => event == LaunchEvent::ResourceBound || event
            == LaunchEvent::BindFailed,
        LaunchPhase::FetchingIdentifier => event == LaunchEvent::IdentifierFetched || event
            == LaunchEvent::IdentifierMissing,
        LaunchPhase::SpawningChild => (event matches LaunchEvent::ChildSpawned(_)) || event
            == LaunchEvent::SpawnFailed,
        LaunchPhase::Connecting => event == LaunchEvent::Connected || event
            == LaunchEvent::ConnectFailed,
        LaunchPhase::RegisteringSinks => event == LaunchEvent::SinksRegistered || event
            == LaunchEvent::SinkRegisterFailed,
        LaunchPhase::Done | LaunchPhase::Failed => false,
    }
}

impl LaunchTracker {
    /// A child exists exactly from the spawn on.
    pub open spec fn wf(&self) -> bool {
        match self.phase {
            LaunchPhase::CreatingClient | LaunchPhase::CreatingFallbackClient
                | LaunchPhase::BindingResource | LaunchPhase::FetchingIdentifier
                | LaunchPhase::SpawningChild => self.child is None,
            LaunchPhase::Connecting | LaunchPhase::RegisteringSinks | LaunchPhase::Done => self
                .child is Some,
            LaunchPhase::Failed => true,
        }
    }

    /// Starts a launch: the first directive is to create the client, over
    /// the alternate transport when the compatibility flag asks for it.
    pub fn start(tcp_compat: bool) -> (r: (LaunchTracker, LaunchDirective))
        ensures
            r.0.wf(),
            r.0.phase == LaunchPhase::CreatingClient,
            r.0.tcp_compat == tcp_compat,
            r.0.child is None,
            r.1 == (LaunchDirective::CreateClient { tcp: tcp_compat }),
    {
        (
            LaunchTracker { phase: LaunchPhase::CreatingClient, tcp_compat, child: None },
            LaunchDirective::CreateClient { tcp: tcp_compat },
        )
    }

    /// Advances the launch by one reported event.
    ///
    /// Failures before the spawn abort with no child to kill (no orphaned
    /// process); failures after the spawn abort with exactly the spawned
    /// child to kill (no leaked process). A failed alternate-transport
    /// client creation falls back to the default transport rather than
    /// failing outright.
    pub fn step(&mut self, event: LaunchEvent) -> (r: LaunchStep)
        requires
            old(self).wf(),
            valid_event(old(self).phase, event),
        ensures
            final(self).wf(),
            final(self).tcp_compat == old(self).tcp_compat,
            r matches LaunchStep::Abort { failure, kill_child } ==> {
                &&& final(self).phase == LaunchPhase::Failed
                &&& kill_child == old(self).child
                &&& (kill_child is Some <==> (old(self).phase == LaunchPhase::Connecting || old(self).phase == LaunchPhase::RegisteringSinks))
            },
            r is Complete ==> final(self).phase == LaunchPhase::Done && final(self).child == old(self).child && final(self).child is Some,
            match old(self).phase {
                LaunchPhase::CreatingClient => {
                    if event == LaunchEvent::ClientCreated {
                        r == LaunchStep::Next(LaunchDirective::BindResource) && final(self).phase
                            == LaunchPhase::BindingResource
                    } else if old(self).tcp_compat {
                        r == LaunchStep::Next(
                            LaunchDirective::CreateClient { tcp: false },
                        ) && final(self).phase == LaunchPhase::CreatingFallbackClient
                    } else {
                        r == (LaunchStep::Abort {
                            failure: LaunchFailure::ClientCreateFailed,
                            kill_child: None,
                        })
                    }
                },
                LaunchPhase::CreatingFallbackClient => {
                    if event == LaunchEvent::ClientCreated {
                        r == LaunchStep::Next(LaunchDirective::BindResource) && final(self).phase
                            == LaunchPhase::BindingResource
                    } else {
                        r == (LaunchStep::Abort {
                            failure: LaunchFailure::ClientCreateFailed,
                            kill_child: None,
                        })
                    }
                },
                LaunchPhase::BindingResource => {
                    if event == LaunchEvent::ResourceBound {
                        r == LaunchStep::Next(LaunchDirective::FetchIdentifier) && final(self).phase == LaunchPhase::FetchingIdentifier
                    } else {
                        r == (LaunchStep::Abort {
                            failure: LaunchFailure::BindFailed,
                            kill_child: None,
                        })
                    }
                },
                LaunchPhase::FetchingIdentifier => {
                    if event == LaunchEvent::IdentifierFetched {
                        r == LaunchStep::Next(LaunchDirective::SpawnChild) && final(self).phase
                            == LaunchPhase::SpawningChild
                    } else {
                        r == (LaunchStep::Abort {
                            failure: LaunchFailure::IdentifierMissing,
                            kill_child: None,
                        })
                    }
                },
                LaunchPhase::SpawningChild => {
                    &&& (event matches LaunchEvent::ChildSpawned(pid) ==> r == LaunchStep::Next(
                        LaunchDirective::Connect,
                    ) && final(self).phase == LaunchPhase::Connecting && final(self).child == Some(
                        pid,
                    ))
                    &&& (event == LaunchEvent::SpawnFailed ==> r == (LaunchStep::Abort {
                        failure: LaunchFailure::SpawnFailed,
                        kill_child: None,
                    }))
                },
                LaunchPhase::Connecting => {
                    if event == LaunchEvent::Connected {
                        r == LaunchStep::Next(LaunchDirective::RegisterSinks) && final(self).phase
                            == LaunchPhase::RegisteringSinks && final(self).child == old(self).child
                    } else {
                        r == (LaunchStep::Abort {
                            failure: LaunchFailure::ConnectFailed,
                            kill_child: old(self).child,
                        })
                    }
                },
                LaunchPhase::RegisteringSinks => {
                    if event == LaunchEvent::SinksRegistered {
                        r == LaunchStep::Complete
                    } else {
                        r == (LaunchStep::Abort {
                            failure: LaunchFailure::SinkRegisterFailed,
                            kill_child: old(self).child,
                        })
                    }
                },
                LaunchPhase::Done | LaunchPhase::Failed => false,
            },
    {
        match self.phase {
            LaunchPhase::CreatingClient => {
                if event == LaunchEvent::ClientCreated {
                    self.phase = LaunchPhase::BindingResource;
                    LaunchStep::Next(LaunchDirective::BindResource)
                } else if self.tcp_compat {
                    self.phase = LaunchPhase::CreatingFallbackClient;
                    LaunchStep::Next(LaunchDirective::CreateClient { tcp: false })
                } else {
                    self.phase = LaunchPhase::Failed;
                    LaunchStep::Abort {
                        failure: LaunchFailure::ClientCreateFailed,
                        kill_child: None,
                    }
                }
            },
            LaunchPhase::CreatingFallbackClient => {
                if event == LaunchEvent::ClientCreated {
                    self.phase = LaunchPhase::BindingResource;
                    LaunchStep::Next(LaunchDirective::BindResource)
                } else {
                    self.phase = LaunchPhase::Failed;
                    LaunchStep::Abort {
                        failure: LaunchFailure::ClientCreateFailed,
                        kill_child: None,
                    }
                }
            },
            LaunchPhase::BindingResource => {
                if event == LaunchEvent::ResourceBound {
                    self.phase = LaunchPhase::FetchingIdentifier;
                    LaunchStep::Next(LaunchDirective::FetchIdentifier)
                } else {
                    self.phase = LaunchPhase::Failed;
                    LaunchStep::Abort { failure: LaunchFailure::BindFailed, kill_child: None }
                }
            },
            LaunchPhase::FetchingIdentifier => {
                if event == LaunchEvent::IdentifierFetched {
                    self.phase = LaunchPhase::SpawningChild;
                    LaunchStep::Next(LaunchDirective::SpawnChild)
                } else {
                    self.phase = LaunchPhase::Failed;
                    LaunchStep::Abort {
                        failure: LaunchFailure::IdentifierMissing,
                        kill_child: None,
                    }
                }
            },
            LaunchPhase::SpawningChild => {
                match event {
                    LaunchEvent::ChildSpawned(pid) => {
                        self.phase = LaunchPhase::Connecting;
                        self.child = Some(pid);
                        LaunchStep::Next(LaunchDirective::Connect)
                    },
                    _ => {
                        self.phase = LaunchPhase::Failed;
                        LaunchStep::Abort {
                            failure: LaunchFailure::SpawnFailed,
                            kill_child: None,
                        }
                    },
                }
            },
            LaunchPhase::Connecting => {
                if event == LaunchEvent::Connected {
                    self.phase = LaunchPhase::RegisteringSinks;
                    LaunchStep::Next(LaunchDirective::RegisterSinks)
                } else {
                    let child = self.child;
                    self.phase = LaunchPhase::Failed;
                    LaunchStep::Abort { failure: LaunchFailure::ConnectFailed, kill_child: child }
                }
            },
            LaunchPhase::RegisteringSinks => {
                if event == LaunchEvent::SinksRegistered {
                    self.phase = LaunchPhase::Done;
                    LaunchStep::Complete
                } else {
                    let child = self.child;
                    self.phase = LaunchPhase::Failed;
                    LaunchStep::Abort {
                        failure: LaunchFailure::SinkRegisterFailed,
                        kill_child: child,
                    }
                }
            },
            LaunchPhase::Done | LaunchPhase::Failed => {
                proof {
                    assert(false);
                }
                LaunchStep::Complete
            },
        }
    }
}

/// The connect timeout to apply: the configured value, or the sentinel -1
/// (wait indefinitely) when none was configured.
pub fn connect_timeout(config: &AgentConfig) -> (r: i64)
    ensures
        r == (match config.timeout {
            Some(t) => t,
            None => -1i64,
        }),
{
    match config.timeout {
        Some(t) => t,
        None => -1,
    }
}

/// The arguments the child is spawned with: the configured arguments, in
/// order, with the connection identifier appended as the last one.
pub fn agent_child_args(config: &AgentConfig, socket_id: &str) -> (r: Vec<String>)
    ensures
        r@.len() == (match config.child_args {
            Some(args) => args@.len() + 1,
            None => 1,
        }),
        forall|i: int|
            #![auto]
            config.child_args is Some && 0 <= i < config.child_args->0@.len() ==> r@[i]@
                == config.child_args->0@[i]@,
        r@.last()@ == socket_id@,
{
    let mut args: Vec<String> = Vec::new();
    match &config.child_args {
        Some(configured) => {
            let n = configured.len();
            let mut i: usize = 0;
            while i < n
                invariant
                    n == configured@.len(),
                    0 <= i <= n,
                    args@.len() == i,
                    forall|k: int| #![auto] 0 <= k < i ==> args@[k]@ == configured@[k]@,
                decreases n - i,
            {
                args.push(clone_string(&configured[i]));
                i = i + 1;
            }
        },
        None => {},
    }
    args.push(string_from(socket_id));
    args
}

/// The log file name for one agent process: it encodes the agent index
/// and the child's process id, so no two agents — nor two runs of one
/// agent — share a file.
pub fn agent_log_name(index: usize, pid: u32) -> (r: String)
    ensures
        r@ == "mxu-agent-"@ + dec_of(index as nat) + "-"@ + dec_of(pid as nat) + ".log"@,
{
    let mut name = string_from("mxu-agent-");
    let index_part = u64_to_dec(index as u64);
    name.append(index_part.as_str());
    name.append("-");
    let pid_part = u64_to_dec(pid as u64);
    name.append(pid_part.as_str());
    name.append(".log");
    name
}

/// Copies a string.
fn clone_string(s: &String) -> (r: String)
    ensures
        r@ == s@,
{
    string_from(s.as_str())
}

/// An owned copy of a string slice.
fn string_from(s: &str) -> (r: String)
    ensures
        r@ == s@,
{
    s.to_owned()
}

/// Law: a launch never leaves a process behind. An abort that follows the
/// spawn (handshake or sink registration failure) names exactly the
/// spawned child to kill before the failure is reported; an abort before
/// the spawn has no child to kill, because none was started.
pub proof fn lemma_no_orphan_no_leak(tracker: LaunchTracker)
    requires
        tracker.wf(),
    ensures
        (tracker.phase == LaunchPhase::CreatingClient || tracker.phase
            == LaunchPhase::CreatingFallbackClient || tracker.phase
            == LaunchPhase::BindingResource || tracker.phase == LaunchPhase::FetchingIdentifier
            || tracker.phase == LaunchPhase::SpawningChild) ==> tracker.child is None,
        (tracker.phase == LaunchPhase::Connecting || tracker.phase
            == LaunchPhase::RegisteringSinks) ==> tracker.child is Some,
{
}

} // verus!
