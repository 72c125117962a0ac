//! Instance runtime: the engine-side handles one automation instance owns,
//! with the invariants that hold between them.
//!
//! Engine handles are carried as opaque numeric identifiers; the embedding
//! program maps them to the engine's native objects. A scheduler is bound
//! to exactly one resource and one controller, and the binding is immutable:
//! replacing either destroys the scheduler. The two agent collections are
//! index-aligned and only ever change as a whole batch.

use vstd::prelude::*;

verus! {

/// A scheduler handle together with the resource and controller handles it
/// was bound to at creation. The binding never changes afterwards.
#[derive(Clone, Copy, Debug, PartialEq, Eq, Structural)]
pub struct SchedulerBinding {
    pub handle: u64,
    pub resource: u64,
    pub controller: u64,
}

/// The engine-side state of one automation instance.
pub struct InstanceRuntime {
    /// Handle of the loaded resource pack, if any.
    pub resource: Option<u64>,
    /// Handle of the connected device controller, if any.
    pub controller: Option<u64>,
    /// The scheduler and its binding, if one has been created.
    pub scheduler: Option<SchedulerBinding>,
    /// Engine-side agent handles, one per launched agent, in launch order.
    pub agent_handles: Vec<u64>,
    /// Child process identifiers, index-aligned with `agent_handles`.
    pub agent_processes: Vec<u32>,
    /// Identifiers of the tasks submitted most recently, in submission
    /// order; kept so a reloaded front end can restore its view.
    pub task_ids: Vec<i64>,
}

/// One step of releasing an instance's native handles. The order of a
/// release plan is the dependency order: agents first, then the scheduler,
/// then the controller, then the resource.
#[derive(Clone, Copy, Debug, PartialEq, Eq, Structural)]
pub enum ReleaseAction {
    /// Disconnect and destroy this agent client handle.
    DisconnectAgent(u64),
    /// Terminate and reap this agent child process.
    KillChild(u32),
    /// Destroy this scheduler handle.
    DestroyScheduler(u64),
    /// Destroy this controller handle.
    DestroyController(u64),
    /// Destroy this resource handle.
    DestroyResource(u64),
}

impl InstanceRuntime {
    /// Well-formedness: the agent collections are index-aligned, and a
    /// scheduler, if present, is bound to the instance's current resource
    /// and controller.
    pub open spec fn wf(&self) -> bool {
        &&& self.agent_handles@.len() == self.agent_processes@.len()
        &&& (self.scheduler is Some ==> {
            &&& self.resource == Some(self.scheduler->0.resource)
            &&& self.controller == Some(self.scheduler->0.controller)
        })
    }

    /// Whether this runtime holds nothing: no handles and no cached tasks,
    /// the state of a freshly created instance.
    pub open spec fn is_empty(&self) -> bool {
        &&& self.resource is None
        &&& self.controller is None
        &&& self.scheduler is None
        &&& self.agent_handles@.len() == 0
        &&& self.agent_processes@.len() == 0
        &&& self.task_ids@.len() == 0
    }

    /// Creates an instance runtime holding nothing.
    pub fn new() -> (r: InstanceRuntime)
        ensures
            r.is_empty(),
            r.wf(),
    {
        InstanceRuntime {
            resource: None,
            controller: None,
            scheduler: None,
            agent_handles: Vec::new(),
            agent_processes: Vec::new(),
            task_ids: Vec::new(),
        }
    }

    /// Installs a newly created resource handle. Only one resource may be
    /// loaded at a time; replacing one goes through [`Self::clear_resource`].
    pub fn attach_resource(&mut self, handle: u64)
        requires
            old(self).wf(),
            old(self).resource is None,
        ensures
            final(self).wf(),
            final(self).resource == Some(handle),
            final(self).controller == old(self).controller,
            final(self).scheduler == old(self).scheduler,
            final(self).agent_handles == old(self).agent_handles,
            final(self).agent_processes == old(self).agent_processes,
            final(self).task_ids == old(self).task_ids,
    {
        self.resource = Some(handle);
    }

    /// Removes the resource, and with it any scheduler, since a scheduler
    /// never outlives the resource it is bound to. Returns the handles the
    /// embedder must destroy, scheduler first (dependency order).
    pub fn clear_resource(&mut self) -> (released: (Option<u64>, Option<u64>))
        requires
            old(self).wf(),
        ensures
            final(self).wf(),
            final(self).resource is None,
            final(self).scheduler is None,
            final(self).controller == old(self).controller,
            final(self).agent_handles == old(self).agent_handles,
            final(self).agent_processes == old(self).agent_processes,
            final(self).task_ids == old(self).task_ids,
            released.0 == match old(self).scheduler {
                Some(s) => Some(s.handle),
                None => None::<u64>,
            },
            released.1 == old(self).resource,
    {
        let scheduler = match self.scheduler.take() {
            Some(s) => Some(s.handle),
            None => None,
        };
        let resource = self.resource.take();
        (scheduler, resource)
    }

    /// Installs a newly connected controller, replacing any previous one.
    /// A scheduler bound to the old controller is invalidated as well.
    /// Returns the handles the embedder must destroy, scheduler first.
    pub fn replace_controller(&mut self, handle: u64) -> (released: (Option<u64>, Option<u64>))
        requires
            old(self).wf(),
        ensures
            final(self).wf(),
            final(self).controller == Some(handle),
            final(self).scheduler is None,
            final(self).resource == old(self).resource,
            final(self).agent_handles == old(self).agent_handles,
            final(self).agent_processes == old(self).agent_processes,
            final(self).task_ids == old(self).task_ids,
            released.0 == match old(self).scheduler {
                Some(s) => Some(s.handle),
                None => None::<u64>,
            },
            released.1 == old(self).controller,
    {
        let scheduler = match self.scheduler.take() {
            Some(s) => Some(s.handle),
            None => None,
        };
        let controller = self.controller.take();
        self.controller = Some(handle);
        (scheduler, controller)
    }

    /// Binds a newly created scheduler to the current resource and
    /// controller. Fails without side effects when either is missing or a
    /// scheduler is already bound.
    pub fn bind_scheduler(&mut self, handle: u64) -> (r: Result<
        (),
        crate::errors::OrchestratorError,
    >)
        requires
            old(self).wf(),
        ensures
            final(self).wf(),
            r is Ok <==> {
                &&& old(self).resource is Some
                &&& old(self).controller is Some
                &&& old(self).scheduler is None
            },
            r is Ok ==> *final(self) == (InstanceRuntime {
                scheduler: Some(
                    SchedulerBinding {
                        handle,
                        resource: old(self).resource->0,
                        controller: old(self).controller->0,
                    },
                ),
                ..*old(self)
            }),
            r is Err ==> *final(self) == *old(self),
            r is Err ==> r->Err_0 == (if old(self).resource is None {
                crate::errors::OrchestratorError::ResourceNotLoaded
            } else if old(self).controller is None {
                crate::errors::OrchestratorError::ControllerNotConnected
            } else {
                crate::errors::OrchestratorError::SchedulerAlreadyBound
            }),
    {
        let resource = match &self.resource {
            Some(h) => *h,
            None => {
                return Err(crate::errors::OrchestratorError::ResourceNotLoaded);
            },
        };
        let controller = match &self.controller {
            Some(h) => *h,
            None => {
                return Err(crate::errors::OrchestratorError::ControllerNotConnected);
            },
        };
        if self.scheduler.is_some() {
            return Err(crate::errors::OrchestratorError::SchedulerAlreadyBound);
        }
        self.scheduler = Some(SchedulerBinding { handle, resource, controller });
        Ok(())
    }

    /// Appends a successfully launched agent batch, both collections as one
    /// unit, so no observer ever sees them at different lengths.
    pub fn append_agent_batch(&mut self, handles: Vec<u64>, processes: Vec<u32>)
        requires
            old(self).wf(),
            handles@.len() == processes@.len(),
        ensures
            final(self).wf(),
            final(self).agent_handles@ == old(self).agent_handles@ + handles@,
            final(self).agent_processes@ == old(self).agent_processes@ + processes@,
            final(self).resource == old(self).resource,
            final(self).controller == old(self).controller,
            final(self).scheduler == old(self).scheduler,
            final(self).task_ids == old(self).task_ids,
    {
        let mut handles = handles;
        let mut processes = processes;
        self.agent_handles.append(&mut handles);
        self.agent_processes.append(&mut processes);
    }

    /// Takes every agent handle and child process out of the instance, as
    /// one unit, for the shutdown coordinator to wind down.
    pub fn take_agents(&mut self) -> (taken: (Vec<u64>, Vec<u32>))
        requires
            old(self).wf(),
        ensures
            final(self).wf(),
            taken.0@ == old(self).agent_handles@,
            taken.1@ == old(self).agent_processes@,
            taken.0@.len() == taken.1@.len(),
            final(self).agent_handles@.len() == 0,
            final(self).agent_processes@.len() == 0,
            final(self).resource == old(self).resource,
            final(self).controller == old(self).controller,
            final(self).scheduler == old(self).scheduler,
            final(self).task_ids == old(self).task_ids,
    {
        let mut handles: Vec<u64> = Vec::new();
        let mut processes: Vec<u32> = Vec::new();
        core::mem::swap(&mut handles, &mut self.agent_handles);
        core::mem::swap(&mut processes, &mut self.agent_processes);
        (handles, processes)
    }

    /// Replaces the cached task identifiers with those of a new submission.
    pub fn set_task_ids(&mut self, ids: Vec<i64>)
        requires
            old(self).wf(),
        ensures
            final(self).wf(),
            final(self).task_ids == ids,
            *final(self) == (InstanceRuntime { task_ids: ids, ..*old(self) }),
    {
        self.task_ids = ids;
    }

    /// Records one more submitted task identifier.
    pub fn push_task_id(&mut self, id: i64)
        requires
            old(self).wf(),
        ensures
            final(self).wf(),
            final(self).task_ids@ == old(self).task_ids@.push(id),
            final(self).resource == old(self).resource,
            final(self).controller == old(self).controller,
            final(self).scheduler == old(self).scheduler,
            final(self).agent_handles == old(self).agent_handles,
            final(self).agent_processes == old(self).agent_processes,
    {
        self.task_ids.push(id);
    }

    /// Forgets the cached task identifiers, as the stop path does.
    pub fn clear_task_ids(&mut self)
        requires
            old(self).wf(),
        ensures
            final(self).wf(),
            final(self).task_ids@.len() == 0,
            final(self).resource == old(self).resource,
            final(self).controller == old(self).controller,
            final(self).scheduler == old(self).scheduler,
            final(self).agent_handles == old(self).agent_handles,
            final(self).agent_processes == old(self).agent_processes,
    {
        self.task_ids.clear();
    }

    /// The steps that release everything this instance holds, in dependency
    /// order: each agent is disconnected, then each child process killed,
    /// then the scheduler, the controller and the resource are destroyed.
    pub open spec fn spec_release_plan(&self) -> Seq<ReleaseAction> {
        let agents = Seq::new(
            self.agent_handles@.len(),
            |i: int| ReleaseAction::DisconnectAgent(self.agent_handles@[i]),
        );
        let children = Seq::new(
            self.agent_processes@.len(),
            |i: int| ReleaseAction::KillChild(self.agent_processes@[i]),
        );
        let scheduler = match self.scheduler {
            Some(s) => seq![ReleaseAction::DestroyScheduler(s.handle)],
            None => Seq::<ReleaseAction>::empty(),
        };
        let controller = match self.controller {
            Some(h) => seq![ReleaseAction::DestroyController(h)],
            None => Seq::<ReleaseAction>::empty(),
        };
        let resource = match self.resource {
            Some(h) => seq![ReleaseAction::DestroyResource(h)],
            None => Seq::<ReleaseAction>::empty(),
        };
        agents + children + scheduler + controller + resource
    }

    /// Computes the release plan for this instance: what to release and in
    /// which order, for the embedder to execute once the instance has left
    /// the registry.
    pub fn release_plan(&self) -> (plan: Vec<ReleaseAction>)
        ensures
            plan@ == self.spec_release_plan(),
    {
        let ghost goal = self.spec_release_plan();
        let mut plan: Vec<ReleaseAction> = Vec::new();
        let n = self.agent_handles.len();
        let mut i: usize = 0;
        while i < n
            invariant
                n == self.agent_handles@.len(),
                0 <= i <= n,
                plan@ == Seq::new(
                    i as nat,
                    |k: int| ReleaseAction::DisconnectAgent(self.agent_handles@[k]),
                ),
            decreases n - i,
        {
            plan.push(ReleaseAction::DisconnectAgent(self.agent_handles[i]));
            proof {
                assert(plan@ =~= Seq::new(
                    (i + 1) as nat,
                    |k: int| ReleaseAction::DisconnectAgent(self.agent_handles@[k]),
                ));
            }
            i = i + 1;
        }
        let ghost after_agents = plan@;
        let m = self.agent_processes.len();
        let mut j: usize = 0;
        while j < m
            invariant
                m == self.agent_processes@.len(),
                0 <= j <= m,
                plan@ == after_agents + Seq::new(
                    j as nat,
                    |k: int| ReleaseAction::KillChild(self.agent_processes@[k]),
                ),
            decreases m - j,
        {
            plan.push(ReleaseAction::KillChild(self.agent_processes[j]));
            proof {
                assert(plan@ =~= after_agents + Seq::new(
                    (j + 1) as nat,
                    |k: int| ReleaseAction::KillChild(self.agent_processes@[k]),
                ));
            }
            j = j + 1;
        }
        if let Some(s) = &self.scheduler {
            plan.push(ReleaseAction::DestroyScheduler(s.handle));
        }
        if let Some(h) = &self.controller {
            plan.push(ReleaseAction::DestroyController(*h));
        }
        if let Some(h) = &self.resource {
            plan.push(ReleaseAction::DestroyResource(*h));
        }
        proof {
            assert(plan@ =~= goal);
        }
        plan
    }
}

} // verus!
