//! Instance registry: the mapping from instance identifier to instance
//! runtime.
//!
//! The registry is the sole arbiter of handle lifetime: creation is
//! idempotent, destruction hands the removed runtime back so the embedder
//! can execute its release plan, and every mutation is a single call so an
//! embedder that serializes access (one lock around the registry) never
//! exposes a torn state. Engine queries and blocking work happen outside,
//! between calls.

use vstd::prelude::*;

use crate::errors::OrchestratorError;
use crate::instance::SchedulerBinding;
use crate::instance::InstanceRuntime;

verus! {

/// One registry slot: an instance identifier and the runtime it owns.
pub struct RegistryEntry {
    pub id: String,
    pub runtime: InstanceRuntime,
}

/// Whether some entry of `s` carries the identifier `id`.
pub open spec fn seq_contains_id(s: Seq<RegistryEntry>, id: Seq<char>) -> bool {
    exists|j: int| 0 <= j < s.len() && s[j].id@ == id
}

/// The runtime of the entry carrying `id` (meaningful only when the
/// identifiers of `s` are distinct and `id` is present).
pub open spec fn seq_runtime_at(s: Seq<RegistryEntry>, id: Seq<char>) -> InstanceRuntime {
    s[choose|j: int| 0 <= j < s.len() && s[j].id@ == id].runtime
}

/// No two entries of `s` carry the same identifier.
pub open spec fn seq_ids_distinct(s: Seq<RegistryEntry>) -> bool {
    forall|j: int, k: int|
        #![trigger s[j].id, s[k].id]
        0 <= j < s.len() && 0 <= k < s.len() && s[j].id@ == s[k].id@ ==> j == k
}

/// The entry at a position is the one its identifier finds.
proof fn lemma_runtime_at_index(s: Seq<RegistryEntry>, i: int)
    requires
        seq_ids_distinct(s),
        0 <= i < s.len(),
    ensures
        seq_contains_id(s, s[i].id@),
        seq_runtime_at(s, s[i].id@) == s[i].runtime,
{
    assert(seq_contains_id(s, s[i].id@));
    let j = choose|j: int| 0 <= j < s.len() && s[j].id@ == s[i].id@;
    assert(s[j].id@ == s[i].id@);
    assert(j == i);
}

/// The registry of instance runtimes, keyed by instance identifier.
#[verifier::ext_equal]
pub struct InstanceRegistry {
    entries: Vec<RegistryEntry>,
}

impl InstanceRegistry {
    /// The entries as a sequence (order is an implementation detail; the
    /// contracts speak of identifiers).
    pub closed spec fn entries_seq(&self) -> Seq<RegistryEntry> {
        self.entries@
    }

    /// Whether an instance with this identifier exists.
    pub open spec fn spec_contains(&self, id: Seq<char>) -> bool {
        seq_contains_id(self.entries_seq(), id)
    }

    /// The runtime of the instance with this identifier (meaningful only
    /// when it exists).
    pub open spec fn spec_at(&self, id: Seq<char>) -> InstanceRuntime {
        seq_runtime_at(self.entries_seq(), id)
    }

    /// Well-formedness: identifiers are distinct and every runtime is
    /// well-formed.
    pub open spec fn wf(&self) -> bool {
        &&& seq_ids_distinct(self.entries_seq())
        &&& forall|j: int|
            0 <= j < self.entries_seq().len() ==> (#[trigger] self.entries_seq()[j]).runtime.wf()
    }

    /// All instances other than `id` are exactly as they were in `prev`.
    pub open spec fn same_except(&self, prev: &Self, id: Seq<char>) -> bool {
        forall|k: Seq<char>|
            k != id ==> #[trigger] self.spec_contains(k) == prev.spec_contains(k) && (
            prev.spec_contains(k) ==> self.spec_at(k) == prev.spec_at(k))
    }

    /// Creates an empty registry.
    pub fn new() -> (r: InstanceRegistry)
        ensures
            r.wf(),
            forall|k: Seq<char>| !r.spec_contains(k),
    {
        InstanceRegistry { entries: Vec::new() }
    }

    /// Position of the entry carrying `id`, if any.
    fn index_of(&self, id: &String) -> (r: Option<usize>)
        requires
            self.wf(),
        ensures
            match r {
                Some(j) => {
                    &&& j < self.entries_seq().len()
                    &&& self.entries_seq()[j as int].id@ == id@
                    &&& self.spec_contains(id@)
                    &&& self.spec_at(id@) == self.entries_seq()[j as int].runtime
                },
                None => !self.spec_contains(id@),
            },
    {
        let n = self.entries.len();
        let mut i: usize = 0;
        while i < n
            invariant
                self.wf(),
                n == self.entries_seq().len(),
                0 <= i <= n,
                forall|m: int| 0 <= m < i ==> (#[trigger] self.entries_seq()[m]).id@ != id@,
            decreases n - i,
        {
            if self.entries[i].id.eq(id) {
                proof {
                    lemma_runtime_at_index(self.entries_seq(), i as int);
                }
                return Some(i);
            }
            i = i + 1;
        }
        None
    }

    /// Creates the instance if it does not exist yet; creating an existing
    /// identifier succeeds without side effects. Returns whether a new
    /// instance was created.
    pub fn create(&mut self, id: String) -> (created: bool)
        requires
            old(self).wf(),
        ensures
            final(self).wf(),
            created == !old(self).spec_contains(id@),
            final(self).spec_contains(id@),
            final(self).same_except(old(self), id@),
            final(self).spec_at(id@) == if created {
                final(self).spec_at(id@)
            } else {
                old(self).spec_at(id@)
            },
            created ==> final(self).spec_at(id@).is_empty(),
    {
        let ghost prev = self.entries@;
        match self.index_of(&id) {
            Some(_) => false,
            None => {
                let entry = RegistryEntry { id, runtime: InstanceRuntime::new() };
                self.entries.push(entry);
                proof {
                    lemma_push_effect(prev, self.entries@);
                }
                true
            },
        }
    }

    /// Removes the instance and hands its runtime back, so the embedder
    /// can run the release plan. Returns nothing when the identifier is
    /// unknown.
    pub fn destroy(&mut self, id: &String) -> (removed: Option<InstanceRuntime>)
        requires
            old(self).wf(),
        ensures
            final(self).wf(),
            !final(self).spec_contains(id@),
            final(self).same_except(old(self), id@),
            match removed {
                Some(rt) => old(self).spec_contains(id@) && rt == old(self).spec_at(id@)
                    && rt.wf(),
                None => !old(self).spec_contains(id@),
            },
    {
        let ghost prev = self.entries@;
        match self.index_of(id) {
            Some(j) => {
                let entry = self.entries.swap_remove(j);
                proof {
                    lemma_swap_remove_effect(prev, self.entries@, j as int);
                }
                Some(entry.runtime)
            },
            None => None,
        }
    }

    /// An exclusive borrow of the runtime at a known position.
    fn runtime_mut(&mut self, j: usize) -> (r: &mut InstanceRuntime)
        requires
            old(self).wf(),
            j < old(self).entries_seq().len(),
        ensures
            *r == old(self).entries_seq()[j as int].runtime,
            final(self).entries_seq().len() == old(self).entries_seq().len(),
            final(self).entries_seq() == old(self).entries_seq().update(
                j as int,
                RegistryEntry {
                    id: old(self).entries_seq()[j as int].id,
                    runtime: *final(r),
                },
            ),
    {
        let entry = &mut self.entries[j];
        proof {
            assert(old(self).entries_seq()[j as int] == (RegistryEntry {
                id: old(self).entries_seq()[j as int].id,
                runtime: old(self).entries_seq()[j as int].runtime,
            }));
        }
        &mut entry.runtime
    }

    /// Installs a newly created resource handle on the instance. Fails
    /// without side effects when the instance is unknown or already holds
    /// a resource.
    pub fn attach_resource(&mut self, id: &String, handle: u64) -> (r: Result<
        (),
        OrchestratorError,
    >)
        requires
            old(self).wf(),
        ensures
            final(self).wf(),
            final(self).same_except(old(self), id@),
            forall|k: Seq<char>|
                #[trigger] final(self).spec_contains(k) == old(self).spec_contains(k),
            r is Ok <==> (old(self).spec_contains(id@) && old(self).spec_at(id@).resource
                is None),
            r is Ok ==> final(self).spec_at(id@) == (InstanceRuntime {
                resource: Some(handle),
                ..old(self).spec_at(id@)
            }),
            r is Err ==> *final(self) == *old(self),
            r is Err ==> r->Err_0 == (if !old(self).spec_contains(id@) {
                OrchestratorError::InstanceNotFound
            } else {
                OrchestratorError::ResourceAlreadyLoaded
            }),
    {
        let ghost prev = self.entries@;
        match self.index_of(id) {
            None => Err(OrchestratorError::InstanceNotFound),
            Some(j) => {
                if self.entries[j].runtime.resource.is_some() {
                    return Err(OrchestratorError::ResourceAlreadyLoaded);
                }
                let rt = self.runtime_mut(j);
                rt.attach_resource(handle);
                proof {
                    lemma_update_runtime(prev, self.entries@, j as int);
                }
                Ok(())
            },
        }
    }

    /// Removes the instance's resource, and with it any scheduler bound to
    /// it. Returns the handles to destroy, scheduler first.
    pub fn clear_resource(&mut self, id: &String) -> (r: Result<
        (Option<u64>, Option<u64>),
        OrchestratorError,
    >)
        requires
            old(self).wf(),
        ensures
            final(self).wf(),
            final(self).same_except(old(self), id@),
            forall|k: Seq<char>|
                #[trigger] final(self).spec_contains(k) == old(self).spec_contains(k),
            r is Ok <==> old(self).spec_contains(id@),
            r is Ok ==> final(self).spec_at(id@) == (InstanceRuntime {
                resource: None,
                scheduler: None,
                ..old(self).spec_at(id@)
            }),
            r is Ok ==> r->Ok_0 == (
            match old(self).spec_at(id@).scheduler {
                Some(s) => Some(s.handle),
                None => None::<u64>,
            },
            old(self).spec_at(id@).resource,
            ),
            r is Err ==> *final(self) == *old(self) && r->Err_0
                == OrchestratorError::InstanceNotFound,
    {
        let ghost prev = self.entries@;
        match self.index_of(id) {
            None => Err(OrchestratorError::InstanceNotFound),
            Some(j) => {
                let rt = self.runtime_mut(j);
                let released = rt.clear_resource();
                proof {
                    lemma_update_runtime(prev, self.entries@, j as int);
                }
                Ok(released)
            },
        }
    }

    /// Installs a newly connected controller on the instance, replacing
    /// any previous one and invalidating any scheduler. Returns the
    /// handles to destroy, scheduler first.
    pub fn replace_controller(&mut self, id: &String, handle: u64) -> (r: Result<
        (Option<u64>, Option<u64>),
        OrchestratorError,
    >)
        requires
            old(self).wf(),
        ensures
            final(self).wf(),
            final(self).same_except(old(self), id@),
            forall|k: Seq<char>|
                #[trigger] final(self).spec_contains(k) == old(self).spec_contains(k),
            r is Ok <==> old(self).spec_contains(id@),
            r is Ok ==> final(self).spec_at(id@) == (InstanceRuntime {
                controller: Some(handle),
                scheduler: None,
                ..old(self).spec_at(id@)
            }),
            r is Ok ==> r->Ok_0 == (
            match old(self).spec_at(id@).scheduler {
                Some(s) => Some(s.handle),
                None => None::<u64>,
            },
            old(self).spec_at(id@).controller,
            ),
            r is Err ==> *final(self) == *old(self) && r->Err_0
                == OrchestratorError::InstanceNotFound,
    {
        let ghost prev = self.entries@;
        match self.index_of(id) {
            None => Err(OrchestratorError::InstanceNotFound),
            Some(j) => {
                let rt = self.runtime_mut(j);
                let released = rt.replace_controller(handle);
                proof {
                    lemma_update_runtime(prev, self.entries@, j as int);
                }
                Ok(released)
            },
        }
    }

    /// Binds a newly created scheduler to the instance's current resource
    /// and controller. Fails without side effects when the instance is
    /// unknown, a handle is missing, or a scheduler is already bound.
    pub fn bind_scheduler(&mut self, id: &String, handle: u64) -> (r: Result<
        (),
        OrchestratorError,
    >)
        requires
            old(self).wf(),
        ensures
            final(self).wf(),
            final(self).same_except(old(self), id@),
            forall|k: Seq<char>|
                #[trigger] final(self).spec_contains(k) == old(self).spec_contains(k),
            r is Ok <==> (old(self).spec_contains(id@) && old(self).spec_at(id@).resource is Some
                && old(self).spec_at(id@).controller is Some && old(self).spec_at(id@).scheduler
                is None),
            r is Ok ==> final(self).spec_at(id@) == (InstanceRuntime {
                scheduler: Some(
                    SchedulerBinding {
                        handle,
                        resource: old(self).spec_at(id@).resource->0,
                        controller: old(self).spec_at(id@).controller->0,
                    },
                ),
                ..old(self).spec_at(id@)
            }),
            r is Err ==> final(self).spec_contains(id@) == old(self).spec_contains(id@),
            r is Err && old(self).spec_contains(id@) ==> final(self).spec_at(id@) == old(
                self,
            ).spec_at(id@),
            r is Err ==> r->Err_0 == (if !old(self).spec_contains(id@) {
                OrchestratorError::InstanceNotFound
            } else if old(self).spec_at(id@).resource is None {
                OrchestratorError::ResourceNotLoaded
            } else if old(self).spec_at(id@).controller is None {
                OrchestratorError::ControllerNotConnected
            } else {
                OrchestratorError::SchedulerAlreadyBound
            }),
    {
        let ghost prev = self.entries@;
        match self.index_of(id) {
            None => Err(OrchestratorError::InstanceNotFound),
            Some(j) => {
                let rt = self.runtime_mut(j);
                let result = rt.bind_scheduler(handle);
                proof {
                    lemma_update_runtime(prev, self.entries@, j as int);
                    if result is Err {
                        assert(self.entries@[j as int] == prev[j as int]);
                    }
                }
                result
            },
        }
    }

    /// Appends a successfully launched agent batch to the instance, both
    /// collections as one unit.
    pub fn append_agent_batch(&mut self, id: &String, handles: Vec<u64>, processes: Vec<u32>)
        -> (r: Result<(), OrchestratorError>)
        requires
            old(self).wf(),
            handles@.len() == processes@.len(),
        ensures
            final(self).wf(),
            final(self).same_except(old(self), id@),
            forall|k: Seq<char>|
                #[trigger] final(self).spec_contains(k) == old(self).spec_contains(k),
            r is Ok <==> old(self).spec_contains(id@),
            r is Ok ==> {
                &&& final(self).spec_at(id@).agent_handles@ == old(self).spec_at(
                    id@,
                ).agent_handles@ + handles@
                &&& final(self).spec_at(id@).agent_processes@ == old(self).spec_at(
                    id@,
                ).agent_processes@ + processes@
                &&& final(self).spec_at(id@).resource == old(self).spec_at(id@).resource
                &&& final(self).spec_at(id@).controller == old(self).spec_at(id@).controller
                &&& final(self).spec_at(id@).scheduler == old(self).spec_at(id@).scheduler
                &&& final(self).spec_at(id@).task_ids == old(self).spec_at(id@).task_ids
            },
            r is Err ==> *final(self) == *old(self) && r->Err_0
                == OrchestratorError::InstanceNotFound,
    {
        let ghost prev = self.entries@;
        match self.index_of(id) {
            None => Err(OrchestratorError::InstanceNotFound),
            Some(j) => {
                let rt = self.runtime_mut(j);
                rt.append_agent_batch(handles, processes);
                proof {
                    lemma_update_runtime(prev, self.entries@, j as int);
                }
                Ok(())
            },
        }
    }

    /// Takes the instance's whole agent batch out, as one unit, for the
    /// shutdown coordinator to wind down.
    pub fn take_agents(&mut self, id: &String) -> (r: Result<
        (Vec<u64>, Vec<u32>),
        OrchestratorError,
    >)
        requires
            old(self).wf(),
        ensures
            final(self).wf(),
            final(self).same_except(old(self), id@),
            forall|k: Seq<char>|
                #[trigger] final(self).spec_contains(k) == old(self).spec_contains(k),
            r is Ok <==> old(self).spec_contains(id@),
            r is Ok ==> {
                &&& r->Ok_0.0@ == old(self).spec_at(id@).agent_handles@
                &&& r->Ok_0.1@ == old(self).spec_at(id@).agent_processes@
                &&& r->Ok_0.0@.len() == r->Ok_0.1@.len()
                &&& final(self).spec_at(id@).agent_handles@.len() == 0
                &&& final(self).spec_at(id@).agent_processes@.len() == 0
                &&& final(self).spec_at(id@).resource == old(self).spec_at(id@).resource
                &&& final(self).spec_at(id@).controller == old(self).spec_at(id@).controller
                &&& final(self).spec_at(id@).scheduler == old(self).spec_at(id@).scheduler
                &&& final(self).spec_at(id@).task_ids == old(self).spec_at(id@).task_ids
            },
            r is Err ==> *final(self) == *old(self) && r->Err_0
                == OrchestratorError::InstanceNotFound,
    {
        let ghost prev = self.entries@;
        match self.index_of(id) {
            None => Err(OrchestratorError::InstanceNotFound),
            Some(j) => {
                let rt = self.runtime_mut(j);
                let taken = rt.take_agents();
                proof {
                    lemma_update_runtime(prev, self.entries@, j as int);
                }
                Ok(taken)
            },
        }
    }

    /// Replaces the instance's cached task identifiers.
    pub fn set_task_ids(&mut self, id: &String, ids: Vec<i64>) -> (r: Result<
        (),
        OrchestratorError,
    >)
        requires
            old(self).wf(),
        ensures
            final(self).wf(),
            final(self).same_except(old(self), id@),
            forall|k: Seq<char>|
                #[trigger] final(self).spec_contains(k) == old(self).spec_contains(k),
            r is Ok <==> old(self).spec_contains(id@),
            r is Ok ==> final(self).spec_at(id@) == (InstanceRuntime {
                task_ids: ids,
                ..old(self).spec_at(id@)
            }),
            r is Err ==> *final(self) == *old(self) && r->Err_0
                == OrchestratorError::InstanceNotFound,
    {
        let ghost prev = self.entries@;
        match self.index_of(id) {
            None => Err(OrchestratorError::InstanceNotFound),
            Some(j) => {
                let rt = self.runtime_mut(j);
                rt.set_task_ids(ids);
                proof {
                    lemma_update_runtime(prev, self.entries@, j as int);
                }
                Ok(())
            },
        }
    }

    /// Forgets the instance's cached task identifiers, as the stop path
    /// does.
    pub fn clear_task_ids(&mut self, id: &String) -> (r: Result<(), OrchestratorError>)
        requires
            old(self).wf(),
        ensures
            final(self).wf(),
            final(self).same_except(old(self), id@),
            forall|k: Seq<char>|
                #[trigger] final(self).spec_contains(k) == old(self).spec_contains(k),
            r is Ok <==> old(self).spec_contains(id@),
            r is Ok ==> {
                &&& final(self).spec_at(id@).task_ids@.len() == 0
                &&& final(self).spec_at(id@).resource == old(self).spec_at(id@).resource
                &&& final(self).spec_at(id@).controller == old(self).spec_at(id@).controller
                &&& final(self).spec_at(id@).scheduler == old(self).spec_at(id@).scheduler
                &&& final(self).spec_at(id@).agent_handles == old(self).spec_at(
                    id@,
                ).agent_handles
                &&& final(self).spec_at(id@).agent_processes == old(self).spec_at(
                    id@,
                ).agent_processes
            },
            r is Err ==> *final(self) == *old(self) && r->Err_0
                == OrchestratorError::InstanceNotFound,
    {
        let ghost prev = self.entries@;
        match self.index_of(id) {
            None => Err(OrchestratorError::InstanceNotFound),
            Some(j) => {
                let rt = self.runtime_mut(j);
                rt.clear_task_ids();
                proof {
                    lemma_update_runtime(prev, self.entries@, j as int);
                }
                Ok(())
            },
        }
    }

    /// Records one more submitted task identifier on the instance.
    pub fn push_task_id(&mut self, id: &String, task_id: i64) -> (r: Result<
        (),
        OrchestratorError,
    >)
        requires
            old(self).wf(),
        ensures
            final(self).wf(),
            final(self).same_except(old(self), id@),
            forall|k: Seq<char>|
                #[trigger] final(self).spec_contains(k) == old(self).spec_contains(k),
            r is Ok <==> old(self).spec_contains(id@),
            r is Ok ==> {
                &&& final(self).spec_at(id@).task_ids@ == old(self).spec_at(
                    id@,
                ).task_ids@.push(task_id)
                &&& final(self).spec_at(id@).resource == old(self).spec_at(id@).resource
                &&& final(self).spec_at(id@).controller == old(self).spec_at(id@).controller
                &&& final(self).spec_at(id@).scheduler == old(self).spec_at(id@).scheduler
                &&& final(self).spec_at(id@).agent_handles == old(self).spec_at(
                    id@,
                ).agent_handles
                &&& final(self).spec_at(id@).agent_processes == old(self).spec_at(
                    id@,
                ).agent_processes
            },
            r is Err ==> *final(self) == *old(self) && r->Err_0
                == OrchestratorError::InstanceNotFound,
    {
        let ghost prev = self.entries@;
        match self.index_of(id) {
            None => Err(OrchestratorError::InstanceNotFound),
            Some(j) => {
                let rt = self.runtime_mut(j);
                rt.push_task_id(task_id);
                proof {
                    lemma_update_runtime(prev, self.entries@, j as int);
                }
                Ok(())
            },
        }
    }

    /// A shared view of the instance's runtime, if it exists.
    pub fn get(&self, id: &String) -> (r: Option<&InstanceRuntime>)
        requires
            self.wf(),
        ensures
            match r {
                Some(rt) => self.spec_contains(id@) && *rt == self.spec_at(id@),
                None => !self.spec_contains(id@),
            },
    {
        match self.index_of(id) {
            Some(j) => Some(&self.entries[j].runtime),
            None => None,
        }
    }
}

/// Law: no observer of a well-formed registry ever sees an instance's
/// two agent collections at different lengths. They are appended as one
/// unit and taken as one unit, and every operation preserves the
/// alignment.
pub proof fn lemma_agent_collections_aligned(reg: &InstanceRegistry, id: Seq<char>)
    requires
        reg.wf(),
        reg.spec_contains(id),
    ensures
        reg.spec_at(id).agent_handles@.len() == reg.spec_at(id).agent_processes@.len(),
{
    let j = choose|j: int|
        0 <= j < reg.entries_seq().len() && reg.entries_seq()[j].id@ == id;
    assert(reg.entries_seq()[j].runtime.wf());
}

/// After replacing the runtime at position `j` (same identifier): that
/// identifier now finds the new runtime, everything else is untouched.
proof fn lemma_update_runtime(prev: Seq<RegistryEntry>, cur: Seq<RegistryEntry>, j: int)
    requires
        seq_ids_distinct(prev),
        0 <= j < prev.len(),
        cur == prev.update(j, RegistryEntry { id: prev[j].id, runtime: cur[j].runtime }),
    ensures
        seq_ids_distinct(cur),
        forall|k: Seq<char>| #[trigger] seq_contains_id(cur, k) == seq_contains_id(prev, k),
        forall|k: Seq<char>|
            k != prev[j].id@ && seq_contains_id(prev, k) ==> #[trigger] seq_runtime_at(cur, k)
                == seq_runtime_at(prev, k),
        seq_runtime_at(cur, prev[j].id@) == cur[j].runtime,
{
    assert(forall|m: int| 0 <= m < cur.len() ==> (#[trigger] cur[m]).id == prev[m].id);
    assert forall|j1: int, k1: int|
        #![trigger cur[j1].id, cur[k1].id]
        0 <= j1 < cur.len() && 0 <= k1 < cur.len() && cur[j1].id@ == cur[k1].id@ implies j1
        == k1 by {
        assert(prev[j1].id@ == prev[k1].id@);
    }
    assert(seq_ids_distinct(cur));
    assert forall|k: Seq<char>| #[trigger] seq_contains_id(cur, k) == seq_contains_id(
        prev,
        k,
    ) by {
        if seq_contains_id(cur, k) {
            let m = choose|m: int| 0 <= m < cur.len() && cur[m].id@ == k;
            assert(prev[m].id@ == k);
            assert(seq_contains_id(prev, k));
        }
        if seq_contains_id(prev, k) {
            let m = choose|m: int| 0 <= m < prev.len() && prev[m].id@ == k;
            assert(cur[m].id@ == k);
            assert(seq_contains_id(cur, k));
        }
    }
    assert forall|k: Seq<char>| k != prev[j].id@ && seq_contains_id(prev, k)
        implies #[trigger] seq_runtime_at(cur, k) == seq_runtime_at(prev, k) by {
        let m = choose|m: int| 0 <= m < prev.len() && prev[m].id@ == k;
        lemma_runtime_at_index(prev, m);
        assert(m != j);
        assert(cur[m] == prev[m]);
        lemma_runtime_at_index(cur, m);
    }
    lemma_runtime_at_index(cur, j);
}

/// After pushing one entry: its identifier is present, everything else is
/// untouched, and distinctness is kept when the identifier was new.
proof fn lemma_push_effect(prev: Seq<RegistryEntry>, cur: Seq<RegistryEntry>)
    requires
        seq_ids_distinct(prev),
        cur.len() == prev.len() + 1,
        forall|j: int| 0 <= j < prev.len() ==> cur[j] == prev[j],
        !seq_contains_id(prev, cur[prev.len() as int].id@),
    ensures
        seq_ids_distinct(cur),
        seq_contains_id(cur, cur[prev.len() as int].id@),
        seq_runtime_at(cur, cur[prev.len() as int].id@) == cur[prev.len() as int].runtime,
        forall|k: Seq<char>|
            k != cur[prev.len() as int].id@ ==> #[trigger] seq_contains_id(cur, k)
                == seq_contains_id(prev, k),
        forall|k: Seq<char>|
            k != cur[prev.len() as int].id@ && seq_contains_id(prev, k)
                ==> #[trigger] seq_runtime_at(cur, k) == seq_runtime_at(prev, k),
{
    let n = prev.len() as int;
    let new_id = cur[n].id@;
    assert forall|j: int, k: int|
        #![trigger cur[j].id, cur[k].id]
        0 <= j < cur.len() && 0 <= k < cur.len() && cur[j].id@ == cur[k].id@ implies j == k by {
        if j < n && k < n {
            assert(cur[j] == prev[j]);
            assert(cur[k] == prev[k]);
        } else if j == n && k < n {
            assert(cur[k] == prev[k]);
            assert(prev[k].id@ == new_id);
            assert(seq_contains_id(prev, new_id));
        } else if k == n && j < n {
            assert(cur[j] == prev[j]);
            assert(prev[j].id@ == new_id);
            assert(seq_contains_id(prev, new_id));
        }
    }
    assert(seq_ids_distinct(cur));
    lemma_runtime_at_index(cur, n);
    assert forall|k: Seq<char>| k != new_id implies #[trigger] seq_contains_id(cur, k)
        == seq_contains_id(prev, k) by {
        if seq_contains_id(cur, k) {
            let m = choose|m: int| 0 <= m < cur.len() && cur[m].id@ == k;
            assert(m != n);
            assert(cur[m] == prev[m]);
            assert(prev[m].id@ == k);
            assert(seq_contains_id(prev, k));
        }
        if seq_contains_id(prev, k) {
            let m = choose|m: int| 0 <= m < prev.len() && prev[m].id@ == k;
            assert(cur[m] == prev[m]);
            assert(cur[m].id@ == k);
            assert(seq_contains_id(cur, k));
        }
    }
    assert forall|k: Seq<char>| k != new_id && seq_contains_id(prev, k)
        implies #[trigger] seq_runtime_at(cur, k) == seq_runtime_at(prev, k) by {
        let m = choose|m: int| 0 <= m < prev.len() && prev[m].id@ == k;
        assert(cur[m] == prev[m]);
        lemma_runtime_at_index(prev, m);
        lemma_runtime_at_index(cur, m);
    }
}

/// After swap-removing the entry at `j`: its identifier is gone,
/// everything else is untouched, and distinctness is kept.
proof fn lemma_swap_remove_effect(prev: Seq<RegistryEntry>, cur: Seq<RegistryEntry>, j: int)
    requires
        seq_ids_distinct(prev),
        0 <= j < prev.len(),
        cur =~= prev.update(j, prev[prev.len() - 1]).drop_last(),
    ensures
        seq_ids_distinct(cur),
        !seq_contains_id(cur, prev[j].id@),
        forall|k: Seq<char>|
            k != prev[j].id@ ==> #[trigger] seq_contains_id(cur, k) == seq_contains_id(prev, k),
        forall|k: Seq<char>|
            k != prev[j].id@ && seq_contains_id(prev, k) ==> #[trigger] seq_runtime_at(cur, k)
                == seq_runtime_at(prev, k),
{
    let n = prev.len() as int;
    let gone = prev[j].id@;
    assert forall|m: int| 0 <= m < cur.len() implies (#[trigger] cur[m]) == (if m == j {
        prev[n - 1]
    } else {
        prev[m]
    }) by {}
    assert forall|m: int| 0 <= m < cur.len() implies #[trigger] cur[m].id@ != gone by {
        if m == j {
            assert(cur[m] == prev[n - 1]);
            if prev[n - 1].id@ == gone {
                assert(prev[n - 1].id@ == prev[j].id@);
                assert(n - 1 == j);
            }
        } else {
            assert(cur[m] == prev[m]);
            if prev[m].id@ == gone {
                assert(m == j);
            }
        }
    }
    assert forall|j1: int, k1: int|
        #![trigger cur[j1].id, cur[k1].id]
        0 <= j1 < cur.len() && 0 <= k1 < cur.len() && cur[j1].id@ == cur[k1].id@ implies j1
        == k1 by {
        let o1: int = if j1 == j {
            n - 1
        } else {
            j1
        };
        let o2: int = if k1 == j {
            n - 1
        } else {
            k1
        };
        assert(cur[j1] == prev[o1]);
        assert(cur[k1] == prev[o2]);
        assert(prev[o1].id@ == prev[o2].id@);
        assert(o1 == o2);
    }
    assert(seq_ids_distinct(cur));
    assert forall|k: Seq<char>| k != gone implies #[trigger] seq_contains_id(cur, k)
        == seq_contains_id(prev, k) by {
        if seq_contains_id(cur, k) {
            let m = choose|m: int| 0 <= m < cur.len() && cur[m].id@ == k;
            if m == j {
                assert(prev[n - 1].id@ == k);
            } else {
                assert(prev[m].id@ == k);
            }
            assert(seq_contains_id(prev, k));
        }
        if seq_contains_id(prev, k) {
            let m = choose|m: int| 0 <= m < prev.len() && prev[m].id@ == k;
            assert(m != j);
            if m == n - 1 {
                assert(j < n - 1);
                assert(cur[j].id@ == k);
            } else {
                assert(cur[m].id@ == k);
            }
            assert(seq_contains_id(cur, k));
        }
    }
    assert forall|k: Seq<char>| k != gone && seq_contains_id(prev, k)
        implies #[trigger] seq_runtime_at(cur, k) == seq_runtime_at(prev, k) by {
        let m = choose|m: int| 0 <= m < prev.len() && prev[m].id@ == k;
        lemma_runtime_at_index(prev, m);
        assert(m != j);
        if m == n - 1 {
            assert(j < n - 1);
            assert(cur[j] == prev[n - 1]);
            lemma_runtime_at_index(cur, j);
        } else {
            assert(cur[m] == prev[m]);
            lemma_runtime_at_index(cur, m);
        }
    }
}

} // verus!
