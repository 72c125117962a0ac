//! Multi-agent orchestrator: drives a batch of agent launches with an
//! all-or-nothing contract.
//!
//! Launches run strictly in index order. The accumulator collects the
//! successful prefix; on the first failure it hands back a rollback plan
//! that disconnects every already-started agent and kills and reaps every
//! already-started child, and the batch returns a single error naming the
//! failing index. Only a fully successful batch is ever appended to the
//! instance, both collections as one unit.

use vstd::prelude::*;

use crate::errors::{LaunchFailure, OrchestratorError};
use crate::registry::InstanceRegistry;

verus! {

/// What one agent launch attempt came to: an engine-side agent handle
/// paired with the child's process identifier, or the failure that ended
/// the attempt.
#[derive(Clone, Copy, Debug, PartialEq, Eq, Structural)]
pub enum LaunchOutcome {
    Launched(u64, u32),
    Failed(LaunchFailure),
}

/// One step of undoing a partially started batch. Disconnects come first,
/// in launch order, then each child is killed and reaped (no zombies).
#[derive(Clone, Copy, Debug, PartialEq, Eq, Structural)]
pub enum RollbackAction {
    /// Best-effort disconnect of this agent handle; errors are ignored.
    DisconnectAgent(u64),
    /// Kill this child process and wait for it, so it is reaped.
    KillAndReap(u32),
}

/// The agent handles of the first `k` outcomes (meaningful when those are
/// all `Launched`).
pub open spec fn prefix_handles(outs: Seq<LaunchOutcome>, k: int) -> Seq<u64> {
    Seq::new(k as nat, |i: int| outs[i]->Launched_0)
}

/// The child process identifiers of the first `k` outcomes.
pub open spec fn prefix_pids(outs: Seq<LaunchOutcome>, k: int) -> Seq<u32> {
    Seq::new(k as nat, |i: int| outs[i]->Launched_1)
}

/// The rollback plan for a started prefix: disconnect every agent handle
/// in order, then kill and reap every child in order.
pub open spec fn spec_rollback(handles: Seq<u64>, pids: Seq<u32>) -> Seq<RollbackAction> {
    Seq::new(handles.len(), |i: int| RollbackAction::DisconnectAgent(handles[i])) + Seq::new(
        pids.len(),
        |i: int| RollbackAction::KillAndReap(pids[i]),
    )
}

/// The accumulators of one in-progress agent batch: the successful prefix,
/// index-aligned.
pub struct BatchAccumulator {
    pub handles: Vec<u64>,
    pub processes: Vec<u32>,
}

impl BatchAccumulator {
    /// The accumulators stay index-aligned.
    pub open spec fn wf(&self) -> bool {
        self.handles@.len() == self.processes@.len()
    }

    /// Starts an empty batch.
    pub fn new() -> (r: BatchAccumulator)
        ensures
            r.wf(),
            r.handles@.len() == 0,
            r.processes@.len() == 0,
    {
        BatchAccumulator { handles: Vec::new(), processes: Vec::new() }
    }

    /// Records one successfully launched agent, both halves together.
    pub fn push_success(&mut self, handle: u64, pid: u32)
        requires
            old(self).wf(),
        ensures
            final(self).wf(),
            final(self).handles@ == old(self).handles@.push(handle),
            final(self).processes@ == old(self).processes@.push(pid),
    {
        self.handles.push(handle);
        self.processes.push(pid);
    }

    /// The first failure ends the batch: returns the rollback plan for the
    /// successful prefix and the single aggregated error naming the failing
    /// index and its cause. The caller executes the plan before reporting
    /// the error, so no started agent outlives the failed batch.
    pub fn fail(self, index: usize, cause: LaunchFailure) -> (r: (
        Vec<RollbackAction>,
        OrchestratorError,
    ))
        requires
            self.wf(),
        ensures
            r.0@ == spec_rollback(self.handles@, self.processes@),
            r.1 == (OrchestratorError::AgentLaunchFailed { index, cause }),
    {
        let plan = rollback_plan(&self.handles, &self.processes);
        (plan, OrchestratorError::AgentLaunchFailed { index, cause })
    }
}

/// Builds the rollback plan for a started prefix: every disconnect, in
/// order, then every kill-and-reap, in order.
pub fn rollback_plan(handles: &Vec<u64>, pids: &Vec<u32>) -> (plan: Vec<RollbackAction>)
    ensures
        plan@ == spec_rollback(handles@, pids@),
{
    let mut plan: Vec<RollbackAction> = Vec::new();
    let n = handles.len();
    let mut i: usize = 0;
    while i < n
        invariant
            n == handles@.len(),
            0 <= i <= n,
            plan@ == Seq::new(i as nat, |k: int| RollbackAction::DisconnectAgent(handles@[k])),
        decreases n - i,
    {
        plan.push(RollbackAction::DisconnectAgent(handles[i]));
        proof {
            assert(plan@ =~= Seq::new(
                (i + 1) as nat,
                |k: int| RollbackAction::DisconnectAgent(handles@[k]),
            ));
        }
        i = i + 1;
    }
    let ghost disconnects = plan@;
    let m = pids.len();
    let mut j: usize = 0;
    while j < m
        invariant
            m == pids@.len(),
            0 <= j <= m,
            plan@ == disconnects + Seq::new(j as nat, |k: int| RollbackAction::KillAndReap(pids@[k])),
        decreases m - j,
    {
        plan.push(RollbackAction::KillAndReap(pids[j]));
        proof {
            assert(plan@ =~= disconnects + Seq::new(
                (j + 1) as nat,
                |k: int| RollbackAction::KillAndReap(pids@[k]),
            ));
        }
        j = j + 1;
    }
    proof {
        assert(plan@ =~= spec_rollback(handles@, pids@));
    }
    plan
}

/// Drives one whole batch against the registry, given the outcome the
/// launcher reported for each agent, in index order.
///
/// On full success the two accumulators are appended to the instance as
/// one unit. On the first failure — or when the instance has vanished
/// before the commit — nothing in the registry changes and the caller
/// receives the rollback plan for everything that was started, to execute
/// before reporting the error.
pub fn apply_batch_outcomes(
    reg: &mut InstanceRegistry,
    id: &String,
    outcomes: &Vec<LaunchOutcome>,
) -> (r: Result<(), (Vec<RollbackAction>, OrchestratorError)>)
    requires
        old(reg).wf(),
    ensures
        final(reg).wf(),
        final(reg).same_except(old(reg), id@),
        forall|k: Seq<char>| #[trigger] final(reg).spec_contains(k) == old(reg).spec_contains(k),
        r is Ok ==> {
            &&& forall|i: int|
                0 <= i < outcomes@.len() ==> (#[trigger] outcomes@[i]) is Launched
            &&& old(reg).spec_contains(id@)
            &&& final(reg).spec_at(id@).agent_handles@ == old(reg).spec_at(id@).agent_handles@
                + prefix_handles(outcomes@, outcomes@.len() as int)
            &&& final(reg).spec_at(id@).agent_processes@ == old(reg).spec_at(
                id@,
            ).agent_processes@ + prefix_pids(outcomes@, outcomes@.len() as int)
            &&& final(reg).spec_at(id@).agent_handles@.len() == final(reg).spec_at(
                id@,
            ).agent_processes@.len()
            &&& final(reg).spec_at(id@).resource == old(reg).spec_at(id@).resource
            &&& final(reg).spec_at(id@).controller == old(reg).spec_at(id@).controller
            &&& final(reg).spec_at(id@).scheduler == old(reg).spec_at(id@).scheduler
            &&& final(reg).spec_at(id@).task_ids == old(reg).spec_at(id@).task_ids
        },
        r is Err ==> *final(reg) == *old(reg),
        r is Err ==> (r->Err_0.1 matches OrchestratorError::AgentLaunchFailed { index, cause }
            ==> {
            &&& 0 <= index < outcomes@.len()
            &&& outcomes@[index as int] == LaunchOutcome::Failed(cause)
            &&& forall|i: int| 0 <= i < index ==> (#[trigger] outcomes@[i]) is Launched
            &&& r->Err_0.0@ == spec_rollback(
                prefix_handles(outcomes@, index as int),
                prefix_pids(outcomes@, index as int),
            )
        }),
        r is Err ==> (!(r->Err_0.1 matches OrchestratorError::AgentLaunchFailed { .. }) ==> {
            &&& r->Err_0.1 == OrchestratorError::InstanceNotFound
            &&& !old(reg).spec_contains(id@)
            &&& forall|i: int|
                0 <= i < outcomes@.len() ==> (#[trigger] outcomes@[i]) is Launched
            &&& r->Err_0.0@ == spec_rollback(
                prefix_handles(outcomes@, outcomes@.len() as int),
                prefix_pids(outcomes@, outcomes@.len() as int),
            )
        }),
{
    let mut acc = BatchAccumulator::new();
    let n = outcomes.len();
    let mut i: usize = 0;
    while i < n
        invariant
            reg.wf(),
            *reg == *old(reg),
            n == outcomes@.len(),
            0 <= i <= n,
            acc.wf(),
            acc.handles@ == prefix_handles(outcomes@, i as int),
            acc.processes@ == prefix_pids(outcomes@, i as int),
            forall|k: int| 0 <= k < i ==> (#[trigger] outcomes@[k]) is Launched,
        decreases n - i,
    {
        match outcomes[i] {
            LaunchOutcome::Launched(handle, pid) => {
                acc.push_success(handle, pid);
                proof {
                    assert(acc.handles@ =~= prefix_handles(outcomes@, i + 1));
                    assert(acc.processes@ =~= prefix_pids(outcomes@, i + 1));
                }
            },
            LaunchOutcome::Failed(cause) => {
                return Err(acc.fail(i, cause));
            },
        }
        i = i + 1;
    }
    let plan = rollback_plan(&acc.handles, &acc.processes);
    match reg.append_agent_batch(id, acc.handles, acc.processes) {
        Ok(()) => Ok(()),
        Err(e) => Err((plan, e)),
    }
}

/// Law: a failed batch leaves no partial state. If every launch before
/// `index` succeeded and launch `index` failed, the orchestrator's error
/// carries that index and its cause, its rollback plan disconnects exactly
/// the agents of the successful prefix, in launch order, and then kills
/// and reaps exactly their children, in the same order — and the registry
/// is left untouched, so the instance's agent collections are unchanged.
pub proof fn lemma_rollback_covers_started_prefix(outs: Seq<LaunchOutcome>, index: int)
    requires
        0 <= index <= outs.len(),
    ensures
        spec_rollback(prefix_handles(outs, index), prefix_pids(outs, index)).len() == 2 * index,
        forall|i: int|
            0 <= i < index ==> spec_rollback(prefix_handles(outs, index), prefix_pids(outs, index))[i]
                == RollbackAction::DisconnectAgent(outs[i]->Launched_0),
        forall|i: int|
            0 <= i < index ==> spec_rollback(prefix_handles(outs, index), prefix_pids(outs, index)).subrange(
                index,
                2 * index,
            )[i] == RollbackAction::KillAndReap(outs[i]->Launched_1),
{
}

} // verus!
