//! Task submission flow: from a ready instance to a cached list of task
//! identifiers.
//!
//! Per instance the scheduler goes one way: none, then bound to the
//! current resource and controller, then submitting. The readiness checks
//! run before anything is posted: an instance that is missing a handle, or
//! whose scheduler reports itself uninitialized, fails fast and zero
//! tasks are handed out for posting. Tasks are posted one at a time in
//! input order; a single entry failing to post is skipped and does not
//! abort the rest — unlike the agent batch, partial success is
//! acceptable here. The identifiers of what was submitted are cached on
//! the instance, in order.

use vstd::prelude::*;

use crate::errors::OrchestratorError;
use crate::instance::InstanceRuntime;
use crate::registry::InstanceRegistry;

verus! {

/// One task to submit: a pipeline entry name and the serialized overrides
/// to apply to it.
pub struct TaskConfig {
    pub entry: String,
    pub pipeline_override: String,
}

/// The task identifiers of the entries that posted successfully, in input
/// order.
pub open spec fn collect_ids(rs: Seq<Option<i64>>) -> Seq<i64>
    decreases rs.len(),
{
    if rs.len() == 0 {
        Seq::<i64>::empty()
    } else {
        collect_ids(rs.drop_last()) + (if rs.last() is Some {
            seq![rs.last()->0]
        } else {
            Seq::<i64>::empty()
        })
    }
}

/// The input positions of the entries that failed to post, in input order.
pub open spec fn spec_skipped(rs: Seq<Option<i64>>) -> Seq<usize>
    decreases rs.len(),
{
    if rs.len() == 0 {
        Seq::<usize>::empty()
    } else {
        spec_skipped(rs.drop_last()) + (if rs.last() is None {
            seq![(rs.len() - 1) as usize]
        } else {
            Seq::<usize>::empty()
        })
    }
}

/// Whether the instance is ready to submit: every handle present and the
/// scheduler initialized.
pub open spec fn ready_to_submit(rt: InstanceRuntime, scheduler_inited: bool) -> bool {
    &&& rt.resource is Some
    &&& rt.controller is Some
    &&& rt.scheduler is Some
    &&& scheduler_inited
}

/// The configuration error that stops a submission, in the order the
/// checks run.
pub open spec fn submission_entry_error(
    contains: bool,
    rt: InstanceRuntime,
    scheduler_inited: bool,
) -> OrchestratorError {
    if !contains {
        OrchestratorError::InstanceNotFound
    } else if rt.resource is None {
        OrchestratorError::ResourceNotLoaded
    } else if rt.controller is None {
        OrchestratorError::ControllerNotConnected
    } else if rt.scheduler is None {
        OrchestratorError::SchedulerNotCreated
    } else {
        OrchestratorError::SchedulerNotInitialized
    }
}

/// The entry check of the submission flow. `scheduler_inited` is what the engine
/// answered when asked whether the instance's scheduler is initialized
/// (its value is ignored while there is no scheduler to ask about).
///
/// Returns the scheduler handle to post on only when the instance exists,
/// resource and controller are present, a scheduler is bound and it is
/// initialized. Otherwise the matching configuration error comes back,
/// nothing is posted anywhere, and the registry is untouched: zero tasks
/// are submitted when the checks fail.
pub fn begin_submission(reg: &InstanceRegistry, id: &String, scheduler_inited: bool) -> (r:
    Result<u64, OrchestratorError>)
    requires
        reg.wf(),
    ensures
        r is Ok <==> (reg.spec_contains(id@) && ready_to_submit(
            reg.spec_at(id@),
            scheduler_inited,
        )),
        r is Ok ==> r->Ok_0 == reg.spec_at(id@).scheduler->0.handle,
        r is Err ==> r->Err_0 == submission_entry_error(
            reg.spec_contains(id@),
            reg.spec_at(id@),
            scheduler_inited,
        ),
{
    let rt = match reg.get(id) {
        Some(rt) => rt,
        None => {
            return Err(OrchestratorError::InstanceNotFound);
        },
    };
    if rt.resource.is_none() {
        return Err(OrchestratorError::ResourceNotLoaded);
    }
    if rt.controller.is_none() {
        return Err(OrchestratorError::ControllerNotConnected);
    }
    let scheduler = match &rt.scheduler {
        Some(s) => s,
        None => {
            return Err(OrchestratorError::SchedulerNotCreated);
        },
    };
    if !scheduler_inited {
        return Err(OrchestratorError::SchedulerNotInitialized);
    }
    Ok(scheduler.handle)
}

/// Collects what the engine answered for each posted entry, in input
/// order: the identifiers of the successful posts, and the positions of
/// the entries that were skipped because their post failed.
pub fn collect_post_results(results: &Vec<Option<i64>>) -> (r: (Vec<i64>, Vec<usize>))
    ensures
        r.0@ == collect_ids(results@),
        r.1@ == spec_skipped(results@),
{
    let mut ids: Vec<i64> = Vec::new();
    let mut skipped: Vec<usize> = Vec::new();
    let n = results.len();
    let mut i: usize = 0;
    while i < n
        invariant
            n == results@.len(),
            0 <= i <= n,
            ids@ == collect_ids(results@.take(i as int)),
            skipped@ == spec_skipped(results@.take(i as int)),
        decreases n - i,
    {
        proof {
            assert(results@.take(i + 1).drop_last() =~= results@.take(i as int));
            assert(results@.take(i + 1).last() == results@[i as int]);
        }
        match results[i] {
            Some(task_id) => {
                ids.push(task_id);
                proof {
                    assert(ids@ =~= collect_ids(results@.take(i + 1)));
                    assert(skipped@ =~= spec_skipped(results@.take(i + 1)));
                }
            },
            None => {
                skipped.push(i);
                proof {
                    assert(ids@ =~= collect_ids(results@.take(i + 1)));
                    assert(skipped@ =~= spec_skipped(results@.take(i + 1)));
                }
            },
        }
        i = i + 1;
    }
    proof {
        assert(results@.take(n as int) =~= results@);
    }
    (ids, skipped)
}

/// Records the outcome of a whole submission on the instance: the
/// identifiers of the successful posts replace the cached list, in input
/// order, and the skipped positions come back for the embedder's log.
pub fn record_submission(
    reg: &mut InstanceRegistry,
    id: &String,
    results: &Vec<Option<i64>>,
) -> (r: Result<(Vec<i64>, Vec<usize>), OrchestratorError>)
    requires
        old(reg).wf(),
    ensures
        final(reg).wf(),
        final(reg).same_except(old(reg), id@),
        forall|k: Seq<char>| #[trigger] final(reg).spec_contains(k) == old(reg).spec_contains(k),
        r is Ok <==> old(reg).spec_contains(id@),
        r is Ok ==> {
            &&& r->Ok_0.0@ == collect_ids(results@)
            &&& r->Ok_0.1@ == spec_skipped(results@)
            &&& final(reg).spec_at(id@).task_ids@ == collect_ids(results@)
            &&& final(reg).spec_at(id@).resource == old(reg).spec_at(id@).resource
            &&& final(reg).spec_at(id@).controller == old(reg).spec_at(id@).controller
            &&& final(reg).spec_at(id@).scheduler == old(reg).spec_at(id@).scheduler
            &&& final(reg).spec_at(id@).agent_handles == old(reg).spec_at(id@).agent_handles
            &&& final(reg).spec_at(id@).agent_processes == old(reg).spec_at(
                id@,
            ).agent_processes
        },
        r is Err ==> *final(reg) == *old(reg) && r->Err_0 == OrchestratorError::InstanceNotFound,
{
    let (ids, skipped) = collect_post_results(results);
    let cached = clone_ids(&ids);
    match reg.set_task_ids(id, cached) {
        Ok(()) => Ok((ids, skipped)),
        Err(e) => Err(e),
    }
}

/// Copies a list of task identifiers.
fn clone_ids(ids: &Vec<i64>) -> (r: Vec<i64>)
    ensures
        r@ == ids@,
{
    let mut out: Vec<i64> = Vec::new();
    let n = ids.len();
    let mut i: usize = 0;
    while i < n
        invariant
            n == ids@.len(),
            0 <= i <= n,
            out@ == ids@.take(i as int),
        decreases n - i,
    {
        out.push(ids[i]);
        proof {
            assert(out@ =~= ids@.take(i + 1));
        }
        i = i + 1;
    }
    proof {
        assert(ids@.take(n as int) =~= ids@);
    }
    out
}

/// Law: a failed readiness check submits nothing. Whenever the instance is
/// missing a handle or the scheduler reports itself uninitialized, the
/// entry check returns the matching configuration error, never a
/// scheduler to post on.
pub proof fn lemma_entry_check_blocks_uninitialized_scheduler(rt: InstanceRuntime, contains: bool)
    ensures
        !ready_to_submit(rt, false),
        contains && rt.resource is Some && rt.controller is Some && rt.scheduler is Some
            ==> submission_entry_error(contains, rt, false)
            == OrchestratorError::SchedulerNotInitialized,
{
}

/// Law: the collected identifiers are exactly those of the entries that
/// posted, in input order; a skipped entry contributes no identifier and
/// its position is reported instead.
pub proof fn lemma_collect_keeps_order(rs: Seq<Option<i64>>)
    ensures
        collect_ids(rs).len() + spec_skipped(rs).len() == rs.len(),
    decreases rs.len(),
{
    if rs.len() > 0 {
        lemma_collect_keeps_order(rs.drop_last());
    }
}

/// Law: a scheduler in a well-formed instance is always bound to the
/// instance's current resource and controller. After a resource replace
/// (which clears any scheduler) a stale binding cannot persist: a
/// scheduler bound to the old resource never coexists with the new one,
/// so a submission after a bare replace is rejected until a scheduler is
/// recreated — which then binds to the new resource.
pub proof fn lemma_no_stale_scheduler_binding(rt: InstanceRuntime, stale: u64)
    requires
        rt.wf(),
        rt.scheduler is Some,
        rt.resource != Some(stale),
    ensures
        rt.scheduler->0.resource != stale,
        rt.resource == Some(rt.scheduler->0.resource),
        rt.controller == Some(rt.scheduler->0.controller),
{
}

} // verus!
