//! Shutdown coordinator: cooperative-then-forced teardown of an agent
//! batch.
//!
//! Every agent handle is disconnected first — disconnect signals the child
//! to exit on its own; it is not a forceful stop. Then each child is
//! polled for exit at a fixed interval up to a bounded total wait, in
//! order, each child with its own full window. A child that exits within
//! the bound is never killed; one that does not is forcefully killed and
//! reaped after exactly the bound. The embedding program performs the
//! sleeps, the `try_wait` calls and the kills; this module decides them.

use vstd::prelude::*;

verus! {

/// Milliseconds between two exit polls of one child.
pub const SHUTDOWN_POLL_INTERVAL_MS: u64 = 100;

/// Total milliseconds a child is given to exit on its own.
pub const SHUTDOWN_TOTAL_WAIT_MS: u64 = 5000;

/// How many polls fit into the total wait: the poll after the last one of
/// these escalates to a forced kill.
pub const SHUTDOWN_MAX_POLLS: u64 = SHUTDOWN_TOTAL_WAIT_MS / SHUTDOWN_POLL_INTERVAL_MS;

/// One step of the teardown sequence: all disconnects come first, in
/// order, then each child is awaited in order.
#[derive(Clone, Copy, Debug, PartialEq, Eq, Structural)]
pub enum ShutdownAction {
    /// Disconnect and destroy this agent handle (best effort).
    Disconnect(u64),
    /// Poll this child for exit, escalating to a kill at the bound.
    AwaitChild(u32),
}

/// What one poll of a child calls for.
#[derive(Clone, Copy, Debug, PartialEq, Eq, Structural)]
pub enum ShutdownStep {
    /// The child has exited; it is reaped, nothing is killed.
    Reaped,
    /// The child is still running and the bound is not reached: sleep one
    /// interval and poll again.
    PollAgain,
    /// The bound is reached: kill the child and reap it.
    ForceKill,
}

/// How the wait for one child ended: a cooperative exit observed at this
/// poll count, or a forced kill after this many polls.
#[derive(Clone, Copy, Debug, PartialEq, Eq, Structural)]
pub enum ShutdownOutcome {
    CooperativeExit(u64),
    ForcedKill(u64),
}

/// The teardown sequence for a batch: disconnect every agent handle in
/// order, then await every child in order.
pub open spec fn spec_shutdown_plan(handles: Seq<u64>, children: Seq<u32>) -> Seq<ShutdownAction> {
    Seq::new(handles.len(), |i: int| ShutdownAction::Disconnect(handles[i])) + Seq::new(
        children.len(),
        |i: int| ShutdownAction::AwaitChild(children[i]),
    )
}

/// Builds the teardown sequence for a batch taken out of an instance.
pub fn shutdown_plan(handles: &Vec<u64>, children: &Vec<u32>) -> (plan: Vec<ShutdownAction>)
    ensures
        plan@ == spec_shutdown_plan(handles@, children@),
{
    let mut plan: Vec<ShutdownAction> = Vec::new();
    let n = handles.len();
    let mut i: usize = 0;
    while i < n
        invariant
            n == handles@.len(),
            0 <= i <= n,
            plan@ == Seq::new(i as nat, |k: int| ShutdownAction::Disconnect(handles@[k])),
        decreases n - i,
    {
        plan.push(ShutdownAction::Disconnect(handles[i]));
        proof {
            assert(plan@ =~= Seq::new(
                (i + 1) as nat,
                |k: int| ShutdownAction::Disconnect(handles@[k]),
            ));
        }
        i = i + 1;
    }
    let ghost disconnects = plan@;
    let m = children.len();
    let mut j: usize = 0;
    while j < m
        invariant
            m == children@.len(),
            0 <= j <= m,
            plan@ == disconnects + Seq::new(
                j as nat,
                |k: int| ShutdownAction::AwaitChild(children@[k]),
            ),
        decreases m - j,
    {
        plan.push(ShutdownAction::AwaitChild(children[j]));
        proof {
            assert(plan@ =~= disconnects + Seq::new(
                (j + 1) as nat,
                |k: int| ShutdownAction::AwaitChild(children@[k]),
            ));
        }
        j = j + 1;
    }
    proof {
        assert(plan@ =~= spec_shutdown_plan(handles@, children@));
    }
    plan
}

/// What one poll must do, from what it observed: reap an exited child,
/// keep waiting below the bound, and force the kill at the bound — never
/// before.
pub fn shutdown_poll_decision(exited: bool, polls_done: u64, max_polls: u64) -> (r: ShutdownStep)
    ensures
        r == (if exited {
            ShutdownStep::Reaped
        } else if polls_done < max_polls {
            ShutdownStep::PollAgain
        } else {
            ShutdownStep::ForceKill
        }),
{
    if exited {
        ShutdownStep::Reaped
    } else if polls_done < max_polls {
        ShutdownStep::PollAgain
    } else {
        ShutdownStep::ForceKill
    }
}

/// How the wait for one child ends, given when the child's exit first
/// becomes observable (`None`: it never exits): a cooperative exit within
/// the bound, or a forced kill after exactly `max_polls` polls.
pub open spec fn spec_wind_down(exit_after: Option<u64>, max_polls: u64) -> ShutdownOutcome {
    if exit_after is Some && exit_after->0 <= max_polls {
        ShutdownOutcome::CooperativeExit(exit_after->0)
    } else {
        ShutdownOutcome::ForcedKill(max_polls)
    }
}

/// Drives the poll loop for one child over its exit observations:
/// `exit_after` is the poll count from which `try_wait` reports the child
/// as exited, or `None` if it never does. A child that exits within the
/// bound is reaped without a kill; otherwise the kill comes after exactly
/// `max_polls` polls.
pub fn wind_down_child(exit_after: Option<u64>, max_polls: u64) -> (r: ShutdownOutcome)
    ensures
        r == spec_wind_down(exit_after, max_polls),
{
    let mut polls: u64 = 0;
    loop
        invariant
            0 <= polls <= max_polls,
            match exit_after {
                Some(t) => polls <= t,
                None => true,
            },
        ensures
            spec_wind_down(exit_after, max_polls) == (match exit_after {
                Some(t) if polls == t && t <= max_polls => ShutdownOutcome::CooperativeExit(t),
                _ => ShutdownOutcome::ForcedKill(max_polls),
            }),
            (match exit_after {
                Some(t) => polls == t || polls == max_polls,
                None => polls == max_polls,
            }),
        decreases max_polls - polls,
    {
        let exited = match exit_after {
            Some(t) => polls >= t,
            None => false,
        };
        match shutdown_poll_decision(exited, polls, max_polls) {
            ShutdownStep::Reaped => {
                break ;
            },
            ShutdownStep::PollAgain => {
                polls = polls + 1;
            },
            ShutdownStep::ForceKill => {
                break ;
            },
        }
    }
    let exited = match exit_after {
        Some(t) => polls >= t,
        None => false,
    };
    if exited {
        ShutdownOutcome::CooperativeExit(polls)
    } else {
        ShutdownOutcome::ForcedKill(polls)
    }
}

/// Drives the poll loop for every child of a batch, in order, each with
/// its own full wait window.
pub fn wind_down_all(exit_after: &Vec<Option<u64>>, max_polls: u64) -> (r: Vec<ShutdownOutcome>)
    ensures
        r@.len() == exit_after@.len(),
        forall|i: int|
            0 <= i < r@.len() ==> r@[i] == spec_wind_down(exit_after@[i], max_polls),
{
    let mut outcomes: Vec<ShutdownOutcome> = Vec::new();
    let n = exit_after.len();
    let mut i: usize = 0;
    while i < n
        invariant
            n == exit_after@.len(),
            0 <= i <= n,
            outcomes@.len() == i,
            forall|k: int|
                0 <= k < i ==> outcomes@[k] == spec_wind_down(exit_after@[k], max_polls),
        decreases n - i,
    {
        outcomes.push(wind_down_child(exit_after[i], max_polls));
        i = i + 1;
    }
    outcomes
}

/// Law: a child that exits cooperatively within the bound is never
/// forcefully killed; the wait ends at the poll that observes the exit.
pub proof fn lemma_cooperative_exit_never_forced(exit_after: u64, max_polls: u64)
    requires
        exit_after <= max_polls,
    ensures
        spec_wind_down(Some(exit_after), max_polls) == ShutdownOutcome::CooperativeExit(
            exit_after,
        ),
{
}

/// Law: a child that never exits on its own is forcefully killed after
/// exactly the configured bound, `max_polls` polls of one interval each.
pub proof fn lemma_unresponsive_child_forced_at_bound(max_polls: u64)
    ensures
        spec_wind_down(None, max_polls) == ShutdownOutcome::ForcedKill(max_polls),
{
}

} // verus!
