use vstd::prelude::*;
use crate::model::{lemma_zero_address_exists, BountyState};
use crate::types::{BountyError, CallContext, Task, TaskStatus};

verus! {

/// One call into the engine, with its arguments.
#[derive(Clone, Copy, Debug)]
pub enum Operation {
    Initialize,
    Create { title_hash: [u8; 32], description_hash: [u8; 32], deadline_hours: u64 },
    Accept { task_id: u64 },
    Submit { task_id: u64 },
    Approve { task_id: u64 },
    Release { task_id: u64 },
    Dispute { task_id: u64 },
    Cancel { task_id: u64 },
}

/// The state after `op` is called in context `ctx`: each operation of
/// `TaskBounty` leaves its engine in exactly this state, since a refused
/// operation changes nothing.
pub open spec fn step(s: BountyState, ctx: CallContext, op: Operation) -> BountyState {
    match op {
        Operation::Initialize => s.initialize(ctx.sender),
        Operation::Create { title_hash, description_hash, deadline_hours } => {
            if s.create_check(ctx) is None {
                s.create(ctx, title_hash, description_hash, deadline_hours)
            } else {
                s
            }
        },
        Operation::Accept { task_id } => {
            if s.accept_check(ctx, task_id) is None {
                s.accept(ctx, task_id)
            } else {
                s
            }
        },
        Operation::Submit { task_id } => {
            if s.submit_check(ctx, task_id) is None {
                s.submit(ctx, task_id)
            } else {
                s
            }
        },
        Operation::Approve { task_id } => {
            if s.approve_check(ctx, task_id) is None {
                s.pay(task_id)
            } else {
                s
            }
        },
        Operation::Release { task_id } => {
            if s.release_check(ctx, task_id) is None {
                s.pay(task_id)
            } else {
                s
            }
        },
        Operation::Dispute { task_id } => {
            if s.dispute_check(ctx, task_id) is None {
                s.dispute(task_id)
            } else {
                s
            }
        },
        Operation::Cancel { task_id } => {
            if s.cancel_check(ctx, task_id) is None {
                s.cancel(task_id)
            } else {
                s
            }
        },
    }
}

/// Task `id` goes from funded to empty between `pre` and `post`.
pub open spec fn settles(pre: BountyState, post: BountyState, id: u64) -> bool {
    pre.bounty(id) > 0 && post.bounty(id) == 0
}

/// What every run of operations keeps: no task disappears, no bounty grows,
/// no creator changes, and a dispute is never lifted.
pub open spec fn evolves(a: BountyState, b: BountyState) -> bool {
    &&& a.tasks.len() <= b.tasks.len()
    &&& forall|id: u64| a.known(id) ==> #[trigger] b.bounty(id) <= a.bounty(id)
    &&& forall|id: u64| a.known(id) ==> #[trigger] b.task(id).creator == a.task(id).creator
    &&& forall|id: u64| a.known(id) && a.task(id).disputed ==> #[trigger] b.task(id).disputed
}

/// Every operation keeps the bounties, creators and disputes of existing
/// tasks as `evolves` says, and a bounty drops to zero only through a payout
/// (approval or release) or a refund (cancellation) of that very task.
pub proof fn lemma_step_evolves(s: BountyState, ctx: CallContext, op: Operation)
    ensures
        evolves(s, step(s, ctx, op)),
        forall|id: u64| #[trigger]
            settles(s, step(s, ctx, op), id) ==> match op {
                Operation::Approve { task_id } => task_id == id && s.approve_check(ctx, id) is None,
                Operation::Release { task_id } => task_id == id && s.release_check(ctx, id) is None,
                Operation::Cancel { task_id } => task_id == id && s.cancel_check(ctx, id) is None,
                _ => false,
            },
{
    let t = step(s, ctx, op);
    assert forall|id: u64| s.known(id) implies #[trigger] t.bounty(id) <= s.bounty(id)
        && t.task(id).creator == s.task(id).creator
        && (s.task(id).disputed ==> t.task(id).disputed) by {
        assert(t.tasks[id - 1] == s.tasks[id - 1] || (t.tasks[id - 1].bounty == 0
            && t.tasks[id - 1].creator == s.tasks[id - 1].creator && t.tasks[id - 1].disputed
            == s.tasks[id - 1].disputed) || (t.tasks[id - 1].bounty == s.tasks[id - 1].bounty
            && t.tasks[id - 1].creator == s.tasks[id - 1].creator && (s.tasks[id
            - 1].disputed ==> t.tasks[id - 1].disputed)));
    }
}

/// `evolves` carries over a run of two stretches.
pub proof fn lemma_evolves_transitive(a: BountyState, b: BountyState, c: BountyState)
    requires
        evolves(a, b),
        evolves(b, c),
    ensures
        evolves(a, c),
{
    assert forall|id: u64| a.known(id) implies #[trigger] c.bounty(id) <= a.bounty(id) by {
        assert(b.known(id));
        assert(c.bounty(id) <= b.bounty(id));
    }
    assert forall|id: u64| a.known(id) implies #[trigger] c.task(id).creator == a.task(
        id,
    ).creator by {
        assert(b.known(id));
        assert(c.task(id).creator == b.task(id).creator);
    }
    assert forall|id: u64| a.known(id) && a.task(id).disputed implies #[trigger] c.task(
        id,
    ).disputed by {
        assert(b.known(id));
        assert(b.task(id).disputed);
    }
}

/// Consecutive states of `trace` each follow from the one before.
pub open spec fn is_run(trace: Seq<BountyState>) -> bool {
    forall|k: int| 0 <= k < trace.len() - 1 ==> evolves(#[trigger] trace[k], trace[k + 1])
}

/// Over a run, any later state `evolves` from any earlier one: in particular
/// the bounty of every task never grows over time.
pub proof fn lemma_trace_evolves(trace: Seq<BountyState>, i: int, j: int)
    requires
        is_run(trace),
        0 <= i <= j < trace.len(),
    ensures
        evolves(trace[i], trace[j]),
    decreases j - i,
{
    if i == j {
        let a = trace[i];
        assert(evolves(a, a));
    } else {
        lemma_trace_evolves(trace, i, j - 1);
        assert(evolves(trace[j - 1], trace[j]));
        lemma_evolves_transitive(trace[i], trace[j - 1], trace[j]);
    }
}

/// Over a run, a task's bounty is emptied at most once: two distinct steps
/// never both settle it, so no task is both paid out and refunded, nor paid
/// twice.
pub proof fn lemma_settles_at_most_once(trace: Seq<BountyState>, id: u64, i: int, j: int)
    requires
        is_run(trace),
        0 <= i < j,
        j + 1 < trace.len(),
    ensures
        !(settles(trace[i], trace[i + 1], id) && settles(trace[j], trace[j + 1], id)),
{
    if settles(trace[i], trace[i + 1], id) {
        assert(trace[i].known(id));
        assert(evolves(trace[i], trace[i + 1]));
        assert(trace[i + 1].known(id));
        lemma_trace_evolves(trace, i + 1, j);
        assert(trace[j].bounty(id) <= trace[i + 1].bounty(id));
    }
}

/// Once a task is disputed, no later state lets it be paid out: release is
/// refused for the dispute, approval for the dispute or for a caller who is
/// not the creator.
pub proof fn lemma_dispute_blocks_payout(
    s: BountyState,
    t: BountyState,
    ctx: CallContext,
    id: u64,
)
    requires
        s.known(id),
        s.task(id).disputed,
        evolves(s, t),
    ensures
        t.release_check(ctx, id) == Some(BountyError::AlreadyDisputed),
        t.approve_check(ctx, id) == Some(BountyError::AlreadyDisputed) || t.approve_check(
            ctx,
            id,
        ) == Some(BountyError::Unauthorized),
{
    assert(t.task(id).disputed);
}

/// A task record is disputed exactly when its status says so, and an open
/// task has no assignee.
pub open spec fn task_consistent(t: Task) -> bool {
    &&& t.disputed <==> t.status == TaskStatus::Disputed
    &&& t.status == TaskStatus::Open ==> t.assignee.is_zero()
}

pub open spec fn consistent(s: BountyState) -> bool {
    forall|id: u64| s.known(id) ==> #[trigger] task_consistent(s.task(id))
}

/// The lifecycle graph: Open to InProgress to Completed to Disputed, or no
/// move at all.
pub open spec fn status_edge(a: TaskStatus, b: TaskStatus) -> bool {
    ||| a == b
    ||| a == TaskStatus::Open && b == TaskStatus::InProgress
    ||| a == TaskStatus::InProgress && b == TaskStatus::Completed
    ||| a == TaskStatus::Completed && b == TaskStatus::Disputed
}

/// Every operation keeps records consistent, moves a status only along the
/// lifecycle graph, sets a dispute deadline only when work is submitted
/// (which happens once per task, as no status returns to InProgress), and
/// creates every new task consistent, open, with its bounty in escrow.
pub proof fn lemma_step_keeps_records(s: BountyState, ctx: CallContext, op: Operation)
    requires
        consistent(s),
    ensures
        consistent(step(s, ctx, op)),
        forall|id: u64| #[trigger] s.known(id) ==> status_edge(s.task(id).status, step(s, ctx, op).task(id).status),
        forall|id: u64| #[trigger] s.known(id) && step(s, ctx, op).task(id).dispute_deadline
            != s.task(id).dispute_deadline ==> s.task(id).status == TaskStatus::InProgress
            && step(s, ctx, op).task(id).status == TaskStatus::Completed,
{
    let t = step(s, ctx, op);
    assert forall|id: u64| t.known(id) implies #[trigger] task_consistent(t.task(id)) by {
        if s.known(id) {
            assert(task_consistent(s.task(id)));
        } else {
            if let Operation::Create { title_hash, description_hash, deadline_hours } = op {
                let nt = BountyState::new_task(ctx, title_hash, description_hash, deadline_hours);
                lemma_zero_address_exists();
                assert(nt.assignee.is_zero());
            }
        }
    }
    assert forall|id: u64| #[trigger] s.known(id) implies status_edge(s.task(id).status, t.task(id).status) by {
    }
}

} // verus!
