use vstd::prelude::*;
use crate::fee::{fee_of, DEFAULT_FEE_BASIS_POINTS};
use crate::types::{Address, BountyError, CallContext, Task, TaskStatus, Transfer, UserStats};

verus! {

/// Seconds in one hour: acceptance deadlines are given in hours.
pub const SECONDS_PER_HOUR: u64 = 3600;

/// Length of the window, after submission, in which the creator may dispute.
pub const DISPUTE_WINDOW_SECONDS: u64 = 86400;

/// The largest value a `u64` counter can hold.
pub const COUNTER_LIMIT: u64 = 0xffff_ffff_ffff_ffff;

/// The largest amount the fee ledger can hold.
pub const LEDGER_LIMIT: u128 = 0xffff_ffff_ffff_ffff_ffff_ffff_ffff_ffff;

/// The zero address, as a value.
pub open spec fn zero_address() -> Address {
    choose|a: Address| a.is_zero()
}

pub proof fn lemma_zero_address_exists()
    ensures
        zero_address().is_zero(),
{
    let w = Address { bytes: vstd::array::spec_array_fill_for_copy_type::<u8, 20>(0u8) };
    assert(forall|i: int| 0 <= i < 20 ==> w.bytes@[i] == 0u8);
    assert(w.is_zero());
}

pub proof fn lemma_zero_address(a: Address)
    requires
        a.is_zero(),
    ensures
        a == zero_address(),
{
    let z = zero_address();
    assert(z.is_zero());
    assert(a.bytes =~= z.bytes);
}

/// The all-zero content hash, as a value.
pub open spec fn is_zero_hash(h: [u8; 32]) -> bool {
    forall|i: int| 0 <= i < 32 ==> h[i] == 0u8
}

pub open spec fn zero_hash() -> [u8; 32] {
    choose|h: [u8; 32]| is_zero_hash(h)
}

pub proof fn lemma_zero_hash(h: [u8; 32])
    requires
        is_zero_hash(h),
    ensures
        h == zero_hash(),
{
    let z = zero_hash();
    assert(is_zero_hash(z));
    assert(h =~= z);
}

/// The abstract state of the engine. Task `id` (counted from 1) is
/// `tasks[id - 1]`; identifier 0 never names a task.
#[verifier::ext_equal]
pub struct BountyState {
    pub tasks: Seq<Task>,
    pub stats: Map<Address, UserStats>,
    pub fee_bp: nat,
    pub owner: Address,
    pub balance: nat,
}

/// Converts an `Option` of a refusal into the result of an operation.
pub open spec fn outcome<T>(check: Option<BountyError>, value: T) -> Result<T, BountyError> {
    match check {
        Some(e) => Err(e),
        None => Ok(value),
    }
}

impl BountyState {
    pub open spec fn known(self, id: u64) -> bool {
        1 <= id <= self.tasks.len()
    }

    pub open spec fn task(self, id: u64) -> Task {
        self.tasks[id - 1]
    }

    /// The escrowed amount of a task; 0 for an identifier with no task.
    pub open spec fn bounty(self, id: u64) -> nat {
        if self.known(id) {
            self.task(id).bounty as nat
        } else {
            0
        }
    }

    pub open spec fn stats_of(self, a: Address) -> UserStats {
        if self.stats.contains_key(a) {
            self.stats[a]
        } else {
            UserStats { completed: 0, created: 0 }
        }
    }

    /// What a query of task `id` reports: (creator, bounty, assignee,
    /// status, title hash, description hash, acceptance deadline). An
    /// identifier with no task reads as an all-zero record.
    pub open spec fn task_record(self, id: u64) -> (
        Address,
        u128,
        Address,
        TaskStatus,
        [u8; 32],
        [u8; 32],
        u128,
    ) {
        if self.known(id) {
            let t = self.task(id);
            (
                t.creator,
                t.bounty,
                t.assignee,
                t.status,
                t.title_hash,
                t.description_hash,
                t.accept_deadline,
            )
        } else {
            (zero_address(), 0, zero_address(), TaskStatus::Open, zero_hash(), zero_hash(), 0)
        }
    }

    pub open spec fn with_task(self, id: u64, t: Task) -> BountyState {
        BountyState { tasks: self.tasks.update(id - 1, t), ..self }
    }

    /// The first caller becomes the owner and the default fee is set; later
    /// calls change nothing.
    pub open spec fn initialize(self, sender: Address) -> BountyState {
        if self.owner.is_zero() {
            BountyState { owner: sender, fee_bp: DEFAULT_FEE_BASIS_POINTS as nat, ..self }
        } else {
            self
        }
    }

    pub open spec fn create_check(self, ctx: CallContext) -> Option<BountyError> {
        if ctx.value == 0 {
            Some(BountyError::NoFunds)
        } else if self.tasks.len() >= COUNTER_LIMIT {
            Some(BountyError::Overflow)
        } else if self.stats_of(ctx.sender).created >= COUNTER_LIMIT {
            Some(BountyError::Overflow)
        } else {
            None
        }
    }

    pub open spec fn new_task(
        ctx: CallContext,
        title_hash: [u8; 32],
        description_hash: [u8; 32],
        deadline_hours: u64,
    ) -> Task {
        Task {
            creator: ctx.sender,
            bounty: ctx.value,
            assignee: zero_address(),
            status: TaskStatus::Open,
            title_hash,
            description_hash,
            accept_deadline: (ctx.now + deadline_hours * SECONDS_PER_HOUR) as u128,
            dispute_deadline: 0,
            disputed: false,
        }
    }

    pub open spec fn create(
        self,
        ctx: CallContext,
        title_hash: [u8; 32],
        description_hash: [u8; 32],
        deadline_hours: u64,
    ) -> BountyState {
        let st = self.stats_of(ctx.sender);
        BountyState {
            tasks: self.tasks.push(
                BountyState::new_task(ctx, title_hash, description_hash, deadline_hours),
            ),
            stats: self.stats.insert(
                ctx.sender,
                UserStats { created: (st.created + 1) as u64, ..st },
            ),
            ..self
        }
    }

    pub open spec fn accept_check(self, ctx: CallContext, id: u64) -> Option<BountyError> {
        if !self.known(id) {
            Some(BountyError::UnknownTask)
        } else if self.task(id).status != TaskStatus::Open {
            Some(BountyError::InvalidState)
        } else if ctx.now > self.task(id).accept_deadline {
            Some(BountyError::WindowExpired)
        } else {
            None
        }
    }

    pub open spec fn accept(self, ctx: CallContext, id: u64) -> BountyState {
        self.with_task(
            id,
            Task { assignee: ctx.sender, status: TaskStatus::InProgress, ..self.task(id) },
        )
    }

    pub open spec fn submit_check(self, ctx: CallContext, id: u64) -> Option<BountyError> {
        if !self.known(id) {
            Some(BountyError::UnknownTask)
        } else if self.task(id).assignee != ctx.sender {
            Some(BountyError::Unauthorized)
        } else if self.task(id).status != TaskStatus::InProgress {
            Some(BountyError::InvalidState)
        } else {
            None
        }
    }

    pub open spec fn submit(self, ctx: CallContext, id: u64) -> BountyState {
        self.with_task(
            id,
            Task {
                status: TaskStatus::Completed,
                dispute_deadline: (ctx.now + DISPUTE_WINDOW_SECONDS) as u128,
                ..self.task(id)
            },
        )
    }

    /// What a payout of a completed, undisputed task further asks for: funds
    /// still in escrow, and room in the ledger and in the worker's counter.
    pub open spec fn payout_check(self, id: u64) -> Option<BountyError> {
        let t = self.task(id);
        if t.bounty == 0 {
            Some(BountyError::AlreadySettled)
        } else if self.balance + fee_of(t.bounty as nat, self.fee_bp) > LEDGER_LIMIT {
            Some(BountyError::Overflow)
        } else if self.stats_of(t.assignee).completed >= COUNTER_LIMIT {
            Some(BountyError::Overflow)
        } else {
            None
        }
    }

    pub open spec fn approve_check(self, ctx: CallContext, id: u64) -> Option<BountyError> {
        if !self.known(id) {
            Some(BountyError::UnknownTask)
        } else if self.task(id).creator != ctx.sender {
            Some(BountyError::Unauthorized)
        } else if self.task(id).disputed {
            Some(BountyError::AlreadyDisputed)
        } else if self.task(id).status != TaskStatus::Completed {
            Some(BountyError::InvalidState)
        } else {
            self.payout_check(id)
        }
    }

    pub open spec fn release_check(self, ctx: CallContext, id: u64) -> Option<BountyError> {
        if !self.known(id) {
            Some(BountyError::UnknownTask)
        } else if self.task(id).disputed {
            Some(BountyError::AlreadyDisputed)
        } else if self.task(id).status != TaskStatus::Completed {
            Some(BountyError::InvalidState)
        } else if ctx.now <= self.task(id).dispute_deadline {
            Some(BountyError::WindowNotYetElapsed)
        } else {
            self.payout_check(id)
        }
    }

    /// The payout: the fee goes to the ledger, the worker's completed count
    /// grows by one, and the bounty is zeroed. The status stays `Completed`.
    pub open spec fn pay(self, id: u64) -> BountyState {
        let t = self.task(id);
        let st = self.stats_of(t.assignee);
        BountyState {
            tasks: self.tasks.update(id - 1, Task { bounty: 0, ..t }),
            stats: self.stats.insert(
                t.assignee,
                UserStats { completed: (st.completed + 1) as u64, ..st },
            ),
            balance: self.balance + fee_of(t.bounty as nat, self.fee_bp),
            ..self
        }
    }

    /// What the worker receives: the bounty less the platform fee.
    pub open spec fn payment(self, id: u64) -> Transfer {
        let t = self.task(id);
        Transfer {
            to: t.assignee,
            amount: (t.bounty - fee_of(t.bounty as nat, self.fee_bp)) as u128,
        }
    }

    pub open spec fn dispute_check(self, ctx: CallContext, id: u64) -> Option<BountyError> {
        if !self.known(id) {
            Some(BountyError::UnknownTask)
        } else if self.task(id).creator != ctx.sender {
            Some(BountyError::Unauthorized)
        } else if self.task(id).status != TaskStatus::Completed {
            Some(BountyError::InvalidState)
        } else if ctx.now > self.task(id).dispute_deadline {
            Some(BountyError::WindowExpired)
        } else {
            None
        }
    }

    pub open spec fn dispute(self, id: u64) -> BountyState {
        self.with_task(id, Task { disputed: true, status: TaskStatus::Disputed, ..self.task(id) })
    }

    pub open spec fn cancel_check(self, ctx: CallContext, id: u64) -> Option<BountyError> {
        if !self.known(id) {
            Some(BountyError::UnknownTask)
        } else if self.task(id).creator != ctx.sender {
            Some(BountyError::Unauthorized)
        } else if self.task(id).status != TaskStatus::Open {
            Some(BountyError::InvalidState)
        } else if self.task(id).bounty == 0 {
            Some(BountyError::AlreadySettled)
        } else {
            None
        }
    }

    /// Cancellation zeroes the bounty; the status stays `Open`.
    pub open spec fn cancel(self, id: u64) -> BountyState {
        self.with_task(id, Task { bounty: 0, ..self.task(id) })
    }

    /// The refund of a cancelled task: its whole bounty, to its creator.
    pub open spec fn refund(self, id: u64) -> Transfer {
        Transfer { to: self.task(id).creator, amount: self.task(id).bounty }
    }
}

} // verus!
