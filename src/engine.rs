use vstd::prelude::*;
use crate::laws::{consistent, step, Operation};
use crate::fee::{split_payout, DEFAULT_FEE_BASIS_POINTS};
use crate::model::{lemma_zero_address, lemma_zero_hash, outcome, BountyState, COUNTER_LIMIT, LEDGER_LIMIT, SECONDS_PER_HOUR, DISPUTE_WINDOW_SECONDS};
use crate::types::{Address, BountyError, CallContext, Task, TaskStatus, Transfer, UserStats};

verus! {

/// The counters of one address.
#[derive(Clone, Copy, Debug)]
struct UserRecord {
    user: Address,
    stats: UserStats,
}

spec fn holds_user(s: Seq<UserRecord>, a: Address) -> bool {
    exists|i: int| 0 <= i < s.len() && s[i].user == a
}

spec fn users_map(s: Seq<UserRecord>) -> Map<Address, UserStats> {
    Map::new(
        |a: Address| holds_user(s, a),
        |a: Address| s[choose|i: int| 0 <= i < s.len() && s[i].user == a].stats,
    )
}

spec fn unique_users(s: Seq<UserRecord>) -> bool {
    forall|i: int, j: int|
        0 <= i < s.len() && 0 <= j < s.len() && s[i].user == s[j].user ==> i == j
}

proof fn lemma_users_lookup(s: Seq<UserRecord>, i: int)
    requires
        unique_users(s),
        0 <= i < s.len(),
    ensures
        users_map(s).contains_key(s[i].user),
        users_map(s)[s[i].user] == s[i].stats,
{
    let a = s[i].user;
    assert(holds_user(s, a));
    let j = choose|j: int| 0 <= j < s.len() && s[j].user == a;
    assert(j == i);
}

proof fn lemma_users_put(s: Seq<UserRecord>, s2: Seq<UserRecord>, a: Address, st: UserStats)
    requires
        unique_users(s),
        s2.len() >= s.len(),
        forall|k: int| 0 <= k < s.len() && s2[k].user != a ==> s2[k] == s[k],
        forall|k: int| 0 <= k < s.len() ==> s2[k].user == s[k].user,
        forall|k: int| s.len() <= k < s2.len() ==> s2[k].user == a && !holds_user(s, a),
        s2.len() <= s.len() + 1,
        holds_user(s2, a),
        forall|k: int| 0 <= k < s2.len() && s2[k].user == a ==> s2[k].stats == st,
    ensures
        unique_users(s2),
        users_map(s2) =~= users_map(s).insert(a, st),
{
    assert(unique_users(s2));
    let m = users_map(s).insert(a, st);
    assert forall|b: Address| #[trigger] users_map(s2).contains_key(b) <==> m.contains_key(b) by {
        if users_map(s2).contains_key(b) && b != a {
            let j = choose|j: int| 0 <= j < s2.len() && s2[j].user == b;
            assert(j < s.len());
            assert(s[j].user == b);
        }
        if m.contains_key(b) && b != a {
            let j = choose|j: int| 0 <= j < s.len() && s[j].user == b;
            assert(s2[j].user == b);
        }
    }
    assert forall|b: Address| #[trigger] users_map(s2).contains_key(b) implies users_map(s2)[b]
        == m[b] by {
        let j = choose|j: int| 0 <= j < s2.len() && s2[j].user == b;
        if b != a {
            assert(j < s.len());
            assert(s2[j] == s[j]);
            lemma_users_lookup(s, j);
        }
    }
}

/// The escrow engine: every task record, the per-address counters and the
/// platform ledger.
#[derive(Clone, Debug)]
pub struct TaskBounty {
    tasks: Vec<Task>,
    users: Vec<UserRecord>,
    platform_fee: u64,
    platform_owner: Address,
    platform_balance: u128,
}

impl View for TaskBounty {
    type V = BountyState;

    closed spec fn view(&self) -> BountyState {
        BountyState {
            tasks: self.tasks@,
            stats: users_map(self.users@),
            fee_bp: self.platform_fee as nat,
            owner: self.platform_owner,
            balance: self.platform_balance as nat,
        }
    }
}

impl TaskBounty {
    /// Internal consistency: identifiers fit their counter, each address has
    /// at most one record, and the fee rate is at most 100%.
    pub closed spec fn wf(self) -> bool {
        &&& self.tasks@.len() <= COUNTER_LIMIT
        &&& unique_users(self.users@)
        &&& self.platform_fee <= 10000
    }

    /// An engine with no task, no owner, a zero fee rate and an empty ledger.
    pub fn new() -> (r: TaskBounty)
        ensures
            r.wf(),
            r@.tasks.len() == 0,
            r@.stats.is_empty(),
            r@.fee_bp == 0,
            r@.owner.is_zero(),
            r@.balance == 0,
            consistent(r@),
    {
        let r = TaskBounty {
            tasks: Vec::new(),
            users: Vec::new(),
            platform_fee: 0,
            platform_owner: Address::zero(),
            platform_balance: 0,
        };
        assert(r@.stats =~= Map::empty());
        r
    }

    fn find_user(&self, a: &Address) -> (r: Option<usize>)
        ensures
            match r {
                Some(i) => i < self.users@.len() && self.users@[i as int].user == *a,
                None => !holds_user(self.users@, *a),
            },
    {
        let mut i: usize = 0;
        while i < self.users.len()
            invariant
                i <= self.users@.len(),
                forall|k: int| 0 <= k < i ==> self.users@[k].user != *a,
            decreases self.users@.len() - i,
        {
            if self.users[i].user.same_as(a) {
                return Some(i);
            }
            i = i + 1;
        }
        None
    }

    fn stats_for(&self, a: &Address) -> (r: UserStats)
        requires
            self.wf(),
        ensures
            r == self@.stats_of(*a),
    {
        match self.find_user(a) {
            Some(i) => {
                proof {
                    lemma_users_lookup(self.users@, i as int);
                }
                self.users[i].stats
            },
            None => UserStats { completed: 0, created: 0 },
        }
    }

    fn put_stats(&mut self, a: &Address, st: UserStats)
        requires
            old(self).wf(),
        ensures
            final(self).wf(),
            final(self)@ == (BountyState { stats: old(self)@.stats.insert(*a, st), ..old(self)@ }),
    {
        let rec = UserRecord { user: *a, stats: st };
        let found = self.find_user(a);
        match found {
            Some(i) => {
                self.users.set(i, rec);
                assert(self.users@[i as int].user == *a);
            },
            None => {
                self.users.push(rec);
                assert(self.users@[old(self).users@.len() as int].user == *a);
            },
        }
        proof {
            lemma_users_put(old(self).users@, self.users@, *a, st);
        }
        assert(self@ =~= (BountyState { stats: old(self)@.stats.insert(*a, st), ..old(self)@ }));
    }

    fn is_known(&self, task_id: u64) -> (r: bool)
        requires
            self.wf(),
        ensures
            r == self@.known(task_id),
    {
        task_id != 0 && task_id <= self.tasks.len() as u64
    }

    fn task_at(&self, task_id: u64) -> (r: Task)
        requires
            self@.known(task_id),
        ensures
            r == self@.task(task_id),
    {
        let n: usize = self.tasks.len();
        assert(task_id - 1 < n);
        self.tasks[(task_id - 1) as usize]
    }

    fn store_task(&mut self, task_id: u64, t: Task)
        requires
            old(self).wf(),
            old(self)@.known(task_id),
        ensures
            final(self).wf(),
            final(self)@ == old(self)@.with_task(task_id, t),
    {
        let n: usize = self.tasks.len();
        assert(task_id - 1 < n);
        self.tasks.set((task_id - 1) as usize, t);
        assert(self@ =~= old(self)@.with_task(task_id, t));
    }

    /// Sets the owner and the default fee rate on the first call; later calls
    /// change nothing.
    pub fn initialize(&mut self, ctx: &CallContext)
        requires
            old(self).wf(),
        ensures
            final(self).wf(),
            final(self)@ == old(self)@.initialize(ctx.sender),
            final(self)@ == step(old(self)@, *ctx, Operation::Initialize),
    {
        if self.platform_owner.is_zero_address() {
            self.platform_owner = ctx.sender;
            self.platform_fee = DEFAULT_FEE_BASIS_POINTS;
        }
        assert(self@ =~= old(self)@.initialize(ctx.sender));
    }

    /// Opens a task funded with the value attached to the call and returns
    /// its identifier, the task count after the call.
    pub fn create_task(
        &mut self,
        ctx: &CallContext,
        title_hash: [u8; 32],
        description_hash: [u8; 32],
        deadline_hours: u64,
    ) -> (r: Result<u64, BountyError>)
        requires
            old(self).wf(),
        ensures
            final(self).wf(),
            r == outcome(old(self)@.create_check(*ctx), (old(self)@.tasks.len() + 1) as u64),
            final(self)@ == if old(self)@.create_check(*ctx) is None {
                old(self)@.create(*ctx, title_hash, description_hash, deadline_hours)
            } else {
                old(self)@
            },
            final(self)@ == step(
                old(self)@,
                *ctx,
                Operation::Create { title_hash, description_hash, deadline_hours },
            ),
    {
        if ctx.value == 0 {
            return Err(BountyError::NoFunds);
        }
        if self.tasks.len() as u64 >= COUNTER_LIMIT {
            return Err(BountyError::Overflow);
        }
        let st = self.stats_for(&ctx.sender);
        if st.created >= COUNTER_LIMIT {
            return Err(BountyError::Overflow);
        }
        assert(deadline_hours as u128 * 3600 <= 0xffff_ffff_ffff_ffff * 3600) by (nonlinear_arith)
            requires deadline_hours <= 0xffff_ffff_ffff_ffffu64;
        let deadline: u128 = ctx.now as u128 + deadline_hours as u128 * SECONDS_PER_HOUR as u128;
        let assignee = Address::zero();
        proof {
            lemma_zero_address(assignee);
        }
        let t = Task {
            creator: ctx.sender,
            bounty: ctx.value,
            assignee,
            status: TaskStatus::Open,
            title_hash,
            description_hash,
            accept_deadline: deadline,
            dispute_deadline: 0,
            disputed: false,
        };
        self.tasks.push(t);
        self.put_stats(&ctx.sender, UserStats { created: st.created + 1, ..st });
        assert(self@ =~= old(self)@.create(*ctx, title_hash, description_hash, deadline_hours));
        Ok(self.tasks.len() as u64)
    }

    /// Assigns an open task to the caller, while its acceptance deadline has
    /// not passed.
    pub fn accept_task(&mut self, ctx: &CallContext, task_id: u64) -> (r: Result<(), BountyError>)
        requires
            old(self).wf(),
        ensures
            final(self).wf(),
            r == outcome(old(self)@.accept_check(*ctx, task_id), ()),
            final(self)@ == if r is Ok {
                old(self)@.accept(*ctx, task_id)
            } else {
                old(self)@
            },
            final(self)@ == step(old(self)@, *ctx, Operation::Accept { task_id }),
    {
        if !self.is_known(task_id) {
            return Err(BountyError::UnknownTask);
        }
        let t = self.task_at(task_id);
        if t.status != TaskStatus::Open {
            return Err(BountyError::InvalidState);
        }
        if ctx.now as u128 > t.accept_deadline {
            return Err(BountyError::WindowExpired);
        }
        self.store_task(task_id, Task { assignee: ctx.sender, status: TaskStatus::InProgress, ..t });
        Ok(())
    }

    /// Marks the caller's task as completed and opens the dispute window.
    pub fn submit_task(&mut self, ctx: &CallContext, task_id: u64) -> (r: Result<(), BountyError>)
        requires
            old(self).wf(),
        ensures
            final(self).wf(),
            r == outcome(old(self)@.submit_check(*ctx, task_id), ()),
            final(self)@ == if r is Ok {
                old(self)@.submit(*ctx, task_id)
            } else {
                old(self)@
            },
            final(self)@ == step(old(self)@, *ctx, Operation::Submit { task_id }),
    {
        if !self.is_known(task_id) {
            return Err(BountyError::UnknownTask);
        }
        let t = self.task_at(task_id);
        if !t.assignee.same_as(&ctx.sender) {
            return Err(BountyError::Unauthorized);
        }
        if t.status != TaskStatus::InProgress {
            return Err(BountyError::InvalidState);
        }
        let dispute_deadline: u128 = ctx.now as u128 + DISPUTE_WINDOW_SECONDS as u128;
        self.store_task(
            task_id,
            Task { status: TaskStatus::Completed, dispute_deadline, ..t },
        );
        Ok(())
    }

    /// The refusals a payout of a known task may still meet: nothing left in
    /// escrow, or no room in the ledger or the worker's counter.
    fn payout_blocker(&self, task_id: u64) -> (r: Option<BountyError>)
        requires
            self.wf(),
            self@.known(task_id),
        ensures
            r == self@.payout_check(task_id),
    {
        let t = self.task_at(task_id);
        if t.bounty == 0 {
            return Some(BountyError::AlreadySettled);
        }
        let (fee, _payment) = split_payout(t.bounty, self.platform_fee);
        if fee > LEDGER_LIMIT - self.platform_balance {
            return Some(BountyError::Overflow);
        }
        let st = self.stats_for(&t.assignee);
        if st.completed >= COUNTER_LIMIT {
            return Some(BountyError::Overflow);
        }
        None
    }

    /// Pays out a task: the fee to the ledger, one more completed task for
    /// the worker, the bounty zeroed; returns the payment to the worker.
    fn pay_bounty(&mut self, task_id: u64) -> (r: Transfer)
        requires
            old(self).wf(),
            old(self)@.known(task_id),
            old(self)@.payout_check(task_id) is None,
        ensures
            final(self).wf(),
            final(self)@ == old(self)@.pay(task_id),
            r == old(self)@.payment(task_id),
    {
        let t = self.task_at(task_id);
        let (fee, payment) = split_payout(t.bounty, self.platform_fee);
        self.platform_balance = self.platform_balance + fee;
        let st = self.stats_for(&t.assignee);
        self.put_stats(&t.assignee, UserStats { completed: st.completed + 1, ..st });
        self.store_task(task_id, Task { bounty: 0, ..t });
        assert(self@ =~= old(self)@.pay(task_id));
        Transfer { to: t.assignee, amount: payment }
    }

    /// The creator's early release of the bounty of a completed, undisputed
    /// task. Returns the payment the host must send to the worker.
    pub fn approve_and_pay(&mut self, ctx: &CallContext, task_id: u64) -> (r: Result<
        Transfer,
        BountyError,
    >)
        requires
            old(self).wf(),
        ensures
            final(self).wf(),
            r == outcome(old(self)@.approve_check(*ctx, task_id), old(self)@.payment(task_id)),
            final(self)@ == if r is Ok {
                old(self)@.pay(task_id)
            } else {
                old(self)@
            },
            final(self)@ == step(old(self)@, *ctx, Operation::Approve { task_id }),
    {
        if !self.is_known(task_id) {
            return Err(BountyError::UnknownTask);
        }
        let t = self.task_at(task_id);
        if !t.creator.same_as(&ctx.sender) {
            return Err(BountyError::Unauthorized);
        }
        if t.disputed {
            return Err(BountyError::AlreadyDisputed);
        }
        if t.status != TaskStatus::Completed {
            return Err(BountyError::InvalidState);
        }
        match self.payout_blocker(task_id) {
            Some(e) => Err(e),
            None => Ok(self.pay_bounty(task_id)),
        }
    }

    /// Anyone's release of the bounty of a completed, undisputed task once
    /// its dispute window has fully elapsed. Returns the payment the host
    /// must send to the worker.
    pub fn release_payment(&mut self, ctx: &CallContext, task_id: u64) -> (r: Result<
        Transfer,
        BountyError,
    >)
        requires
            old(self).wf(),
        ensures
            final(self).wf(),
            r == outcome(old(self)@.release_check(*ctx, task_id), old(self)@.payment(task_id)),
            final(self)@ == if r is Ok {
                old(self)@.pay(task_id)
            } else {
                old(self)@
            },
            final(self)@ == step(old(self)@, *ctx, Operation::Release { task_id }),
    {
        if !self.is_known(task_id) {
            return Err(BountyError::UnknownTask);
        }
        let t = self.task_at(task_id);
        if t.disputed {
            return Err(BountyError::AlreadyDisputed);
        }
        if t.status != TaskStatus::Completed {
            return Err(BountyError::InvalidState);
        }
        if ctx.now as u128 <= t.dispute_deadline {
            return Err(BountyError::WindowNotYetElapsed);
        }
        match self.payout_blocker(task_id) {
            Some(e) => Err(e),
            None => Ok(self.pay_bounty(task_id)),
        }
    }

    /// The creator's dispute of a completed task, within its dispute window.
    /// A disputed task can no longer be paid out.
    pub fn raise_dispute(&mut self, ctx: &CallContext, task_id: u64) -> (r: Result<
        (),
        BountyError,
    >)
        requires
            old(self).wf(),
        ensures
            final(self).wf(),
            r == outcome(old(self)@.dispute_check(*ctx, task_id), ()),
            final(self)@ == if r is Ok {
                old(self)@.dispute(task_id)
            } else {
                old(self)@
            },
            final(self)@ == step(old(self)@, *ctx, Operation::Dispute { task_id }),
    {
        if !self.is_known(task_id) {
            return Err(BountyError::UnknownTask);
        }
        let t = self.task_at(task_id);
        if !t.creator.same_as(&ctx.sender) {
            return Err(BountyError::Unauthorized);
        }
        if t.status != TaskStatus::Completed {
            return Err(BountyError::InvalidState);
        }
        if ctx.now as u128 > t.dispute_deadline {
            return Err(BountyError::WindowExpired);
        }
        self.store_task(task_id, Task { disputed: true, status: TaskStatus::Disputed, ..t });
        Ok(())
    }

    /// The creator's withdrawal of a task nobody accepted. Returns the refund
    /// the host must send back to the creator. The status stays `Open`.
    pub fn cancel_task(&mut self, ctx: &CallContext, task_id: u64) -> (r: Result<
        Transfer,
        BountyError,
    >)
        requires
            old(self).wf(),
        ensures
            final(self).wf(),
            r == outcome(old(self)@.cancel_check(*ctx, task_id), old(self)@.refund(task_id)),
            final(self)@ == if r is Ok {
                old(self)@.cancel(task_id)
            } else {
                old(self)@
            },
            final(self)@ == step(old(self)@, *ctx, Operation::Cancel { task_id }),
    {
        if !self.is_known(task_id) {
            return Err(BountyError::UnknownTask);
        }
        let t = self.task_at(task_id);
        if !t.creator.same_as(&ctx.sender) {
            return Err(BountyError::Unauthorized);
        }
        if t.status != TaskStatus::Open {
            return Err(BountyError::InvalidState);
        }
        if t.bounty == 0 {
            return Err(BountyError::AlreadySettled);
        }
        self.store_task(task_id, Task { bounty: 0, ..t });
        Ok(Transfer { to: t.creator, amount: t.bounty })
    }

    /// Task `id` as (creator, bounty, assignee, status, title hash,
    /// description hash, acceptance deadline); all zero for an identifier
    /// with no task.
    pub fn get_task(&self, task_id: u64) -> (r: (
        Address,
        u128,
        Address,
        TaskStatus,
        [u8; 32],
        [u8; 32],
        u128,
    ))
        requires
            self.wf(),
        ensures
            r == self@.task_record(task_id),
    {
        if self.is_known(task_id) {
            let t = self.task_at(task_id);
            (
                t.creator,
                t.bounty,
                t.assignee,
                t.status,
                t.title_hash,
                t.description_hash,
                t.accept_deadline,
            )
        } else {
            let zero = Address::zero();
            let blank: [u8; 32] = [0u8; 32];
            proof {
                lemma_zero_address(zero);
                assert forall|i: int| 0 <= i < 32 implies blank[i] == 0u8 by {}
                lemma_zero_hash(blank);
            }
            (zero, 0, zero, TaskStatus::Open, blank, blank, 0)
        }
    }

    /// (completed, created) counts of `user`; zero for an address never seen.
    pub fn get_user_stats(&self, user: &Address) -> (r: (u64, u64))
        requires
            self.wf(),
        ensures
            r == (self@.stats_of(*user).completed, self@.stats_of(*user).created),
    {
        let st = self.stats_for(user);
        (st.completed, st.created)
    }

    /// The number of tasks ever created, which is also the latest identifier.
    pub fn get_task_count(&self) -> (r: u64)
        requires
            self.wf(),
        ensures
            r == self@.tasks.len(),
    {
        self.tasks.len() as u64
    }

    /// (fee rate in basis points, owner, accumulated fees).
    pub fn get_platform_stats(&self) -> (r: (u64, Address, u128))
        ensures
            r.0 == self@.fee_bp,
            r.1 == self@.owner,
            r.2 == self@.balance,
    {
        (self.platform_fee, self.platform_owner, self.platform_balance)
    }
}

} // verus!
