use vstd::prelude::*;

verus! {

/// A 20-byte account address. The all-zero address stands for "nobody".
#[derive(Clone, Copy, Debug)]
pub struct Address {
    pub bytes: [u8; 20],
}

impl Address {
    pub open spec fn is_zero(self) -> bool {
        forall|i: int| 0 <= i < 20 ==> self.bytes[i] == 0u8
    }

    /// The zero address.
    pub fn zero() -> (r: Address)
        ensures
            r.is_zero(),
    {
        Address { bytes: [0u8; 20] }
    }

    pub fn from_bytes(bytes: [u8; 20]) -> (r: Address)
        ensures
            r.bytes == bytes,
    {
        Address { bytes }
    }

    /// Byte-wise comparison of two addresses.
    pub fn same_as(&self, other: &Address) -> (r: bool)
        ensures
            r == (*self == *other),
    {
        let mut i: usize = 0;
        while i < 20
            invariant
                i <= 20,
                forall|k: int| 0 <= k < i ==> self.bytes[k] == other.bytes[k],
            decreases 20 - i,
        {
            if self.bytes[i] != other.bytes[i] {
                return false;
            }
            i = i + 1;
        }
        assert(self.bytes =~= other.bytes);
        true
    }

    pub fn is_zero_address(&self) -> (r: bool)
        ensures
            r == self.is_zero(),
    {
        let mut i: usize = 0;
        while i < 20
            invariant
                i <= 20,
                forall|k: int| 0 <= k < i ==> self.bytes[k] == 0u8,
            decreases 20 - i,
        {
            if self.bytes[i] != 0 {
                return false;
            }
            i = i + 1;
        }
        true
    }
}

/// Lifecycle stage of a task.
#[derive(Clone, Copy, Debug, PartialEq, Eq, Structural)]
pub enum TaskStatus {
    Open,
    InProgress,
    Completed,
    Disputed,
}

impl TaskStatus {
    /// The numeric tag of the status, as exposed to external callers.
    pub fn code(&self) -> (r: u8)
        ensures
            r == self.spec_code(),
    {
        match self {
            TaskStatus::Open => 0,
            TaskStatus::InProgress => 1,
            TaskStatus::Completed => 2,
            TaskStatus::Disputed => 3,
        }
    }

    pub open spec fn spec_code(self) -> u8 {
        match self {
            TaskStatus::Open => 0,
            TaskStatus::InProgress => 1,
            TaskStatus::Completed => 2,
            TaskStatus::Disputed => 3,
        }
    }
}

/// One task record. Records are never deleted; a zero `bounty` marks a task
/// whose funds were paid out or refunded.
#[derive(Clone, Copy, Debug)]
pub struct Task {
    pub creator: Address,
    pub bounty: u128,
    pub assignee: Address,
    pub status: TaskStatus,
    pub title_hash: [u8; 32],
    pub description_hash: [u8; 32],
    pub accept_deadline: u128,
    pub dispute_deadline: u128,
    pub disputed: bool,
}

/// Per-address counters; they only ever grow.
#[derive(Clone, Copy, Debug, PartialEq, Eq, Structural)]
pub struct UserStats {
    pub completed: u64,
    pub created: u64,
}

/// What the host supplies to every operation: who calls, how much value is
/// attached to the call, and the current time in seconds.
#[derive(Clone, Copy, Debug)]
pub struct CallContext {
    pub sender: Address,
    pub value: u128,
    pub now: u64,
}

/// A movement of funds that the host must carry out for the operation to
/// take effect. Should the transfer fail, the host discards the whole
/// operation (restores the engine as it was before the call).
#[derive(Clone, Copy, Debug)]
pub struct Transfer {
    pub to: Address,
    pub amount: u128,
}

/// Why an operation was refused. A refused operation leaves the engine
/// unchanged.
#[derive(Clone, Copy, Debug, PartialEq, Eq, Structural)]
pub enum BountyError {
    /// No task has this identifier.
    UnknownTask,
    /// The caller does not hold the role the operation asks for.
    Unauthorized,
    /// The task is not in the status the operation asks for.
    InvalidState,
    /// The time window for the operation has closed.
    WindowExpired,
    /// The dispute window has not elapsed yet.
    WindowNotYetElapsed,
    /// The creator has disputed the task.
    AlreadyDisputed,
    /// A task was offered without attached value.
    NoFunds,
    /// The task's bounty was already paid out or refunded.
    AlreadySettled,
    /// A counter or the fee ledger cannot absorb the change.
    Overflow,
}

} // verus!
