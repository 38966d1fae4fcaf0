//! Task-bounty escrow engine: a creator posts a bounty on a task, a worker
//! accepts and submits it, and the bounty is paid out (minus a platform fee)
//! either on the creator's approval or once the dispute window has elapsed.
//!
//! The engine never reads a clock, an identity or a balance by itself: every
//! operation receives a [`CallContext`], and every movement of funds is handed
//! back to the caller as a [`Transfer`] to perform.

mod types;
mod fee;
mod model;
mod engine;
mod laws;

pub use types::{Address, BountyError, CallContext, Task, TaskStatus, Transfer, UserStats};
pub use fee::{compute_fee, fee_of, split_payout, DEFAULT_FEE_BASIS_POINTS};
pub use model::{BountyState, DISPUTE_WINDOW_SECONDS, SECONDS_PER_HOUR};
pub use engine::TaskBounty;
pub use laws::{
    lemma_dispute_blocks_payout, lemma_evolves_transitive, lemma_settles_at_most_once,
    lemma_step_evolves, lemma_step_keeps_records, lemma_trace_evolves, consistent, evolves,
    is_run, settles, status_edge, step, task_consistent, Operation,
};
