//! Escrow engine for paying an agent for finished work.
//!
//! A hirer locks funds in a record kept at a program-derived address. The
//! record moves through a small state machine: an authority completes the
//! task, the hirer cancels it, either party disputes it, and after a fixed
//! timeout anyone may release a disputed record to the agent. Every operation
//! is a function of the current state, the caller and the clock. It yields
//! the new state, the value transfers to carry out and an event, or an error
//! that leaves the state untouched.

mod address;
mod escrow;
mod book;
mod laws;

pub use address::{program_address_of, Address, ESCROW_SEED};
pub use escrow::{
    byte_len, dispute_expired, dispute_has_expired, fee_of, fee_split, split_of, Escrow,
    EscrowAccount, EscrowError, TaskCancelled, TaskCompleted, TaskCreated, TaskDisputed,
    TaskResolved, TaskStatus, Transfer, BPS_DENOMINATOR, DISPUTE_TIMEOUT_SECONDS,
    MAX_TASK_ID_LEN, PLATFORM_FEE_BPS,
};
pub use book::{
    accounts_wf, cancel_in, complete_in, create_in, derived_view, dispute_in, has_address,
    index_of, opened, resolve_in, CancelTask, CompleteTask, CreateTask, DisputeTask, EscrowBook,
    ResolveDispute,
};
pub use book::{
    cancel_task, complete_task, create_task, dispute_task, escrow_address, open_escrow,
    resolve_dispute,
};
pub use laws::{
    lemma_cancel_rules, lemma_complete_pays_whole_amount, lemma_complete_rules,
    lemma_create_opens_funded_record, lemma_create_twice_fails, lemma_dispute_rules,
    lemma_fixed_rate_split, lemma_resolve_pays_whole_amount, lemma_resolve_timeout,
    lemma_terminal_rejects_all, lemma_terms_are_immutable, keeps_terms,
};
