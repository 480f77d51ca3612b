//! Time-bound lending agreements held in escrow by a pool.
//!
//! A depositor locks an amount of the pool's token for a fixed period. The
//! pool forwards the principal to a remote chain through a bridge, and
//! releases the escrowed amount to the depositor once the period is over.
//!
//! The pool itself only keeps the books. Reading the ledger clock, checking
//! authorization, moving tokens and talking to the bridge are the host's
//! part: it passes in what it read, carries out the instructions the pool
//! hands out, and reports how they went.

pub mod action;
pub mod agreement;
pub mod config;
pub mod error;
pub mod identity;
pub mod laws;
pub mod model;
pub mod pool;
pub mod state;

pub use crate::action::{
    BridgeInstruction, DepositInstructions, DepositReceipt, Event, TransferInstruction,
    WithdrawReceipt,
};
pub use crate::agreement::{derive_state, DataKey, LendingAgreement};
pub use crate::config::PoolConfig;
pub use crate::error::PoolError;
pub use crate::identity::{Bytes32, Identity, IdentityKind};
pub use crate::pool::LendingPool;
pub use crate::state::State;
