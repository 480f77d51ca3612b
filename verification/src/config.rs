//! The pool-wide configuration.

use crate::identity::{Bytes32, Identity};
use vstd::prelude::*;

verus! {

/// What a pool is told once, when it is initialized. Only the cancellation
/// flag changes afterwards, and only from `false` to `true`.
#[derive(Clone, Copy, Debug, PartialEq, Eq, Structural)]
pub struct PoolConfig {
    /// Who may cancel the pool.
    pub owner: Identity,
    /// The contract of the one token the pool holds.
    pub token: Identity,
    /// The ledger time of the initialization.
    pub created: u64,
    /// The bridge that carries deposits to the remote chain.
    pub allbridge_contract: Identity,
    /// The pool on the remote chain that receives the principal.
    pub destination_pool_address: Bytes32,
    /// The remote chain.
    pub destination_chain_id: u32,
    /// The token on the remote chain in which the principal arrives.
    pub destination_token: Bytes32,
    /// Whether the owner has cancelled the pool.
    pub cancelled: bool,
}

} // verus!
