//! What the pool asks its host to do, and what it reports back.
//!
//! The pool moves no tokens and publishes nothing itself. It hands out
//! instructions, the host carries them out against the token contract and
//! the bridge, and tells the pool how that went.

use crate::identity::{Bytes32, Identity};
use vstd::prelude::*;

verus! {

/// Move `amount` of `token` from `from` to `to`.
#[derive(Clone, Copy, Debug, PartialEq, Eq, Structural)]
pub struct TransferInstruction {
    /// The token contract to ask.
    pub token: Identity,
    /// Who gives.
    pub from: Identity,
    /// Who receives.
    pub to: Identity,
    /// How much.
    pub amount: u128,
}

/// Hand `amount` of `token` to the bridge, to arrive as `receive_token` at
/// `recipient` on chain `destination_chain_id`.
#[derive(Clone, Copy, Debug, PartialEq, Eq, Structural)]
pub struct BridgeInstruction {
    /// The bridge contract to ask.
    pub bridge: Identity,
    /// On whose behalf the principal is sent: the pool itself.
    pub sender: Identity,
    /// The token the principal is held in.
    pub token: Identity,
    /// The principal.
    pub amount: u128,
    /// The pool on the remote chain.
    pub recipient: Bytes32,
    /// The remote chain.
    pub destination_chain_id: u32,
    /// The token on the remote chain.
    pub receive_token: Bytes32,
    /// The number the depositor chose to tell this transfer from others.
    pub nonce: Bytes32,
    /// What the depositor pays for gas on the remote chain.
    pub gas_amount: u128,
    /// What the depositor pays the bridge, in the token.
    pub fee_token_amount: u128,
}

/// What a deposit takes outside the pool: `pull`, then `forward`. Where
/// the pull went through and the forward did not, `refund` undoes the pull.
#[derive(Clone, Copy, Debug, PartialEq, Eq, Structural)]
pub struct DepositInstructions {
    /// Pull the amount from the depositor into the pool's custody.
    pub pull: TransferInstruction,
    /// Forward the principal to the remote chain.
    pub forward: BridgeInstruction,
    /// Give the amount back to the depositor.
    pub refund: TransferInstruction,
}

/// A notice for observers of the pool.
#[derive(Clone, Copy, Debug, PartialEq, Eq, Structural)]
pub enum Event {
    /// An agreement that starts at `starttime` was accepted.
    AgreementCreated { starttime: u64 },
    /// The agreement that started at `starttime` was paid out with `amount`.
    BalanceWithdrawn { amount: u128, starttime: u64 },
}

/// What an accepted deposit hands back.
#[derive(Clone, Copy, Debug, PartialEq, Eq, Structural)]
pub struct DepositReceipt {
    /// The start time of the new agreement; with `sequence`, its key.
    pub starttime: u64,
    /// The sequence number of the new agreement.
    pub sequence: u64,
    /// The notice to publish.
    pub event: Event,
}

/// What an accepted withdrawal hands back.
#[derive(Clone, Copy, Debug, PartialEq, Eq, Structural)]
pub struct WithdrawReceipt {
    /// The amount that left the pool's custody.
    pub amount: u128,
    /// The notice to publish.
    pub event: Event,
}

} // verus!
