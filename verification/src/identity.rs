//! Plain values that name the parties and the assets a pool deals with.

use vstd::prelude::*;

verus! {

/// Thirty-two bytes in big-endian order, held as two 128-bit halves.
///
/// Contract hashes, account keys, addresses on a remote chain and 256-bit
/// nonces all have this shape.
#[derive(Clone, Copy, Debug, PartialEq, Eq, Structural)]
pub struct Bytes32 {
    /// The first sixteen bytes.
    pub hi: u128,
    /// The last sixteen bytes.
    pub lo: u128,
}

/// What an identity stands for on the ledger.
#[derive(Clone, Copy, Debug, PartialEq, Eq, Structural)]
pub enum IdentityKind {
    /// An account, named by its public key.
    Account,
    /// A contract, named by its hash.
    Contract,
}

/// A party on the ledger: a depositor, the pool's owner, the pool itself,
/// a token contract or the bridge. The pool only ever asks whether two
/// identities are the same.
#[derive(Clone, Copy, Debug, PartialEq, Eq, Structural)]
pub struct Identity {
    /// Whether the key names an account or a contract.
    pub kind: IdentityKind,
    /// The public key of the account, or the hash of the contract.
    pub key: Bytes32,
}

} // verus!
