//! The ways an operation on a pool can fail.

use vstd::prelude::*;

verus! {

/// Why an operation was refused. A refused operation leaves the pool as it
/// was.
#[derive(Clone, Copy, Debug, PartialEq, Eq, Structural)]
pub enum PoolError {
    /// The pool has not been initialized.
    Uninitialized,
    /// The pool has been initialized before.
    AlreadyInitialized,
    /// The caller does not hold the authorization the operation needs.
    Unauthorized,
    /// The amount to deposit is zero.
    InvalidAmount,
    /// No agreement is stored under the key.
    NotFound,
    /// The agreement is still running.
    StillActive,
    /// The funds may not be released to this recipient.
    WrongRecipient,
    /// The agreement has been paid out before.
    AlreadySettled,
    /// A time or an amount does not fit its integer type.
    ArithmeticOverflow,
    /// The token contract did not carry out a transfer.
    TransferFailed,
    /// The bridge did not accept the principal.
    BridgeForwardFailed,
    /// The operation has no defined behaviour yet.
    NotImplemented,
}

} // verus!
