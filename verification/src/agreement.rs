//! Agreements, the keys they are stored under, and their lifecycle.

use crate::error::PoolError;
use crate::identity::Identity;
use crate::state::State;
use vstd::prelude::*;

verus! {

/// Names a slot of the pool's storage.
#[derive(Clone, Copy, Debug, PartialEq, Eq, Structural)]
pub enum DataKey {
    /// The agreement that started at the given time and was given the
    /// given sequence number. The sequence number tells apart agreements
    /// that started in the same instant.
    StartTime(u64, u64),
    /// The owner of the pool.
    Owner,
    /// The contract of the token the pool holds.
    Token,
    /// The ledger time of the initialization.
    Created,
    /// The bridge.
    AllbridgeContract,
    /// The pool on the remote chain.
    DestinationPoolAddress,
    /// The remote chain.
    DestinationChainID,
    /// The token on the remote chain.
    DestinationToken,
    /// The pool-wide cancellation flag.
    Cancelled,
}

/// One deposit held in escrow.
#[derive(Clone, Debug, PartialEq, Eq)]
pub struct LendingAgreement {
    /// How much of the pool's token is held; never zero in a stored
    /// agreement.
    pub amount: u128,
    /// The depositor.
    pub address: Identity,
    /// A tag that names the denomination; the pool does not interpret it.
    pub currency: String,
    /// How long the agreement runs, counted from `starttime`.
    pub timeperiod: u64,
    /// The ledger time at which the deposit was made.
    pub starttime: u64,
    /// The number of deposits the pool had accepted before this one.
    pub sequence: u64,
    /// Whether the escrowed amount has been paid out.
    pub settled: bool,
}

/// An agreement as a mathematical value: the fields of a
/// `LendingAgreement`, with the tag as a sequence of characters.
pub struct AgreementView {
    pub amount: u128,
    pub address: Identity,
    pub currency: Seq<char>,
    pub timeperiod: u64,
    pub starttime: u64,
    pub sequence: u64,
    pub settled: bool,
}

impl View for LendingAgreement {
    type V = AgreementView;

    open spec fn view(&self) -> AgreementView {
        AgreementView {
            amount: self.amount,
            address: self.address,
            currency: self.currency@,
            timeperiod: self.timeperiod,
            starttime: self.starttime,
            sequence: self.sequence,
            settled: self.settled,
        }
    }
}

/// The agreements of a store as mathematical values.
pub open spec fn agreement_views(agreements: Seq<LendingAgreement>) -> Seq<AgreementView> {
    agreements.map_values(|agreement: LendingAgreement| agreement@)
}

impl AgreementView {
    /// The first instant at which the agreement is no longer running.
    pub open spec fn expiry(self) -> int {
        self.starttime + self.timeperiod
    }

    /// The expiry can be held in a ledger timestamp.
    pub open spec fn expiry_fits(self) -> bool {
        self.expiry() <= u64::MAX
    }

    /// The key under which the agreement is stored.
    pub open spec fn storage_key(self) -> DataKey {
        DataKey::StartTime(self.starttime, self.sequence)
    }

    /// The state of the agreement at time `now`, in a pool whose
    /// cancellation flag is `cancelled`. Cancellation comes first; an
    /// agreement whose expiry cannot be held has no state otherwise.
    pub open spec fn state_at(self, now: u64, cancelled: bool) -> Result<State, PoolError> {
        if cancelled {
            Ok(State::Cancelled)
        } else if !self.expiry_fits() {
            Err(PoolError::ArithmeticOverflow)
        } else if now < self.expiry() {
            Ok(State::Running)
        } else {
            Ok(State::Expired)
        }
    }
}

impl LendingAgreement {
    /// The key under which this agreement is stored.
    pub fn storage_key(&self) -> (key: DataKey)
        ensures
            key == self@.storage_key(),
    {
        DataKey::StartTime(self.starttime, self.sequence)
    }
}

/// Derives the lifecycle state of `agreement` at `current_time`.
///
/// A cancelled pool makes every agreement `Cancelled`, whatever the time.
/// Otherwise the agreement is `Running` before `starttime + timeperiod` and
/// `Expired` from then on; where that sum does not fit in 64 bits the call
/// fails with `ArithmeticOverflow`.
pub fn derive_state(
    agreement: &LendingAgreement,
    current_time: u64,
    cancelled: bool,
) -> (result: Result<State, PoolError>)
    ensures
        result == agreement@.state_at(current_time, cancelled),
        cancelled ==> result matches Ok(State::Cancelled),
        !cancelled && agreement@.expiry_fits() && current_time < agreement@.expiry()
            ==> result matches Ok(State::Running),
        !cancelled && agreement@.expiry_fits() && current_time >= agreement@.expiry()
            ==> result matches Ok(State::Expired),
        !cancelled && !agreement@.expiry_fits() ==> result matches Err(
            PoolError::ArithmeticOverflow,
        ),
{
    if cancelled {
        return Ok(State::Cancelled);
    }
    match agreement.starttime.checked_add(agreement.timeperiod) {
        None => Err(PoolError::ArithmeticOverflow),
        Some(expiry) => {
            if current_time < expiry {
                Ok(State::Running)
            } else {
                Ok(State::Expired)
            }
        },
    }
}

} // verus!
