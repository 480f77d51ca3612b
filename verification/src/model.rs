//! The pool as a mathematical value, and the rules by which it changes.

use crate::action::{BridgeInstruction, DepositInstructions, TransferInstruction};
use crate::agreement::{AgreementView, DataKey};
use crate::config::PoolConfig;
use crate::error::PoolError;
use crate::identity::{Bytes32, Identity};
use crate::state::State;
use vstd::prelude::*;

verus! {

impl AgreementView {
    /// What the agreement still claims from the pool's custody.
    pub open spec fn claim(self) -> nat {
        if self.settled {
            0
        } else {
            self.amount as nat
        }
    }

    /// The agreement may stand at position `index` of a pool's store.
    pub open spec fn stored_at(self, index: int) -> bool {
        &&& self.sequence == index
        &&& self.amount > 0
        &&& self.expiry_fits()
    }

    /// The agreement after it has been paid out.
    pub open spec fn settle(self) -> AgreementView {
        AgreementView { settled: true, ..self }
    }
}

/// The sum of what the agreements still claim.
pub open spec fn escrowed(agreements: Seq<AgreementView>) -> nat
    decreases agreements.len(),
{
    if agreements.len() == 0 {
        0
    } else {
        escrowed(agreements.drop_last()) + agreements.last().claim()
    }
}

/// A pool as a mathematical value.
pub struct PoolView {
    /// The pool's own identity on the ledger.
    pub contract_id: Identity,
    /// The configuration, once the pool is initialized.
    pub config: Option<PoolConfig>,
    /// Every agreement the pool has accepted, in order of acceptance.
    pub agreements: Seq<AgreementView>,
    /// How much of the token the pool holds for its depositors.
    pub custody: nat,
}

impl PoolView {
    /// What holds of every pool: agreements are numbered by their position,
    /// hold a positive amount and have an expiry, and the custody is
    /// exactly what the unsettled agreements claim.
    pub open spec fn wf(self) -> bool {
        &&& self.config is None ==> self.agreements.len() == 0
        &&& self.agreements.len() <= u64::MAX
        &&& forall|i: int|
            0 <= i < self.agreements.len() ==> (#[trigger] self.agreements[i]).stored_at(i)
        &&& self.custody == escrowed(self.agreements)
        &&& self.custody <= u128::MAX
    }

    /// A pool that has not been initialized.
    pub open spec fn fresh(contract_id: Identity) -> PoolView {
        PoolView { contract_id, config: None, agreements: Seq::empty(), custody: 0 }
    }

    /// The pool that holds the given agreements, and in custody exactly
    /// what they claim.
    pub open spec fn restored(
        contract_id: Identity,
        config: Option<PoolConfig>,
        agreements: Seq<AgreementView>,
    ) -> PoolView {
        PoolView { contract_id, config, agreements, custody: escrowed(agreements) }
    }

    /// Whether the cancellation flag is set.
    pub open spec fn cancelled(self) -> bool {
        self.config matches Some(config) && config.cancelled
    }

    /// The agreement stored under the given start time and sequence number.
    pub open spec fn find(self, starttime: u64, sequence: u64) -> Option<AgreementView> {
        if sequence < self.agreements.len() && self.agreements[sequence as int].starttime
            == starttime {
            Some(self.agreements[sequence as int])
        } else {
            None
        }
    }

    /// Whether a value is stored under `key`.
    pub open spec fn stores(self, key: DataKey) -> bool {
        match key {
            DataKey::StartTime(starttime, sequence) => self.find(starttime, sequence) is Some,
            _ => self.config is Some,
        }
    }

    /// The number that stands for the state of `agreement` at time `now`,
    /// as this pool sees it.
    pub open spec fn state_code(
        self,
        agreement: AgreementView,
        now: u64,
    ) -> Result<u32, PoolError> {
        if self.config is None {
            Err(PoolError::Uninitialized)
        } else {
            match agreement.state_at(now, self.cancelled()) {
                Ok(state) => Ok(state.spec_code()),
                Err(error) => Err(error),
            }
        }
    }

    /// Why `initialize` is refused, if it is.
    pub open spec fn initialize_refusal(self) -> Option<PoolError> {
        if self.config is Some {
            Some(PoolError::AlreadyInitialized)
        } else {
            None
        }
    }

    /// The pool after it has been initialized with `config`.
    pub open spec fn after_initialize(self, config: PoolConfig) -> PoolView {
        PoolView { config: Some(config), ..self }
    }

    /// Why `cancel` is refused, if it is.
    pub open spec fn cancel_refusal(self, caller: Identity, authorized: bool) -> Option<PoolError> {
        if !authorized {
            Some(PoolError::Unauthorized)
        } else if self.config is None {
            Some(PoolError::Uninitialized)
        } else if caller != self.config.unwrap().owner {
            Some(PoolError::Unauthorized)
        } else {
            None
        }
    }

    /// The pool after its owner has cancelled it.
    pub open spec fn after_cancel(self) -> PoolView {
        PoolView { config: Some(PoolConfig { cancelled: true, ..self.config.unwrap() }), ..self }
    }

    /// Why a deposit is refused before anything is asked of the token
    /// contract or the bridge, if it is.
    pub open spec fn deposit_refusal(
        self,
        amount: u128,
        timeperiod: u64,
        authorized: bool,
        now: u64,
    ) -> Option<PoolError> {
        if !authorized {
            Some(PoolError::Unauthorized)
        } else if amount == 0 {
            Some(PoolError::InvalidAmount)
        } else if self.config is None {
            Some(PoolError::Uninitialized)
        } else if now + timeperiod > u64::MAX || self.custody + amount > u128::MAX
            || self.agreements.len() >= u64::MAX {
            Some(PoolError::ArithmeticOverflow)
        } else {
            None
        }
    }

    /// What a deposit asks of the token contract and of the bridge: to pull
    /// the amount from the depositor into the pool's custody and to hand
    /// the principal to the configured bridge; and, should the bridge not
    /// take it, to give the amount back.
    pub open spec fn deposit_instructions(
        self,
        user: Identity,
        amount: u128,
        nonce: Bytes32,
        gas_amount: u128,
        fee_token_amount: u128,
    ) -> DepositInstructions {
        let config = self.config.unwrap();
        DepositInstructions {
            pull: TransferInstruction {
                token: config.token,
                from: user,
                to: self.contract_id,
                amount,
            },
            forward: BridgeInstruction {
                bridge: config.allbridge_contract,
                sender: self.contract_id,
                token: config.token,
                amount,
                recipient: config.destination_pool_address,
                destination_chain_id: config.destination_chain_id,
                receive_token: config.destination_token,
                nonce,
                gas_amount,
                fee_token_amount,
            },
            refund: TransferInstruction {
                token: config.token,
                from: self.contract_id,
                to: user,
                amount,
            },
        }
    }

    /// Why a deposit fails, if it does, once it is known whether the amount
    /// was pulled into custody and whether the bridge took the principal.
    pub open spec fn deposit_failure(
        self,
        amount: u128,
        timeperiod: u64,
        authorized: bool,
        now: u64,
        pulled: bool,
        forwarded: bool,
    ) -> Option<PoolError> {
        if self.deposit_refusal(amount, timeperiod, authorized, now) is Some {
            self.deposit_refusal(amount, timeperiod, authorized, now)
        } else if !pulled {
            Some(PoolError::TransferFailed)
        } else if !forwarded {
            Some(PoolError::BridgeForwardFailed)
        } else {
            None
        }
    }

    /// The agreement that a deposit accepted at time `now` creates.
    pub open spec fn new_agreement(
        self,
        user: Identity,
        amount: u128,
        currency: Seq<char>,
        timeperiod: u64,
        now: u64,
    ) -> AgreementView {
        AgreementView {
            amount,
            address: user,
            currency,
            timeperiod,
            starttime: now,
            sequence: self.agreements.len() as u64,
            settled: false,
        }
    }

    /// The pool after it has accepted `agreement`.
    pub open spec fn after_deposit(self, agreement: AgreementView) -> PoolView {
        PoolView {
            agreements: self.agreements.push(agreement),
            custody: self.custody + agreement.amount as nat,
            ..self
        }
    }

    /// Why a withdrawal is refused before anything is asked of the token
    /// contract, if it is.
    pub open spec fn withdraw_refusal(
        self,
        to: Identity,
        starttime: u64,
        sequence: u64,
        now: u64,
    ) -> Option<PoolError> {
        if self.config is None {
            Some(PoolError::Uninitialized)
        } else if self.find(starttime, sequence) is None {
            Some(PoolError::NotFound)
        } else {
            let config = self.config.unwrap();
            let agreement = self.find(starttime, sequence).unwrap();
            match agreement.state_at(now, config.cancelled) {
                Err(error) => Some(error),
                Ok(State::Running) => Some(PoolError::StillActive),
                Ok(State::Cancelled) => if agreement.settled {
                    Some(PoolError::AlreadySettled)
                } else if to != config.owner {
                    Some(PoolError::WrongRecipient)
                } else {
                    Some(PoolError::NotImplemented)
                },
                Ok(State::Expired) => if agreement.settled {
                    Some(PoolError::AlreadySettled)
                } else if to != agreement.address || to == config.owner {
                    Some(PoolError::WrongRecipient)
                } else {
                    None
                },
            }
        }
    }

    /// What a withdrawal asks of the token contract.
    pub open spec fn withdraw_instruction(
        self,
        to: Identity,
        sequence: u64,
    ) -> TransferInstruction {
        TransferInstruction {
            token: self.config.unwrap().token,
            from: self.contract_id,
            to,
            amount: self.agreements[sequence as int].amount,
        }
    }

    /// Why a withdrawal fails, if it does, once it is known whether the
    /// amount was pushed to the recipient.
    pub open spec fn withdraw_failure(
        self,
        to: Identity,
        starttime: u64,
        sequence: u64,
        now: u64,
        pushed: bool,
    ) -> Option<PoolError> {
        if self.withdraw_refusal(to, starttime, sequence, now) is Some {
            self.withdraw_refusal(to, starttime, sequence, now)
        } else if !pushed {
            Some(PoolError::TransferFailed)
        } else {
            None
        }
    }

    /// The pool after the agreement numbered `sequence` has been paid out.
    pub open spec fn after_withdraw(self, sequence: u64) -> PoolView {
        let agreement = self.agreements[sequence as int];
        PoolView {
            agreements: self.agreements.update(sequence as int, agreement.settle()),
            custody: (self.custody - agreement.amount) as nat,
            ..self
        }
    }
}

/// Appending an agreement adds its claim to the sum.
pub proof fn lemma_escrowed_push(agreements: Seq<AgreementView>, agreement: AgreementView)
    ensures
        escrowed(agreements.push(agreement)) == escrowed(agreements) + agreement.claim(),
{
    assert(agreements.push(agreement).drop_last() =~= agreements);
}

/// The claims of a longer prefix include those of a shorter one.
pub proof fn lemma_escrowed_prefix(agreements: Seq<AgreementView>, shorter: int, longer: int)
    requires
        0 <= shorter <= longer <= agreements.len(),
    ensures
        escrowed(agreements.take(shorter)) <= escrowed(agreements.take(longer)),
    decreases longer - shorter,
{
    if shorter < longer {
        lemma_escrowed_prefix(agreements, shorter, longer - 1);
        assert(agreements.take(longer).drop_last() =~= agreements.take(longer - 1));
    }
}

/// Settling an agreement takes exactly its claim out of the sum.
pub proof fn lemma_escrowed_settle(agreements: Seq<AgreementView>, index: int)
    requires
        0 <= index < agreements.len(),
    ensures
        escrowed(agreements.update(index, agreements[index].settle())) + agreements[index].claim()
            == escrowed(agreements),
    decreases agreements.len(),
{
    let settled = agreements.update(index, agreements[index].settle());
    if index == agreements.len() - 1 {
        assert(settled.drop_last() =~= agreements.drop_last());
    } else {
        lemma_escrowed_settle(agreements.drop_last(), index);
        assert(settled.drop_last() =~= agreements.drop_last().update(
            index,
            agreements[index].settle(),
        ));
    }
}

} // verus!
