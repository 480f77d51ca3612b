//! The lending pool.

use crate::action::{
    BridgeInstruction, DepositInstructions, DepositReceipt, Event, TransferInstruction,
    WithdrawReceipt,
};
use crate::agreement::{agreement_views, derive_state, DataKey, LendingAgreement};
use crate::config::PoolConfig;
use crate::error::PoolError;
use crate::identity::{Bytes32, Identity};
use crate::model::{
    escrowed, lemma_escrowed_prefix, lemma_escrowed_push, lemma_escrowed_settle, PoolView,
};
use crate::state::State;
use vstd::prelude::*;

verus! {

/// A pool that holds deposits in escrow for a fixed period each.
///
/// The pool keeps the books: its configuration, every agreement it has
/// accepted, and how much it holds in custody. It reads no clock and moves
/// no tokens. Its host passes in the ledger time and whether the caller is
/// authorized, carries out the transfers the pool asks for, and reports
/// whether they went through.
///
/// A deposit or a withdrawal takes two calls. The first, on the pool as it
/// stands, checks the request and hands out the instructions. The host
/// carries them out, and the second call books the result. The pool
/// changes in the second call only, and only where every instruction went
/// through: a request that fails at any step leaves no trace in the books.
pub struct LendingPool {
    contract_id: Identity,
    config: Option<PoolConfig>,
    agreements: Vec<LendingAgreement>,
    custody: u128,
}

impl View for LendingPool {
    type V = PoolView;

    closed spec fn view(&self) -> PoolView {
        PoolView {
            contract_id: self.contract_id,
            config: self.config,
            agreements: agreement_views(self.agreements@),
            custody: self.custody as nat,
        }
    }
}

impl LendingPool {
    /// The pool's books are in order.
    pub open spec fn wf(&self) -> bool {
        self@.wf()
    }

    /// A pool with the given identity that has yet to be initialized.
    pub fn new(contract_id: Identity) -> (pool: LendingPool)
        ensures
            pool.wf(),
            pool@ == PoolView::fresh(contract_id),
    {
        let pool = LendingPool { contract_id, config: None, agreements: Vec::new(), custody: 0 };
        proof {
            assert(pool@.agreements =~= Seq::empty());
        }
        pool
    }

    /// Puts a pool together again from what was stored of it: its identity,
    /// its configuration and its agreements in order of acceptance. The
    /// custody is what the unsettled agreements claim.
    ///
    /// The parts are refused where they are not those of a pool: where
    /// there are agreements without a configuration, where an agreement is
    /// not numbered by its position, holds no amount or has an expiry that
    /// does not fit in 64 bits, or where the claims do not fit in 128 bits.
    pub fn restore(
        contract_id: Identity,
        config: Option<PoolConfig>,
        agreements: Vec<LendingAgreement>,
    ) -> (result: Option<LendingPool>)
        ensures
            match result {
                Some(pool) => {
                    &&& pool.wf()
                    &&& pool@ == PoolView::restored(
                        contract_id,
                        config,
                        agreement_views(agreements@),
                    )
                },
                None => !PoolView::restored(contract_id, config, agreement_views(agreements@)).wf(),
            },
    {
        let ghost views = agreement_views(agreements@);
        if config.is_none() && agreements.len() > 0 {
            return None;
        }
        let mut custody: u128 = 0;
        let mut index: usize = 0;
        while index < agreements.len()
            invariant
                index <= agreements.len(),
                views == agreement_views(agreements@),
                views.len() == agreements.len(),
                forall|i: int| 0 <= i < index ==> (#[trigger] views[i]).stored_at(i),
                custody == escrowed(views.take(index as int)),
            decreases agreements.len() - index,
        {
            let agreement = &agreements[index];
            proof {
                assert(views[index as int] == agreement@);
                assert(views.take(index + 1).drop_last() =~= views.take(index as int));
                lemma_escrowed_prefix(views, index + 1, views.len() as int);
                assert(views.take(views.len() as int) =~= views);
            }
            if agreement.sequence != index as u64 || agreement.amount == 0
                || agreement.starttime.checked_add(agreement.timeperiod).is_none() {
                assert(!views[index as int].stored_at(index as int));
                return None;
            }
            if !agreement.settled {
                custody = match custody.checked_add(agreement.amount) {
                    None => {
                        return None;
                    },
                    Some(sum) => sum,
                };
            }
            index = index + 1;
        }
        proof {
            assert(views.take(index as int) =~= views);
        }
        Some(LendingPool { contract_id, config, agreements, custody })
    }

    /// Sets the pool's configuration, once and for all, at ledger time
    /// `now`. A second call fails with `AlreadyInitialized` and changes
    /// nothing.
    pub fn initialize(
        &mut self,
        owner: Identity,
        token: Identity,
        allbridge_contract: Identity,
        destination_pool_address: Bytes32,
        destination_chain_id: u32,
        destination_token: Bytes32,
        now: u64,
    ) -> (result: Result<(), PoolError>)
        requires
            old(self).wf(),
        ensures
            final(self).wf(),
            match result {
                Ok(_) => {
                    &&& old(self)@.initialize_refusal() is None
                    &&& final(self)@ == old(self)@.after_initialize(
                        PoolConfig {
                            owner,
                            token,
                            created: now,
                            allbridge_contract,
                            destination_pool_address,
                            destination_chain_id,
                            destination_token,
                            cancelled: false,
                        },
                    )
                },
                Err(error) => {
                    &&& old(self)@.initialize_refusal() == Some(error)
                    &&& final(self)@ == old(self)@
                },
            },
    {
        if self.config.is_some() {
            return Err(PoolError::AlreadyInitialized);
        }
        self.config = Some(
            PoolConfig {
                owner,
                token,
                created: now,
                allbridge_contract,
                destination_pool_address,
                destination_chain_id,
                destination_token,
                cancelled: false,
            },
        );
        Ok(())
    }

    /// Sets the cancellation flag, for good. Only the owner may do so:
    /// without authorization the call fails with `Unauthorized`, on an
    /// uninitialized pool with `Uninitialized`, and for any caller but the
    /// owner with `Unauthorized`. Cancelling a cancelled pool changes
    /// nothing.
    pub fn cancel(&mut self, caller: Identity, authorized: bool) -> (result: Result<(), PoolError>)
        requires
            old(self).wf(),
        ensures
            final(self).wf(),
            match result {
                Ok(_) => {
                    &&& old(self)@.cancel_refusal(caller, authorized) is None
                    &&& final(self)@ == old(self)@.after_cancel()
                },
                Err(error) => {
                    &&& old(self)@.cancel_refusal(caller, authorized) == Some(error)
                    &&& final(self)@ == old(self)@
                },
            },
    {
        if !authorized {
            return Err(PoolError::Unauthorized);
        }
        let config = match self.config {
            None => {
                return Err(PoolError::Uninitialized);
            },
            Some(config) => config,
        };
        if caller != config.owner {
            return Err(PoolError::Unauthorized);
        }
        self.config = Some(PoolConfig { cancelled: true, ..config });
        Ok(())
    }

    /// Why a deposit is refused before the host is asked to move anything,
    /// if it is.
    fn deposit_refusal(
        &self,
        amount: u128,
        timeperiod: u64,
        authorized: bool,
        now: u64,
    ) -> (refusal: Option<PoolError>)
        ensures
            refusal == self@.deposit_refusal(amount, timeperiod, authorized, now),
    {
        if !authorized {
            return Some(PoolError::Unauthorized);
        }
        if amount == 0 {
            return Some(PoolError::InvalidAmount);
        }
        if self.config.is_none() {
            return Some(PoolError::Uninitialized);
        }
        if now.checked_add(timeperiod).is_none() || self.custody.checked_add(amount).is_none()
            || self.agreements.len() as u64 == u64::MAX {
            return Some(PoolError::ArithmeticOverflow);
        }
        None
    }

    /// Checks a deposit and says what the host has to do for it: pull
    /// `amount` from `user` into the pool's custody, then hand the
    /// principal to the bridge.
    ///
    /// `authorized` says whether `user` has authorized the call, `now` is
    /// the ledger time. The checks come in this order: without
    /// authorization the call fails with `Unauthorized`; a zero amount
    /// fails with `InvalidAmount`; an uninitialized pool with
    /// `Uninitialized`; and where `now + timeperiod`, the custody after the
    /// deposit or the number of agreements would not fit its integer type,
    /// with `ArithmeticOverflow`. Nothing else is checked: a cancelled pool
    /// takes deposits like any other. The pool does not change.
    pub fn deposit_instructions(
        &self,
        user: Identity,
        amount: u128,
        timeperiod: u64,
        nonce: Bytes32,
        gas_amount: u128,
        fee_token_amount: u128,
        authorized: bool,
        now: u64,
    ) -> (result: Result<DepositInstructions, PoolError>)
        ensures
            match result {
                Ok(instructions) => {
                    &&& self@.deposit_refusal(amount, timeperiod, authorized, now) is None
                    &&& instructions == self@.deposit_instructions(
                        user,
                        amount,
                        nonce,
                        gas_amount,
                        fee_token_amount,
                    )
                },
                Err(error) => self@.deposit_refusal(amount, timeperiod, authorized, now) == Some(
                    error,
                ),
            },
            !authorized ==> result matches Err(PoolError::Unauthorized),
            authorized && amount == 0 ==> result matches Err(PoolError::InvalidAmount),
    {
        if let Some(error) = self.deposit_refusal(amount, timeperiod, authorized, now) {
            return Err(error);
        }
        let config = self.config.unwrap();
        Ok(
            DepositInstructions {
                pull: TransferInstruction {
                    token: config.token,
                    from: user,
                    to: self.contract_id,
                    amount,
                },
                forward: BridgeInstruction {
                    bridge: config.allbridge_contract,
                    sender: self.contract_id,
                    token: config.token,
                    amount,
                    recipient: config.destination_pool_address,
                    destination_chain_id: config.destination_chain_id,
                    receive_token: config.destination_token,
                    nonce,
                    gas_amount,
                    fee_token_amount,
                },
                refund: TransferInstruction {
                    token: config.token,
                    from: self.contract_id,
                    to: user,
                    amount,
                },
            },
        )
    }

    /// Books a deposit of `amount` by `user` for `timeperiod` from `now`.
    ///
    /// The host calls this after it has tried to carry out the deposit's
    /// instructions: `pulled` says whether the amount reached the pool's
    /// custody, `forwarded` whether the bridge then took the principal. A
    /// deposit that `deposit_instructions` refuses is refused here with the
    /// same error. Otherwise it fails with `TransferFailed` where the
    /// amount was not pulled, and with `BridgeForwardFailed` where it was
    /// pulled and not forwarded; the host then gives the amount back. A
    /// failed deposit leaves the pool as it was.
    ///
    /// An accepted deposit appends one agreement, which starts at `now`
    /// and is numbered by the agreements before it, and adds `amount` to
    /// the custody. No earlier agreement has the key of the new one.
    pub fn deposit(
        &mut self,
        user: Identity,
        amount: u128,
        currency: String,
        timeperiod: u64,
        authorized: bool,
        now: u64,
        pulled: bool,
        forwarded: bool,
    ) -> (result: Result<DepositReceipt, PoolError>)
        requires
            old(self).wf(),
        ensures
            final(self).wf(),
            match result {
                Ok(receipt) => {
                    &&& old(self)@.deposit_failure(
                        amount,
                        timeperiod,
                        authorized,
                        now,
                        pulled,
                        forwarded,
                    ) is None
                    &&& receipt == (DepositReceipt {
                        starttime: now,
                        sequence: old(self)@.agreements.len() as u64,
                        event: Event::AgreementCreated { starttime: now },
                    })
                    &&& final(self)@ == old(self)@.after_deposit(
                        old(self)@.new_agreement(user, amount, currency@, timeperiod, now),
                    )
                },
                Err(error) => {
                    &&& old(self)@.deposit_failure(
                        amount,
                        timeperiod,
                        authorized,
                        now,
                        pulled,
                        forwarded,
                    ) == Some(error)
                    &&& final(self)@ == old(self)@
                },
            },
            !authorized ==> result matches Err(PoolError::Unauthorized),
            authorized && amount == 0 ==> result matches Err(PoolError::InvalidAmount),
            result is Ok ==> {
                &&& final(self)@.custody == old(self)@.custody + amount
                &&& final(self)@.agreements.len() == old(self)@.agreements.len() + 1
                &&& final(self)@.agreements.drop_last() == old(self)@.agreements
                &&& forall|i: int|
                    0 <= i < old(self)@.agreements.len() ==> (#[trigger] old(
                        self,
                    )@.agreements[i]).storage_key() != final(self)@.agreements.last().storage_key()
            },
    {
        if let Some(error) = self.deposit_refusal(amount, timeperiod, authorized, now) {
            return Err(error);
        }
        if !pulled {
            return Err(PoolError::TransferFailed);
        }
        if !forwarded {
            return Err(PoolError::BridgeForwardFailed);
        }
        let sequence = self.agreements.len() as u64;
        let agreement = LendingAgreement {
            amount,
            address: user,
            currency,
            timeperiod,
            starttime: now,
            sequence,
            settled: false,
        };
        proof {
            lemma_escrowed_push(old(self)@.agreements, agreement@);
        }
        self.agreements.push(agreement);
        self.custody = self.custody + amount;
        proof {
            assert(final(self)@.agreements =~= old(self)@.agreements.push(agreement@));
            assert(final(self)@.agreements.drop_last() =~= old(self)@.agreements);
        }
        Ok(
            DepositReceipt {
                starttime: now,
                sequence,
                event: Event::AgreementCreated { starttime: now },
            },
        )
    }

    /// Where the agreement stored under the given start time and sequence
    /// number stands in the store, if there is one.
    fn locate(&self, starttime: u64, sequence: u64) -> (position: Option<usize>)
        ensures
            match position {
                Some(index) => {
                    &&& index == sequence
                    &&& index < self.agreements@.len()
                    &&& self@.find(starttime, sequence) == Some(self.agreements@[index as int]@)
                },
                None => self@.find(starttime, sequence) is None,
            },
    {
        if sequence >= self.agreements.len() as u64 {
            return None;
        }
        let index = sequence as usize;
        if self.agreements[index].starttime != starttime {
            return None;
        }
        Some(index)
    }

    /// Checks a withdrawal before the host is asked to move anything, and
    /// gives the position of the agreement that it pays out.
    fn withdraw_check(
        &self,
        to: Identity,
        starttime: u64,
        sequence: u64,
        now: u64,
    ) -> (result: Result<usize, PoolError>)
        ensures
            match result {
                Ok(index) => {
                    &&& self@.withdraw_refusal(to, starttime, sequence, now) is None
                    &&& index == sequence
                    &&& index < self.agreements@.len()
                },
                Err(error) => self@.withdraw_refusal(to, starttime, sequence, now) == Some(error),
            },
    {
        let config = match self.config {
            None => {
                return Err(PoolError::Uninitialized);
            },
            Some(config) => config,
        };
        let index = match self.locate(starttime, sequence) {
            None => {
                return Err(PoolError::NotFound);
            },
            Some(index) => index,
        };
        let agreement = &self.agreements[index];
        match derive_state(agreement, now, config.cancelled) {
            Err(error) => Err(error),
            Ok(State::Running) => Err(PoolError::StillActive),
            Ok(State::Cancelled) => {
                if agreement.settled {
                    Err(PoolError::AlreadySettled)
                } else if to != config.owner {
                    Err(PoolError::WrongRecipient)
                } else {
                    Err(PoolError::NotImplemented)
                }
            },
            Ok(State::Expired) => {
                if agreement.settled {
                    Err(PoolError::AlreadySettled)
                } else if to != agreement.address || to == config.owner {
                    Err(PoolError::WrongRecipient)
                } else {
                    Ok(index)
                }
            },
        }
    }

    /// Checks a withdrawal and says what the host has to do for it: push
    /// the escrowed amount from the pool's custody to `to`.
    ///
    /// The agreement is named by its start time and its sequence number;
    /// `now` is the ledger time. The checks come in this order: an
    /// uninitialized pool fails with `Uninitialized`; a key under which
    /// nothing is stored with `NotFound`; a running agreement with
    /// `StillActive`; one that was paid out with `AlreadySettled`. An
    /// expired agreement is paid to its depositor, who may not be the
    /// pool's owner; any other recipient fails with `WrongRecipient`. In a
    /// cancelled pool any recipient but the owner fails with
    /// `WrongRecipient`, and the owner with `NotImplemented`: what a
    /// cancelled agreement pays is not defined. The pool does not change.
    pub fn withdraw_instruction(
        &self,
        to: Identity,
        starttime: u64,
        sequence: u64,
        now: u64,
    ) -> (result: Result<TransferInstruction, PoolError>)
        ensures
            match result {
                Ok(instruction) => {
                    &&& self@.withdraw_refusal(to, starttime, sequence, now) is None
                    &&& instruction == self@.withdraw_instruction(to, sequence)
                },
                Err(error) => self@.withdraw_refusal(to, starttime, sequence, now) == Some(error),
            },
    {
        let index = self.withdraw_check(to, starttime, sequence, now)?;
        let config = self.config.unwrap();
        Ok(
            TransferInstruction {
                token: config.token,
                from: self.contract_id,
                to,
                amount: self.agreements[index].amount,
            },
        )
    }

    /// Books the withdrawal of an agreement to `to` at ledger time `now`.
    ///
    /// The host calls this after it has tried to carry out the
    /// withdrawal's instruction: `pushed` says whether the amount reached
    /// the recipient. A withdrawal that `withdraw_instruction` refuses is
    /// refused here with the same error; otherwise it fails with
    /// `TransferFailed` where the amount was not pushed. A failed
    /// withdrawal leaves the pool as it was.
    ///
    /// An accepted withdrawal marks the agreement as settled and takes its
    /// amount out of the custody. In particular: a running agreement is
    /// never paid, and an expired one that is still open is paid to its
    /// depositor, unless the depositor is the owner, as soon as the amount
    /// was pushed.
    pub fn withdraw(
        &mut self,
        to: Identity,
        starttime: u64,
        sequence: u64,
        now: u64,
        pushed: bool,
    ) -> (result: Result<WithdrawReceipt, PoolError>)
        requires
            old(self).wf(),
        ensures
            final(self).wf(),
            match result {
                Ok(receipt) => {
                    &&& old(self)@.withdraw_failure(to, starttime, sequence, now, pushed) is None
                    &&& receipt == (WithdrawReceipt {
                        amount: old(self)@.agreements[sequence as int].amount,
                        event: Event::BalanceWithdrawn {
                            amount: old(self)@.agreements[sequence as int].amount,
                            starttime,
                        },
                    })
                    &&& final(self)@ == old(self)@.after_withdraw(sequence)
                },
                Err(error) => {
                    &&& old(self)@.withdraw_failure(to, starttime, sequence, now, pushed) == Some(
                        error,
                    )
                    &&& final(self)@ == old(self)@
                },
            },
            old(self)@.find(starttime, sequence) matches Some(agreement) ==> {
                let state = agreement.state_at(now, old(self)@.cancelled());
                let owner = old(self)@.config.unwrap().owner;
                &&& state == Ok::<State, PoolError>(State::Running) ==> {
                    &&& result matches Err(PoolError::StillActive)
                    &&& final(self)@.custody == old(self)@.custody
                }
                &&& state == Ok::<State, PoolError>(State::Expired) && !agreement.settled && to
                    == agreement.address && to != owner && pushed ==> {
                    &&& result is Ok
                    &&& final(self)@.custody + agreement.amount == old(self)@.custody
                    &&& final(self)@.find(starttime, sequence) == Some(agreement.settle())
                }
            },
    {
        let index = self.withdraw_check(to, starttime, sequence, now)?;
        if !pushed {
            return Err(PoolError::TransferFailed);
        }
        let amount = self.agreements[index].amount;
        proof {
            lemma_escrowed_settle(old(self)@.agreements, index as int);
        }
        self.agreements[index].settled = true;
        self.custody = self.custody - amount;
        proof {
            assert(final(self)@.agreements =~= old(self)@.agreements.update(
                index as int,
                old(self)@.agreements[index as int].settle(),
            ));
        }
        Ok(WithdrawReceipt { amount, event: Event::BalanceWithdrawn { amount, starttime } })
    }

    /// The pool's own identity.
    pub fn contract_id(&self) -> (id: Identity)
        ensures
            id == self@.contract_id,
    {
        self.contract_id
    }

    /// The configuration, once the pool is initialized.
    pub fn config(&self) -> (config: Option<PoolConfig>)
        ensures
            config == self@.config,
    {
        self.config
    }

    /// The owner; `Uninitialized` before the pool is initialized.
    pub fn owner(&self) -> (result: Result<Identity, PoolError>)
        ensures
            match self@.config {
                Some(config) => result == Ok::<Identity, PoolError>(config.owner),
                None => result matches Err(PoolError::Uninitialized),
            },
    {
        match self.config {
            Some(config) => Ok(config.owner),
            None => Err(PoolError::Uninitialized),
        }
    }

    /// The ledger time of the initialization; `Uninitialized` before it.
    pub fn created(&self) -> (result: Result<u64, PoolError>)
        ensures
            match self@.config {
                Some(config) => result == Ok::<u64, PoolError>(config.created),
                None => result matches Err(PoolError::Uninitialized),
            },
    {
        match self.config {
            Some(config) => Ok(config.created),
            None => Err(PoolError::Uninitialized),
        }
    }

    /// The token the pool holds; `Uninitialized` before the pool is
    /// initialized.
    pub fn token(&self) -> (result: Result<Identity, PoolError>)
        ensures
            match self@.config {
                Some(config) => result == Ok::<Identity, PoolError>(config.token),
                None => result matches Err(PoolError::Uninitialized),
            },
    {
        match self.config {
            Some(config) => Ok(config.token),
            None => Err(PoolError::Uninitialized),
        }
    }

    /// The number that stands for the state of `agreement` at ledger time
    /// `now`: see `State::code`. Fails with `Uninitialized` before the pool
    /// is initialized, and with `ArithmeticOverflow` where the pool is not
    /// cancelled and the agreement's expiry does not fit in 64 bits.
    pub fn state(&self, agreement: &LendingAgreement, now: u64) -> (result: Result<u32, PoolError>)
        ensures
            result == self@.state_code(agreement@, now),
    {
        let config = match self.config {
            None => {
                return Err(PoolError::Uninitialized);
            },
            Some(config) => config,
        };
        match derive_state(agreement, now, config.cancelled) {
            Ok(state) => Ok(state.code()),
            Err(error) => Err(error),
        }
    }

    /// How long `agreement` has left to run. The pool defines no answer:
    /// every call fails with `NotImplemented`.
    pub fn time_remaining(
        &self,
        agreement: &LendingAgreement,
        now: u64,
    ) -> (result: Result<u64, PoolError>)
        ensures
            result matches Err(PoolError::NotImplemented),
    {
        Err(PoolError::NotImplemented)
    }

    /// The agreements of the pool. The pool offers no listing: every call
    /// fails with `NotImplemented`.
    pub fn list_agreements(&self) -> (result: Result<Vec<LendingAgreement>, PoolError>)
        ensures
            result matches Err(PoolError::NotImplemented),
    {
        Err(PoolError::NotImplemented)
    }

    /// How much of the token the pool holds in custody.
    pub fn custody(&self) -> (amount: u128)
        ensures
            amount == self@.custody,
    {
        self.custody
    }

    /// How many agreements the pool has accepted.
    pub fn agreement_count(&self) -> (count: u64)
        ensures
            count == self@.agreements.len(),
    {
        self.agreements.len() as u64
    }

    /// The agreement stored under the given start time and sequence
    /// number; `NotFound` where there is none.
    pub fn get_agreement(
        &self,
        starttime: u64,
        sequence: u64,
    ) -> (result: Result<&LendingAgreement, PoolError>)
        ensures
            match result {
                Ok(agreement) => self@.find(starttime, sequence) == Some(agreement@),
                Err(error) => {
                    &&& error == PoolError::NotFound
                    &&& self@.find(starttime, sequence) is None
                },
            },
    {
        match self.locate(starttime, sequence) {
            Some(index) => Ok(&self.agreements[index]),
            None => Err(PoolError::NotFound),
        }
    }

    /// Whether the pool stores a value under `key`: an agreement under a
    /// `StartTime` key, the configuration under every other key.
    pub fn has(&self, key: DataKey) -> (found: bool)
        ensures
            found == self@.stores(key),
    {
        match key {
            DataKey::StartTime(starttime, sequence) => self.locate(starttime, sequence).is_some(),
            _ => self.config.is_some(),
        }
    }
}

} // verus!
