//! What holds of every pool, whatever was done to it.

use crate::agreement::AgreementView;
use crate::config::PoolConfig;
use crate::error::PoolError;
use crate::identity::Identity;
use crate::model::{lemma_escrowed_push, lemma_escrowed_settle, PoolView};
use crate::state::State;
use vstd::prelude::*;

verus! {

/// The state of an agreement is a function of its start time, its period,
/// the time and the cancellation flag, and of nothing else: two agreements
/// that start together and run equally long are in the same state at every
/// time, whoever made them and whatever they hold.
pub proof fn state_depends_on_schedule_only(
    first: AgreementView,
    second: AgreementView,
    now: u64,
    cancelled: bool,
)
    requires
        first.starttime == second.starttime,
        first.timeperiod == second.timeperiod,
    ensures
        first.state_at(now, cancelled) == second.state_at(now, cancelled),
{
}

/// No two agreements of a pool are stored under the same key.
pub proof fn storage_keys_are_distinct(pool: PoolView, i: int, j: int)
    requires
        pool.wf(),
        0 <= i < pool.agreements.len(),
        0 <= j < pool.agreements.len(),
        i != j,
    ensures
        pool.agreements[i].storage_key() != pool.agreements[j].storage_key(),
{
    assert(pool.agreements[i].stored_at(i));
    assert(pool.agreements[j].stored_at(j));
}

/// The custody covers what any one agreement still claims.
pub proof fn custody_covers_each_claim(pool: PoolView, i: int)
    requires
        pool.wf(),
        0 <= i < pool.agreements.len(),
    ensures
        pool.agreements[i].claim() <= pool.custody,
{
    lemma_escrowed_settle(pool.agreements, i);
}

/// Initializing a pool and cancelling it leave the books in order.
pub proof fn configuration_keeps_books_in_order(pool: PoolView, config: PoolConfig)
    requires
        pool.wf(),
    ensures
        pool.after_initialize(config).wf(),
        pool.config is Some ==> pool.after_cancel().wf(),
{
}

/// A deposit that is not refused leaves the books in order.
pub proof fn deposit_keeps_books_in_order(
    pool: PoolView,
    user: Identity,
    amount: u128,
    currency: Seq<char>,
    timeperiod: u64,
    authorized: bool,
    now: u64,
)
    requires
        pool.wf(),
        pool.deposit_refusal(amount, timeperiod, authorized, now) is None,
    ensures
        pool.after_deposit(pool.new_agreement(user, amount, currency, timeperiod, now)).wf(),
{
    let agreement = pool.new_agreement(user, amount, currency, timeperiod, now);
    let after = pool.after_deposit(agreement);
    lemma_escrowed_push(pool.agreements, agreement);
    assert forall|i: int| 0 <= i < after.agreements.len() implies (
    #[trigger] after.agreements[i]).stored_at(i) by {
        if i < pool.agreements.len() {
            assert(pool.agreements[i].stored_at(i));
        }
    }
}

/// Two deposits in a row are stored under different keys, also where both
/// are made in the same instant.
pub proof fn successive_deposits_get_distinct_keys(
    pool: PoolView,
    first_user: Identity,
    first_amount: u128,
    first_currency: Seq<char>,
    first_timeperiod: u64,
    first_now: u64,
    second_user: Identity,
    second_amount: u128,
    second_currency: Seq<char>,
    second_timeperiod: u64,
    second_now: u64,
)
    requires
        pool.wf(),
        pool.deposit_refusal(first_amount, first_timeperiod, true, first_now) is None,
        pool.after_deposit(
            pool.new_agreement(
                first_user,
                first_amount,
                first_currency,
                first_timeperiod,
                first_now,
            ),
        ).deposit_refusal(second_amount, second_timeperiod, true, second_now) is None,
    ensures
        ({
            let first = pool.new_agreement(
                first_user,
                first_amount,
                first_currency,
                first_timeperiod,
                first_now,
            );
            let second = pool.after_deposit(first).new_agreement(
                second_user,
                second_amount,
                second_currency,
                second_timeperiod,
                second_now,
            );
            first.storage_key() != second.storage_key()
        }),
{
}

/// A withdrawal that is not refused leaves the books in order.
pub proof fn withdrawal_keeps_books_in_order(
    pool: PoolView,
    to: Identity,
    starttime: u64,
    sequence: u64,
    now: u64,
)
    requires
        pool.wf(),
        pool.withdraw_refusal(to, starttime, sequence, now) is None,
    ensures
        pool.after_withdraw(sequence).wf(),
        pool.after_withdraw(sequence).custody + pool.agreements[sequence as int].amount
            == pool.custody,
{
    let after = pool.after_withdraw(sequence);
    lemma_escrowed_settle(pool.agreements, sequence as int);
    assert forall|i: int| 0 <= i < after.agreements.len() implies (
    #[trigger] after.agreements[i]).stored_at(i) by {
        assert(pool.agreements[i].stored_at(i));
    }
}

/// Once an agreement has been paid out, a second withdrawal of it at the
/// same time or later fails with `AlreadySettled`, whoever asks for it.
pub proof fn repeated_withdrawal_is_refused(
    pool: PoolView,
    to: Identity,
    starttime: u64,
    sequence: u64,
    now: u64,
    again_to: Identity,
    again_now: u64,
)
    requires
        pool.wf(),
        pool.withdraw_refusal(to, starttime, sequence, now) is None,
        now <= again_now,
    ensures
        pool.after_withdraw(sequence).withdraw_refusal(again_to, starttime, sequence, again_now)
            == Some(PoolError::AlreadySettled),
{
    assert(pool.agreements[sequence as int].stored_at(sequence as int));
}

/// An agreement that has been paid out is never paid again: every
/// withdrawal of it fails, for any recipient. It fails with `StillActive`
/// at a time at which the agreement would be running, and with
/// `AlreadySettled` at any other.
pub proof fn settled_agreement_is_never_paid_again(
    pool: PoolView,
    to: Identity,
    starttime: u64,
    sequence: u64,
    now: u64,
    pushed: bool,
)
    requires
        pool.wf(),
        pool.find(starttime, sequence) matches Some(agreement) && agreement.settled,
    ensures
        pool.withdraw_failure(to, starttime, sequence, now, pushed) == Some(
            if pool.agreements[sequence as int].state_at(now, pool.cancelled()) == Ok::<
                State,
                PoolError,
            >(State::Running) {
                PoolError::StillActive
            } else {
                PoolError::AlreadySettled
            },
        ),
{
    assert(pool.agreements[sequence as int].stored_at(sequence as int));
}

/// Funds leave the pool only for the depositor of an agreement that has
/// expired and is still open, in a pool that is not cancelled, and only
/// where the amount has been pushed.
pub proof fn withdrawal_pays_the_depositor_after_expiry(
    pool: PoolView,
    to: Identity,
    starttime: u64,
    sequence: u64,
    now: u64,
    pushed: bool,
)
    requires
        pool.withdraw_failure(to, starttime, sequence, now, pushed) is None,
    ensures
        pool.config is Some,
        !pool.cancelled(),
        pool.find(starttime, sequence) == Some(pool.agreements[sequence as int]),
        pool.agreements[sequence as int].expiry() <= now,
        !pool.agreements[sequence as int].settled,
        pool.agreements[sequence as int].address == to,
        pool.config.unwrap().owner != to,
        pushed,
{
}

/// Once the owner has cancelled the pool, every agreement is `Cancelled`
/// at every time.
pub proof fn cancellation_reaches_every_agreement(
    pool: PoolView,
    caller: Identity,
    agreement: AgreementView,
    now: u64,
)
    requires
        pool.cancel_refusal(caller, true) is None,
    ensures
        pool.after_cancel().cancelled(),
        agreement.state_at(now, pool.after_cancel().cancelled()) == Ok::<State, PoolError>(
            State::Cancelled,
        ),
        pool.after_cancel().state_code(agreement, now) == Ok::<u32, PoolError>(
            State::Cancelled.spec_code(),
        ),
{
}

} // verus!
