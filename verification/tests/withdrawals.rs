use lendingpool::{
    Bytes32, DataKey, Event, Identity, IdentityKind, LendingPool, PoolError, TransferInstruction,
    WithdrawReceipt,
};

fn withdraw_account(n: u128) -> Identity {
    Identity { kind: IdentityKind::Account, key: Bytes32 { hi: 0, lo: n } }
}

fn withdraw_contract(n: u128) -> Identity {
    Identity { kind: IdentityKind::Contract, key: Bytes32 { hi: 1, lo: n } }
}

fn withdraw_owner() -> Identity {
    withdraw_account(10)
}

fn withdraw_depositor() -> Identity {
    withdraw_account(20)
}

fn withdraw_ready_pool() -> LendingPool {
    let mut pool = LendingPool::new(withdraw_contract(1));
    pool.initialize(
        withdraw_owner(),
        withdraw_contract(2),
        withdraw_contract(3),
        Bytes32 { hi: 0, lo: 1 },
        5,
        Bytes32 { hi: 0, lo: 2 },
        500,
    )
    .unwrap();
    pool
}

/// A pool with one agreement: 1000 from the depositor, from 1000 to 4600.
fn withdraw_pool_with_deposit() -> LendingPool {
    let mut pool = withdraw_ready_pool();
    pool.deposit(withdraw_depositor(), 1_000, String::from("USDC"), 3_600, true, 1_000, true, true)
        .unwrap();
    pool
}

#[test]
fn withdrawal_from_a_fresh_pool_is_uninitialized() {
    let mut pool = LendingPool::new(withdraw_contract(1));
    assert_eq!(
        pool.withdraw(withdraw_depositor(), 1_000, 0, 5_000, true),
        Err(PoolError::Uninitialized)
    );
    assert_eq!(
        pool.withdraw_instruction(withdraw_depositor(), 1_000, 0, 5_000),
        Err(PoolError::Uninitialized)
    );
}

#[test]
fn withdrawal_of_an_unknown_agreement_is_not_found() {
    let mut pool = withdraw_pool_with_deposit();
    assert_eq!(pool.withdraw(withdraw_depositor(), 1_000, 1, 5_000, true), Err(PoolError::NotFound));
    assert_eq!(pool.withdraw(withdraw_depositor(), 1_001, 0, 5_000, true), Err(PoolError::NotFound));
    assert_eq!(
        pool.withdraw(withdraw_depositor(), 1_000, u64::MAX, 5_000, true),
        Err(PoolError::NotFound)
    );
    assert_eq!(
        pool.withdraw_instruction(withdraw_depositor(), 999, 0, 5_000),
        Err(PoolError::NotFound)
    );
    assert_eq!(pool.custody(), 1_000);
    let mut empty = withdraw_ready_pool();
    assert_eq!(empty.withdraw(withdraw_depositor(), 1_000, 0, 5_000, true), Err(PoolError::NotFound));
}

#[test]
fn withdrawal_of_a_running_agreement_is_still_active() {
    let mut pool = withdraw_pool_with_deposit();
    for now in [0, 1_000, 2_800, 4_599] {
        for to in [withdraw_depositor(), withdraw_owner(), withdraw_account(77)] {
            for pushed in [false, true] {
                assert_eq!(
                    pool.withdraw(to, 1_000, 0, now, pushed),
                    Err(PoolError::StillActive)
                );
                assert_eq!(
                    pool.withdraw_instruction(to, 1_000, 0, now),
                    Err(PoolError::StillActive)
                );
                assert_eq!(pool.custody(), 1_000);
                assert!(!pool.get_agreement(1_000, 0).unwrap().settled);
            }
        }
    }
}

#[test]
fn withdrawal_to_a_stranger_is_a_wrong_recipient() {
    let mut pool = withdraw_pool_with_deposit();
    assert_eq!(
        pool.withdraw(withdraw_account(77), 1_000, 0, 4_600, true),
        Err(PoolError::WrongRecipient)
    );
    assert_eq!(pool.custody(), 1_000);
    assert!(!pool.get_agreement(1_000, 0).unwrap().settled);
}

#[test]
fn withdrawal_of_an_expired_agreement_to_the_owner_is_a_wrong_recipient() {
    let mut pool = withdraw_pool_with_deposit();
    assert_eq!(
        pool.withdraw(withdraw_owner(), 1_000, 0, 4_600, true),
        Err(PoolError::WrongRecipient)
    );
    assert_eq!(pool.custody(), 1_000);
}

#[test]
fn owner_who_deposited_is_still_a_wrong_recipient() {
    let mut pool = withdraw_ready_pool();
    pool.deposit(withdraw_owner(), 300, String::from("USDC"), 10, true, 1_000, true, true).unwrap();
    assert_eq!(
        pool.withdraw(withdraw_owner(), 1_000, 0, 2_000, true),
        Err(PoolError::WrongRecipient)
    );
    assert_eq!(pool.custody(), 300);
}

#[test]
fn withdrawal_that_was_not_pushed_is_a_failed_transfer() {
    let mut pool = withdraw_pool_with_deposit();
    assert_eq!(
        pool.withdraw(withdraw_depositor(), 1_000, 0, 4_600, false),
        Err(PoolError::TransferFailed)
    );
    assert_eq!(pool.custody(), 1_000);
    assert!(!pool.get_agreement(1_000, 0).unwrap().settled);
    assert!(pool.withdraw(withdraw_depositor(), 1_000, 0, 4_600, true).is_ok());
}

#[test]
fn withdraw_instruction_pushes_the_amount_to_the_depositor() {
    let pool = withdraw_pool_with_deposit();
    assert_eq!(
        pool.withdraw_instruction(withdraw_depositor(), 1_000, 0, 4_600),
        Ok(TransferInstruction {
            token: withdraw_contract(2),
            from: withdraw_contract(1),
            to: withdraw_depositor(),
            amount: 1_000,
        })
    );
    assert_eq!(pool.custody(), 1_000);
    assert!(!pool.get_agreement(1_000, 0).unwrap().settled);
}

#[test]
fn withdrawal_by_the_depositor_pays_the_amount_and_settles() {
    let mut pool = withdraw_pool_with_deposit();
    pool.deposit(withdraw_account(21), 50, String::from("USDC"), 9_000, true, 1_000, true, true)
        .unwrap();
    assert_eq!(pool.custody(), 1_050);
    assert_eq!(
        pool.withdraw(withdraw_depositor(), 1_000, 0, 4_600, true),
        Ok(WithdrawReceipt {
            amount: 1_000,
            event: Event::BalanceWithdrawn { amount: 1_000, starttime: 1_000 },
        })
    );
    assert_eq!(pool.custody(), 50);
    assert_eq!(pool.agreement_count(), 2);
    let settled = pool.get_agreement(1_000, 0).unwrap();
    assert!(settled.settled);
    assert_eq!(settled.amount, 1_000);
    assert_eq!(settled.address, withdraw_depositor());
    assert_eq!(settled.currency, "USDC");
    assert_eq!(settled.timeperiod, 3_600);
    assert_eq!(settled.sequence, 0);
    let other = pool.get_agreement(1_000, 1).unwrap();
    assert!(!other.settled);
    assert_eq!(other.amount, 50);
    assert!(pool.has(DataKey::StartTime(1_000, 0)));
}

#[test]
fn repeated_withdrawal_is_already_settled() {
    let mut pool = withdraw_pool_with_deposit();
    pool.withdraw(withdraw_depositor(), 1_000, 0, 4_600, true).unwrap();
    for now in [4_600, 4_601, u64::MAX] {
        for to in [withdraw_depositor(), withdraw_owner(), withdraw_account(77)] {
            for pushed in [false, true] {
                assert_eq!(
                    pool.withdraw(to, 1_000, 0, now, pushed),
                    Err(PoolError::AlreadySettled)
                );
                assert_eq!(
                    pool.withdraw_instruction(to, 1_000, 0, now),
                    Err(PoolError::AlreadySettled)
                );
            }
        }
    }
    assert_eq!(pool.custody(), 0);
}

#[test]
fn settled_agreement_before_its_expiry_is_still_active() {
    let mut pool = withdraw_pool_with_deposit();
    pool.withdraw(withdraw_depositor(), 1_000, 0, 4_600, true).unwrap();
    assert_eq!(
        pool.withdraw(withdraw_depositor(), 1_000, 0, 2_000, true),
        Err(PoolError::StillActive)
    );
    assert_eq!(pool.custody(), 0);
}

#[test]
fn settled_agreement_in_a_cancelled_pool_is_already_settled() {
    let mut pool = withdraw_pool_with_deposit();
    pool.withdraw(withdraw_depositor(), 1_000, 0, 4_600, true).unwrap();
    pool.cancel(withdraw_owner(), true).unwrap();
    assert_eq!(
        pool.withdraw(withdraw_owner(), 1_000, 0, 2_000, true),
        Err(PoolError::AlreadySettled)
    );
}

#[test]
fn cancelled_pool_pays_nobody_but_the_owner() {
    let mut pool = withdraw_pool_with_deposit();
    pool.cancel(withdraw_owner(), true).unwrap();
    for now in [0, 2_000, 4_600, 9_000] {
        assert_eq!(
            pool.withdraw(withdraw_depositor(), 1_000, 0, now, true),
            Err(PoolError::WrongRecipient)
        );
        assert_eq!(
            pool.withdraw(withdraw_account(77), 1_000, 0, now, true),
            Err(PoolError::WrongRecipient)
        );
    }
    assert_eq!(pool.custody(), 1_000);
}

#[test]
fn cancelled_pool_has_no_payout_for_the_owner_yet() {
    let mut pool = withdraw_pool_with_deposit();
    pool.cancel(withdraw_owner(), true).unwrap();
    for now in [0, 2_000, 4_600, 9_000] {
        assert_eq!(
            pool.withdraw(withdraw_owner(), 1_000, 0, now, true),
            Err(PoolError::NotImplemented)
        );
        assert_eq!(
            pool.withdraw_instruction(withdraw_owner(), 1_000, 0, now),
            Err(PoolError::NotImplemented)
        );
    }
    assert_eq!(pool.custody(), 1_000);
    assert!(!pool.get_agreement(1_000, 0).unwrap().settled);
}

#[test]
fn each_agreement_is_withdrawn_on_its_own() {
    let mut pool = withdraw_ready_pool();
    pool.deposit(withdraw_account(20), 100, String::from("USDC"), 10, true, 1_000, true, true).unwrap();
    pool.deposit(withdraw_account(21), 200, String::from("USDC"), 10, true, 1_000, true, true).unwrap();
    pool.deposit(withdraw_account(20), 400, String::from("USDC"), 50, true, 1_005, true, true).unwrap();
    assert_eq!(pool.custody(), 700);
    assert_eq!(
        pool.withdraw(withdraw_account(20), 1_000, 1, 1_010, true),
        Err(PoolError::WrongRecipient)
    );
    assert_eq!(pool.withdraw(withdraw_account(21), 1_000, 1, 1_010, true).unwrap().amount, 200);
    assert_eq!(pool.custody(), 500);
    assert_eq!(
        pool.withdraw(withdraw_account(20), 1_005, 2, 1_054, true),
        Err(PoolError::StillActive)
    );
    assert_eq!(pool.withdraw(withdraw_account(20), 1_005, 2, 1_055, true).unwrap().amount, 400);
    assert_eq!(pool.custody(), 100);
    assert_eq!(pool.withdraw(withdraw_account(20), 1_000, 0, 1_055, true).unwrap().amount, 100);
    assert_eq!(pool.custody(), 0);
    assert_eq!(pool.agreement_count(), 3);
}
