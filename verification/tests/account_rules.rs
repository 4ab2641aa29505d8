use payment_ledger::account::Account;
use payment_ledger::error::{DisputeStep, LedgerError};
use payment_ledger::transaction::{MonetaryKind, StoredTransaction, Transaction, TransactionType};

fn tx(kind: TransactionType, tx: u32, amount: i64) -> Transaction {
    Transaction { kind, client: 1, tx, amount }
}

fn balances(account: &Account) -> (i128, i128, i128, bool) {
    (account.available(), account.held(), account.total(), account.locked())
}

#[test]
fn new_account_is_empty_and_unlocked() {
    let account = Account::new(42);
    assert_eq!(account.client(), 42);
    assert_eq!(balances(&account), (0, 0, 0, false));
    assert_eq!(account.lookup(1), None);
}

#[test]
fn deposit_adds_to_available_and_total() {
    let mut account = Account::new(1);
    account.deposit(50_000);
    assert_eq!(balances(&account), (50_000, 0, 50_000, false));
    account.deposit(1);
    assert_eq!(balances(&account), (50_001, 0, 50_001, false));
}

#[test]
fn deposit_of_zero_changes_nothing() {
    let mut account = Account::new(1);
    account.deposit(0);
    assert_eq!(balances(&account), (0, 0, 0, false));
}

#[test]
fn deposit_then_withdraw_same_amount_empties_account() {
    let mut account = Account::new(1);
    account.deposit(123_456);
    assert_eq!(account.withdraw(123_456), Ok(()));
    assert_eq!(balances(&account), (0, 0, 0, false));
}

#[test]
fn withdraw_takes_from_available_and_total() {
    let mut account = Account::new(1);
    account.deposit(80_000);
    assert_eq!(account.withdraw(20_000), Ok(()));
    assert_eq!(balances(&account), (60_000, 0, 60_000, false));
}

#[test]
fn withdraw_of_whole_total_is_allowed() {
    let mut account = Account::new(1);
    account.deposit(10);
    assert_eq!(account.withdraw(10), Ok(()));
    assert_eq!(balances(&account), (0, 0, 0, false));
}

#[test]
fn withdraw_more_than_total_fails_and_changes_nothing() {
    let mut account = Account::new(1);
    account.deposit(10_000);
    assert_eq!(account.withdraw(10_001), Err(LedgerError::InsufficientFunds));
    assert_eq!(balances(&account), (10_000, 0, 10_000, false));
}

#[test]
fn withdraw_is_checked_against_total_not_available() {
    let mut account = Account::new(1);
    assert_eq!(account.process_transaction(&tx(TransactionType::Deposit, 1, 50_000)), Ok(()));
    assert_eq!(account.dispute(1), Ok(()));
    assert_eq!(balances(&account), (0, 50_000, 50_000, false));
    assert_eq!(account.withdraw(30_000), Ok(()));
    assert_eq!(balances(&account), (-30_000, 50_000, 20_000, false));
}

#[test]
fn dispute_moves_amount_from_available_to_held() {
    let mut account = Account::new(1);
    assert_eq!(account.process_transaction(&tx(TransactionType::Deposit, 1, 50_000)), Ok(()));
    assert_eq!(account.process_transaction(&tx(TransactionType::Deposit, 2, 30_000)), Ok(()));
    assert_eq!(account.dispute(2), Ok(()));
    assert_eq!(balances(&account), (50_000, 30_000, 80_000, false));
    assert_eq!(
        account.lookup(2),
        Some(StoredTransaction { kind: MonetaryKind::Deposit, amount: 30_000, disputed: true })
    );
    assert_eq!(
        account.lookup(1),
        Some(StoredTransaction { kind: MonetaryKind::Deposit, amount: 50_000, disputed: false })
    );
}

#[test]
fn dispute_of_unknown_transaction_fails_and_changes_nothing() {
    let mut account = Account::new(1);
    assert_eq!(account.process_transaction(&tx(TransactionType::Deposit, 1, 50_000)), Ok(()));
    assert_eq!(
        account.dispute(9),
        Err(LedgerError::UnknownTransaction(DisputeStep::Dispute))
    );
    assert_eq!(balances(&account), (50_000, 0, 50_000, false));
    assert_eq!(account.lookup(9), None);
}

#[test]
fn second_dispute_moves_the_amount_again() {
    let mut account = Account::new(1);
    assert_eq!(account.process_transaction(&tx(TransactionType::Deposit, 1, 50_000)), Ok(()));
    assert_eq!(account.dispute(1), Ok(()));
    assert_eq!(account.dispute(1), Ok(()));
    assert_eq!(balances(&account), (-50_000, 100_000, 50_000, false));
}

#[test]
fn resolve_moves_amount_back_and_clears_flag() {
    let mut account = Account::new(1);
    assert_eq!(account.process_transaction(&tx(TransactionType::Deposit, 1, 50_000)), Ok(()));
    assert_eq!(account.dispute(1), Ok(()));
    assert_eq!(account.resolve(1), Ok(()));
    assert_eq!(balances(&account), (50_000, 0, 50_000, false));
    assert_eq!(
        account.lookup(1),
        Some(StoredTransaction { kind: MonetaryKind::Deposit, amount: 50_000, disputed: false })
    );
}

#[test]
fn resolve_of_unknown_transaction_fails() {
    let mut account = Account::new(1);
    assert_eq!(
        account.resolve(3),
        Err(LedgerError::UnknownTransaction(DisputeStep::Resolve))
    );
    assert_eq!(balances(&account), (0, 0, 0, false));
}

#[test]
fn resolve_of_undisputed_transaction_fails() {
    let mut account = Account::new(1);
    assert_eq!(account.process_transaction(&tx(TransactionType::Deposit, 1, 50_000)), Ok(()));
    assert_eq!(account.resolve(1), Err(LedgerError::NotDisputed(DisputeStep::Resolve)));
    assert_eq!(balances(&account), (50_000, 0, 50_000, false));
}

#[test]
fn resolve_twice_fails_the_second_time() {
    let mut account = Account::new(1);
    assert_eq!(account.process_transaction(&tx(TransactionType::Deposit, 1, 50_000)), Ok(()));
    assert_eq!(account.dispute(1), Ok(()));
    assert_eq!(account.resolve(1), Ok(()));
    assert_eq!(account.resolve(1), Err(LedgerError::NotDisputed(DisputeStep::Resolve)));
    assert_eq!(balances(&account), (50_000, 0, 50_000, false));
}

#[test]
fn charge_back_removes_amount_and_locks() {
    let mut account = Account::new(1);
    assert_eq!(account.process_transaction(&tx(TransactionType::Deposit, 1, 50_000)), Ok(()));
    assert_eq!(account.process_transaction(&tx(TransactionType::Deposit, 2, 20_000)), Ok(()));
    assert_eq!(account.dispute(1), Ok(()));
    assert_eq!(account.charge_back(1), Ok(()));
    assert_eq!(balances(&account), (20_000, 0, 20_000, true));
    assert_eq!(
        account.lookup(1),
        Some(StoredTransaction { kind: MonetaryKind::Deposit, amount: 50_000, disputed: false })
    );
}

#[test]
fn charge_back_of_unknown_transaction_fails() {
    let mut account = Account::new(1);
    assert_eq!(
        account.charge_back(3),
        Err(LedgerError::UnknownTransaction(DisputeStep::ChargeBack))
    );
    assert_eq!(balances(&account), (0, 0, 0, false));
}

#[test]
fn charge_back_of_undisputed_transaction_fails() {
    let mut account = Account::new(1);
    assert_eq!(account.process_transaction(&tx(TransactionType::Deposit, 1, 50_000)), Ok(()));
    assert_eq!(
        account.charge_back(1),
        Err(LedgerError::NotDisputed(DisputeStep::ChargeBack))
    );
    assert_eq!(balances(&account), (50_000, 0, 50_000, false));
}

#[test]
fn locked_account_refuses_every_kind() {
    let mut account = Account::new(1);
    assert_eq!(account.process_transaction(&tx(TransactionType::Deposit, 1, 50_000)), Ok(()));
    assert_eq!(account.process_transaction(&tx(TransactionType::Dispute, 1, 0)), Ok(()));
    assert_eq!(account.process_transaction(&tx(TransactionType::ChargeBack, 1, 0)), Ok(()));
    assert!(account.locked());
    let kinds = vec![
        TransactionType::Deposit,
        TransactionType::Withdrawal,
        TransactionType::Dispute,
        TransactionType::Resolve,
        TransactionType::ChargeBack,
        TransactionType::Unknown(String::from("transfer")),
    ];
    for kind in kinds {
        assert_eq!(
            account.process_transaction(&tx(kind, 1, 10_000)),
            Err(LedgerError::AccountLocked)
        );
        assert_eq!(balances(&account), (0, 0, 0, true));
    }
    assert_eq!(account.lookup(2), None);
}

#[test]
fn process_deposit_stores_the_transaction() {
    let mut account = Account::new(1);
    assert_eq!(account.process_transaction(&tx(TransactionType::Deposit, 7, 15_000)), Ok(()));
    assert_eq!(balances(&account), (15_000, 0, 15_000, false));
    assert_eq!(
        account.lookup(7),
        Some(StoredTransaction { kind: MonetaryKind::Deposit, amount: 15_000, disputed: false })
    );
}

#[test]
fn process_withdrawal_stores_only_on_success() {
    let mut account = Account::new(1);
    assert_eq!(account.process_transaction(&tx(TransactionType::Deposit, 1, 15_000)), Ok(()));
    assert_eq!(
        account.process_transaction(&tx(TransactionType::Withdrawal, 2, 20_000)),
        Err(LedgerError::InsufficientFunds)
    );
    assert_eq!(account.lookup(2), None);
    assert_eq!(account.process_transaction(&tx(TransactionType::Withdrawal, 3, 5_000)), Ok(()));
    assert_eq!(
        account.lookup(3),
        Some(StoredTransaction { kind: MonetaryKind::Withdrawal, amount: 5_000, disputed: false })
    );
    assert_eq!(balances(&account), (10_000, 0, 10_000, false));
}

#[test]
fn same_id_stored_again_replaces_the_first() {
    let mut account = Account::new(1);
    assert_eq!(account.process_transaction(&tx(TransactionType::Deposit, 1, 15_000)), Ok(()));
    assert_eq!(account.process_transaction(&tx(TransactionType::Dispute, 1, 0)), Ok(()));
    assert_eq!(account.process_transaction(&tx(TransactionType::Deposit, 1, 4_000)), Ok(()));
    assert_eq!(
        account.lookup(1),
        Some(StoredTransaction { kind: MonetaryKind::Deposit, amount: 4_000, disputed: false })
    );
    assert_eq!(balances(&account), (4_000, 15_000, 19_000, false));
}

#[test]
fn dispute_of_a_withdrawal_moves_its_amount() {
    let mut account = Account::new(1);
    assert_eq!(account.process_transaction(&tx(TransactionType::Deposit, 1, 50_000)), Ok(()));
    assert_eq!(account.process_transaction(&tx(TransactionType::Withdrawal, 2, 20_000)), Ok(()));
    assert_eq!(account.process_transaction(&tx(TransactionType::Dispute, 2, 0)), Ok(()));
    assert_eq!(balances(&account), (10_000, 20_000, 30_000, false));
}

#[test]
fn process_unknown_kind_fails_with_its_name() {
    let mut account = Account::new(1);
    assert_eq!(
        account.process_transaction(&tx(TransactionType::Unknown(String::from("transfer")), 1, 5)),
        Err(LedgerError::UnrecognizedType(String::from("transfer")))
    );
    assert_eq!(balances(&account), (0, 0, 0, false));
    assert_eq!(account.lookup(1), None);
}

#[test]
fn total_is_sum_of_available_and_held_throughout() {
    let mut account = Account::new(1);
    let steps = vec![
        tx(TransactionType::Deposit, 1, 50_000),
        tx(TransactionType::Deposit, 2, 25_000),
        tx(TransactionType::Dispute, 1, 0),
        tx(TransactionType::Withdrawal, 3, 60_000),
        tx(TransactionType::Withdrawal, 4, 100_000),
        tx(TransactionType::Resolve, 2, 0),
        tx(TransactionType::Dispute, 2, 0),
        tx(TransactionType::Resolve, 1, 0),
        tx(TransactionType::ChargeBack, 2, 0),
        tx(TransactionType::Deposit, 5, 1),
    ];
    for step in steps.iter() {
        let _ = account.process_transaction(step);
        assert_eq!(account.total(), account.available() + account.held());
    }
    assert_eq!(balances(&account), (-10_000, 0, -10_000, true));
}

#[test]
fn default_account_is_new_account_of_client_zero() {
    let account = Account::default();
    assert_eq!(account.client(), 0);
    assert_eq!(balances(&account), (0, 0, 0, false));
}

#[test]
fn default_transaction_is_of_unknown_kind() {
    assert_eq!(TransactionType::default(), TransactionType::Unknown(String::new()));
    assert_eq!(
        Transaction::default(),
        Transaction { kind: TransactionType::Unknown(String::new()), client: 0, tx: 0, amount: 0 }
    );
}

#[test]
fn amounts_at_the_ends_of_the_range_are_exact() {
    let mut account = Account::new(1);
    assert_eq!(account.process_transaction(&tx(TransactionType::Deposit, 1, i64::MAX)), Ok(()));
    assert_eq!(account.process_transaction(&tx(TransactionType::Deposit, 2, i64::MAX)), Ok(()));
    assert_eq!(account.total(), 2 * i128::from(i64::MAX));
    assert_eq!(account.process_transaction(&tx(TransactionType::Withdrawal, 3, i64::MIN)), Ok(()));
    assert_eq!(account.total(), 2 * i128::from(i64::MAX) - i128::from(i64::MIN));
    assert_eq!(account.available(), account.total());
}

#[test]
fn locked_account_refuses_a_deposit_of_any_amount() {
    let mut account = Account::new(1);
    assert_eq!(account.process_transaction(&tx(TransactionType::Deposit, 1, 50_000)), Ok(()));
    assert_eq!(account.process_transaction(&tx(TransactionType::Dispute, 1, 0)), Ok(()));
    assert_eq!(account.process_transaction(&tx(TransactionType::ChargeBack, 1, 0)), Ok(()));
    for amount in vec![-1, i64::MIN, 0, i64::MAX] {
        assert_eq!(
            account.process_transaction(&tx(TransactionType::Deposit, 2, amount)),
            Err(LedgerError::AccountLocked)
        );
        assert_eq!(balances(&account), (0, 0, 0, true));
        assert_eq!(account.lookup(2), None);
    }
    assert_eq!(
        account.process_transaction(&tx(TransactionType::Unknown(String::from("Transfer")), 3, 1)),
        Err(LedgerError::AccountLocked)
    );
}

#[test]
fn unknown_kind_is_reported_as_it_was_read() {
    let mut account = Account::new(1);
    assert_eq!(
        account.process_transaction(&tx(TransactionType::parse("Transfer"), 1, 5)),
        Err(LedgerError::UnrecognizedType(String::from("Transfer")))
    );
}
