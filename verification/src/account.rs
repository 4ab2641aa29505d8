//! One client's account: its balances, its history of monetary transactions,
//! and the rules by which each kind of transaction changes them.

use crate::error::{DisputeStep, LedgerError};
use crate::transaction::{MonetaryKind, StoredTransaction, Transaction, TransactionType};
use std::collections::BTreeMap;
use vstd::prelude::*;

verus! {

/// The most by which one operation can move a balance: the magnitude of the
/// smallest `i64`.
pub open spec fn max_step() -> int {
    0x8000_0000_0000_0000
}

/// The mathematical state of an account. Balances are unbounded integers, in
/// minor units.
pub struct AccountView {
    pub client: u16,
    pub available: int,
    pub held: int,
    pub total: int,
    pub locked: bool,
    pub transactions: Map<u32, StoredTransaction>,
}

impl AccountView {
    /// A new account: nothing in it, not locked, no history.
    pub open spec fn opened(client: u16) -> AccountView {
        AccountView {
            client,
            available: 0,
            held: 0,
            total: 0,
            locked: false,
            transactions: Map::empty(),
        }
    }

    /// The total is what is available plus what is held.
    pub open spec fn balanced(self) -> bool {
        self.total == self.available + self.held
    }

    /// Nothing is held and no stored transaction is under dispute.
    pub open spec fn settled(self) -> bool {
        &&& self.held == 0
        &&& forall|tx: u32| #[trigger]
            self.transactions.contains_key(tx) ==> !self.transactions[tx].disputed
    }

    /// Every balance lies between `-bound` and `bound`.
    pub open spec fn within(self, bound: int) -> bool {
        &&& -bound <= self.available <= bound
        &&& -bound <= self.held <= bound
        &&& -bound <= self.total <= bound
    }

    /// The account with `amount` added to what is available.
    pub open spec fn deposit(self, amount: int) -> AccountView {
        AccountView {
            available: self.available + amount,
            total: self.total + amount,
            ..self
        }
    }

    /// The account with `amount` taken from what is available.
    pub open spec fn withdraw(self, amount: int) -> AccountView {
        AccountView {
            available: self.available - amount,
            total: self.total - amount,
            ..self
        }
    }

    /// The account with transaction `tx` stored under its id, replacing what
    /// was stored under that id before, and not under dispute.
    pub open spec fn store(self, tx: u32, kind: MonetaryKind, amount: i64) -> AccountView {
        AccountView {
            transactions: self.transactions.insert(
                tx,
                StoredTransaction { kind, amount, disputed: false },
            ),
            ..self
        }
    }

    /// The account with the stored transaction `tx` marked as `disputed` or
    /// not.
    pub open spec fn mark(self, tx: u32, disputed: bool) -> AccountView
        recommends
            self.transactions.contains_key(tx),
    {
        AccountView {
            transactions: self.transactions.insert(
                tx,
                StoredTransaction { disputed, ..self.transactions[tx] },
            ),
            ..self
        }
    }

    /// The account after the stored transaction `tx` came under dispute: its
    /// amount moves from available to held.
    pub open spec fn dispute(self, tx: u32) -> AccountView
        recommends
            self.transactions.contains_key(tx),
    {
        let amount = self.transactions[tx].amount;
        AccountView {
            available: self.available - amount,
            held: self.held + amount,
            ..self.mark(tx, true)
        }
    }

    /// The account after the dispute of `tx` was resolved: its amount moves
    /// back from held to available.
    pub open spec fn resolve(self, tx: u32) -> AccountView
        recommends
            self.transactions.contains_key(tx),
    {
        let amount = self.transactions[tx].amount;
        AccountView {
            available: self.available + amount,
            held: self.held - amount,
            ..self.mark(tx, false)
        }
    }

    /// The account after the disputed `tx` was charged back: its amount
    /// leaves held and the total, and the account is locked.
    pub open spec fn charge_back(self, tx: u32) -> AccountView
        recommends
            self.transactions.contains_key(tx),
    {
        let amount = self.transactions[tx].amount;
        AccountView {
            held: self.held - amount,
            total: self.total - amount,
            locked: true,
            ..self.mark(tx, false)
        }
    }

    /// Why `withdraw(amount)` fails, if it does.
    pub open spec fn withdraw_outcome(self, amount: int) -> Result<(), LedgerError> {
        if amount <= self.total {
            Ok(())
        } else {
            Err(LedgerError::InsufficientFunds)
        }
    }

    /// Why `dispute(tx)` fails, if it does.
    pub open spec fn dispute_outcome(self, tx: u32) -> Result<(), LedgerError> {
        if self.transactions.contains_key(tx) {
            Ok(())
        } else {
            Err(LedgerError::UnknownTransaction(DisputeStep::Dispute))
        }
    }

    /// Why ending the dispute of `tx` by `step`, a resolve or a chargeback,
    /// fails, if it does.
    pub open spec fn settle_outcome(self, tx: u32, step: DisputeStep) -> Result<
        (),
        LedgerError,
    > {
        if !self.transactions.contains_key(tx) {
            Err(LedgerError::UnknownTransaction(step))
        } else if !self.transactions[tx].disputed {
            Err(LedgerError::NotDisputed(step))
        } else {
            Ok(())
        }
    }

    /// Whether applying `t` succeeds, and the error if not. A locked account
    /// refuses everything, before any other check.
    pub open spec fn outcome(self, t: Transaction) -> Result<(), LedgerError> {
        if self.locked {
            Err(LedgerError::AccountLocked)
        } else {
            match t.kind {
                TransactionType::Deposit => Ok(()),
                TransactionType::Withdrawal => self.withdraw_outcome(t.amount as int),
                TransactionType::Dispute => self.dispute_outcome(t.tx),
                TransactionType::Resolve => self.settle_outcome(t.tx, DisputeStep::Resolve),
                TransactionType::ChargeBack => self.settle_outcome(t.tx, DisputeStep::ChargeBack),
                TransactionType::Unknown(raw) => Err(LedgerError::UnrecognizedType(raw)),
            }
        }
    }

    /// The account after `t` was applied to it. A transaction that fails
    /// leaves the account as it was.
    pub open spec fn apply(self, t: Transaction) -> AccountView {
        if self.outcome(t) is Err {
            self
        } else {
            match t.kind {
                TransactionType::Deposit => self.deposit(t.amount as int).store(
                    t.tx,
                    MonetaryKind::Deposit,
                    t.amount,
                ),
                TransactionType::Withdrawal => self.withdraw(t.amount as int).store(
                    t.tx,
                    MonetaryKind::Withdrawal,
                    t.amount,
                ),
                TransactionType::Dispute => self.dispute(t.tx),
                TransactionType::Resolve => self.resolve(t.tx),
                TransactionType::ChargeBack => self.charge_back(t.tx),
                TransactionType::Unknown(_) => self,
            }
        }
    }

    /// One transaction moves no balance by more than `max_step()`.
    pub proof fn lemma_apply_grows(self, t: Transaction, bound: int)
        requires
            self.within(bound),
        ensures
            self.apply(t).within(bound + max_step()),
    {
    }

    /// Whatever is applied to an account, whether it succeeds or fails, the
    /// total stays the sum of what is available and what is held, and the
    /// account stays with its client.
    pub proof fn lemma_apply_keeps_balance(self, t: Transaction)
        requires
            self.balanced(),
        ensures
            self.apply(t).balanced(),
            self.apply(t).client == self.client,
    {
    }

    /// A transaction that fails leaves the account exactly as it was.
    pub proof fn lemma_failure_changes_nothing(self, t: Transaction)
        requires
            self.outcome(t) is Err,
        ensures
            self.apply(t) == self,
    {
    }

    /// A new account into which `amount` is deposited and from which the
    /// same amount is then withdrawn is empty again, and neither step fails.
    /// This holds of the two operations and of the two transactions applied.
    pub proof fn lemma_deposit_then_withdraw(client: u16, amount: i64, first: u32, second: u32)
        requires
            amount >= 0,
        ensures
            ({
                let funded = AccountView::opened(client).deposit(amount as int);
                &&& funded.withdraw_outcome(amount as int) is Ok
                &&& funded.withdraw(amount as int).available == 0
                &&& funded.withdraw(amount as int).held == 0
                &&& funded.withdraw(amount as int).total == 0
            }),
            ({
                let deposit = Transaction {
                    kind: TransactionType::Deposit,
                    client,
                    tx: first,
                    amount,
                };
                let withdrawal = Transaction {
                    kind: TransactionType::Withdrawal,
                    client,
                    tx: second,
                    amount,
                };
                let funded = AccountView::opened(client).apply(deposit);
                &&& AccountView::opened(client).outcome(deposit) is Ok
                &&& funded.outcome(withdrawal) is Ok
                &&& funded.apply(withdrawal).available == 0
                &&& funded.apply(withdrawal).held == 0
                &&& funded.apply(withdrawal).total == 0
            }),
    {
    }

    /// A withdrawal of more than the total fails for want of funds and
    /// changes nothing.
    pub proof fn lemma_overdraft_refused(self, t: Transaction)
        requires
            !self.locked,
            t.kind is Withdrawal,
            t.amount > self.total,
        ensures
            self.withdraw_outcome(t.amount as int) == Err::<(), LedgerError>(
                LedgerError::InsufficientFunds,
            ),
            self.outcome(t) == Err::<(), LedgerError>(LedgerError::InsufficientFunds),
            self.apply(t) == self,
    {
    }

    /// A dispute of a transaction that the account has not stored fails as
    /// unknown and changes nothing.
    pub proof fn lemma_unknown_dispute_refused(self, t: Transaction)
        requires
            !self.locked,
            t.kind is Dispute,
            !self.transactions.contains_key(t.tx),
        ensures
            self.dispute_outcome(t.tx) == Err::<(), LedgerError>(
                LedgerError::UnknownTransaction(DisputeStep::Dispute),
            ),
            self.outcome(t) == Err::<(), LedgerError>(
                LedgerError::UnknownTransaction(DisputeStep::Dispute),
            ),
            self.apply(t) == self,
    {
    }

    /// A stored transaction that is not under dispute can be neither
    /// resolved nor charged back: both fail as not disputed. That is so of a
    /// transaction just stored by a deposit or a withdrawal, which was never
    /// disputed, and of one whose dispute was resolved.
    pub proof fn lemma_settle_needs_dispute(self, t: Transaction, step: DisputeStep)
        ensures
            self.transactions.contains_key(t.tx) && !self.transactions[t.tx].disputed
                ==> self.settle_outcome(t.tx, step) == Err::<(), LedgerError>(
                LedgerError::NotDisputed(step),
            ),
            t.kind.is_monetary() && self.outcome(t) is Ok ==> self.apply(t).settle_outcome(
                t.tx,
                step,
            ) == Err::<(), LedgerError>(LedgerError::NotDisputed(step)),
            t.kind is Resolve && self.outcome(t) is Ok ==> self.apply(t).settle_outcome(
                t.tx,
                step,
            ) == Err::<(), LedgerError>(LedgerError::NotDisputed(step)),
    {
    }

    /// After a chargeback that succeeded the account is locked, and whatever
    /// is applied to it next fails as locked and changes nothing.
    pub proof fn lemma_chargeback_locks(self, t: Transaction, next: Transaction)
        requires
            t.kind is ChargeBack,
            self.outcome(t) is Ok,
        ensures
            self.apply(t).locked,
            self.apply(t).outcome(next) == Err::<(), LedgerError>(LedgerError::AccountLocked),
            self.apply(t).apply(next) == self.apply(t),
    {
    }

    /// Funds are held only through disputes: as long as no dispute is
    /// applied, nothing is held and no stored transaction is under dispute.
    pub proof fn lemma_hold_needs_dispute(self, t: Transaction)
        requires
            self.settled(),
            !(t.kind is Dispute),
        ensures
            self.apply(t).settled(),
    {
    }

    /// A locked account stays locked, whatever is applied to it.
    pub proof fn lemma_lock_is_permanent(self, t: Transaction)
        requires
            self.locked,
        ensures
            self.outcome(t) == Err::<(), LedgerError>(LedgerError::AccountLocked),
            self.apply(t) == self,
    {
    }
}

/// One client's account.
#[derive(Debug, Clone)]
pub struct Account {
    client: u16,
    available: i128,
    held: i128,
    total: i128,
    locked: bool,
    transactions: BTreeMap<u32, StoredTransaction>,
}

impl View for Account {
    type V = AccountView;

    closed spec fn view(&self) -> AccountView {
        AccountView {
            client: self.client,
            available: self.available as int,
            held: self.held as int,
            total: self.total as int,
            locked: self.locked,
            transactions: self.transactions@,
        }
    }
}

impl Default for Account {
    /// A new account for client 0.
    fn default() -> (account: Account)
        ensures
            account@ == AccountView::opened(0),
            account.wf(),
            account.has_room(),
    {
        Account::new(0)
    }
}

impl Account {
    /// The invariant of an account: its total is the sum of what is
    /// available and what is held.
    pub open spec fn wf(&self) -> bool {
        self@.balanced()
    }

    /// Whether one more operation, which moves each balance by at most
    /// `max_step()`, keeps every balance inside `i128`.
    pub open spec fn has_room(&self) -> bool {
        self@.within(i128::MAX - max_step())
    }

    /// A new account for `client`: all balances zero, not locked, no history.
    pub fn new(client: u16) -> (account: Account)
        ensures
            account@ == AccountView::opened(client),
            account.wf(),
            account.has_room(),
    {
        Account {
            client,
            available: 0,
            held: 0,
            total: 0,
            locked: false,
            transactions: BTreeMap::new(),
        }
    }

    /// Adds `amount` to what is available, and so to the total.
    pub fn deposit(&mut self, amount: i64)
        requires
            amount >= 0,
            old(self).wf(),
            old(self).has_room(),
        ensures
            final(self)@ == old(self)@.deposit(amount as int),
            final(self).wf(),
    {
        self.available = self.available + amount as i128;
        self.total = self.total + amount as i128;
    }

    /// Takes `amount` from what is available, and so from the total, unless
    /// it is more than the total: then nothing changes.
    pub fn withdraw(&mut self, amount: i64) -> (result: Result<(), LedgerError>)
        requires
            old(self).wf(),
            old(self).has_room(),
        ensures
            result == old(self)@.withdraw_outcome(amount as int),
            result is Ok ==> final(self)@ == old(self)@.withdraw(amount as int),
            result is Err ==> final(self)@ == old(self)@,
            final(self).wf(),
    {
        if amount as i128 <= self.total {
            self.available = self.available - amount as i128;
            self.total = self.total - amount as i128;
            Ok(())
        } else {
            Err(LedgerError::InsufficientFunds)
        }
    }

    /// Puts the stored transaction `tx_id` under dispute: its amount moves
    /// from available to held, and the total stays. Fails, changing nothing,
    /// if no transaction is stored under `tx_id`. A transaction that is
    /// already under dispute is disputed again, and its amount moves again.
    pub fn dispute(&mut self, tx_id: u32) -> (result: Result<(), LedgerError>)
        requires
            old(self).wf(),
            old(self).has_room(),
        ensures
            result == old(self)@.dispute_outcome(tx_id),
            result is Ok ==> final(self)@ == old(self)@.dispute(tx_id),
            result is Err ==> final(self)@ == old(self)@,
            final(self).wf(),
    {
        match self.lookup(tx_id) {
            Some(stored) => {
                self.available = self.available - stored.amount as i128;
                self.held = self.held + stored.amount as i128;
                self.set_disputed(tx_id, stored, true);
                Ok(())
            },
            None => Err(LedgerError::UnknownTransaction(DisputeStep::Dispute)),
        }
    }

    /// Ends the dispute of the stored transaction `tx_id` in the client's
    /// favour: its amount moves back from held to available, and the total
    /// stays. Fails, changing nothing, if no transaction is stored under
    /// `tx_id` or if it is not under dispute.
    pub fn resolve(&mut self, tx_id: u32) -> (result: Result<(), LedgerError>)
        requires
            old(self).wf(),
            old(self).has_room(),
        ensures
            result == old(self)@.settle_outcome(tx_id, DisputeStep::Resolve),
            result is Ok ==> final(self)@ == old(self)@.resolve(tx_id),
            result is Err ==> final(self)@ == old(self)@,
            final(self).wf(),
    {
        match self.lookup(tx_id) {
            Some(stored) => {
                if stored.disputed {
                    self.available = self.available + stored.amount as i128;
                    self.held = self.held - stored.amount as i128;
                    self.set_disputed(tx_id, stored, false);
                    Ok(())
                } else {
                    Err(LedgerError::NotDisputed(DisputeStep::Resolve))
                }
            },
            None => Err(LedgerError::UnknownTransaction(DisputeStep::Resolve)),
        }
    }

    /// Ends the dispute of the stored transaction `tx_id` by reversing it:
    /// its amount leaves held and the total, and the account is locked for
    /// good. Fails, changing nothing, if no transaction is stored under
    /// `tx_id` or if it is not under dispute.
    pub fn charge_back(&mut self, tx_id: u32) -> (result: Result<(), LedgerError>)
        requires
            old(self).wf(),
            old(self).has_room(),
        ensures
            result == old(self)@.settle_outcome(tx_id, DisputeStep::ChargeBack),
            result is Ok ==> final(self)@ == old(self)@.charge_back(tx_id),
            result is Err ==> final(self)@ == old(self)@,
            final(self).wf(),
    {
        match self.lookup(tx_id) {
            Some(stored) => {
                if stored.disputed {
                    self.total = self.total - stored.amount as i128;
                    self.held = self.held - stored.amount as i128;
                    self.locked = true;
                    self.set_disputed(tx_id, stored, false);
                    Ok(())
                } else {
                    Err(LedgerError::NotDisputed(DisputeStep::ChargeBack))
                }
            },
            None => Err(LedgerError::UnknownTransaction(DisputeStep::ChargeBack)),
        }
    }

    /// Applies one transaction. A locked account refuses it before anything
    /// else is looked at. A deposit is made and stored; a withdrawal is
    /// stored only if it was made; a dispute, resolve or chargeback acts on
    /// the transaction stored under `transaction.tx` and stores nothing; any
    /// other kind is refused. A transaction that fails changes nothing. Only
    /// of a deposit that gets as far as being made is an amount of zero or
    /// more asked for: a locked account refuses whatever it is given.
    pub fn process_transaction(&mut self, transaction: &Transaction) -> (result: Result<
        (),
        LedgerError,
    >)
        requires
            old(self).wf(),
            old(self).has_room(),
            (!old(self)@.locked && transaction.kind is Deposit) ==> transaction.amount >= 0,
        ensures
            result == old(self)@.outcome(*transaction),
            final(self)@ == old(self)@.apply(*transaction),
            final(self).wf(),
    {
        if self.locked {
            return Err(LedgerError::AccountLocked);
        }
        match &transaction.kind {
            TransactionType::Deposit => {
                self.deposit(transaction.amount);
                self.remember(transaction.tx, MonetaryKind::Deposit, transaction.amount);
                Ok(())
            },
            TransactionType::Withdrawal => {
                let made = self.withdraw(transaction.amount);
                if made.is_ok() {
                    self.remember(transaction.tx, MonetaryKind::Withdrawal, transaction.amount);
                }
                made
            },
            TransactionType::Dispute => self.dispute(transaction.tx),
            TransactionType::Resolve => self.resolve(transaction.tx),
            TransactionType::ChargeBack => self.charge_back(transaction.tx),
            TransactionType::Unknown(raw) => Err(LedgerError::UnrecognizedType(raw.clone())),
        }
    }

    /// The transaction stored under `tx_id`, if there is one.
    pub fn lookup(&self, tx_id: u32) -> (found: Option<StoredTransaction>)
        ensures
            found == if self@.transactions.contains_key(tx_id) {
                Some(self@.transactions[tx_id])
            } else {
                None
            },
    {
        broadcast use vstd::std_specs::btree::group_btree_axioms;

        match self.transactions.get(&tx_id) {
            Some(stored) => Some(*stored),
            None => None,
        }
    }

    /// Stores a transaction under `tx`, not under dispute, over whatever was
    /// stored there.
    fn remember(&mut self, tx: u32, kind: MonetaryKind, amount: i64)
        ensures
            final(self)@ == old(self)@.store(tx, kind, amount),
    {
        broadcast use vstd::std_specs::btree::group_btree_axioms;

        self.transactions.insert(tx, StoredTransaction { kind, amount, disputed: false });
    }

    /// Stores `stored` again under `tx` with its dispute flag set to
    /// `disputed`.
    fn set_disputed(&mut self, tx: u32, stored: StoredTransaction, disputed: bool)
        requires
            old(self)@.transactions.contains_key(tx),
            old(self)@.transactions[tx] == stored,
        ensures
            final(self)@ == old(self)@.mark(tx, disputed),
    {
        broadcast use vstd::std_specs::btree::group_btree_axioms;

        self.transactions.insert(tx, StoredTransaction { disputed, ..stored });
    }

    /// The client that the account belongs to.
    pub fn client(&self) -> (client: u16)
        ensures
            client == self@.client,
    {
        self.client
    }

    /// The funds that can be withdrawn, in minor units.
    pub fn available(&self) -> (amount: i128)
        ensures
            amount == self@.available,
    {
        self.available
    }

    /// The funds frozen by disputes, in minor units.
    pub fn held(&self) -> (amount: i128)
        ensures
            amount == self@.held,
    {
        self.held
    }

    /// Available and held funds together, in minor units.
    pub fn total(&self) -> (amount: i128)
        ensures
            amount == self@.total,
    {
        self.total
    }

    /// Whether a chargeback has locked the account.
    pub fn locked(&self) -> (locked: bool)
        ensures
            locked == self@.locked,
    {
        self.locked
    }
}

} // verus!
