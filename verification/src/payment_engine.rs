//! The engine: it applies records in the order they arrive, one account per
//! client, and sets aside every record that fails, with the reason.

use crate::account::{max_step, Account, AccountView};
use crate::error::LedgerError;
use crate::transaction::{MonetaryKind, Transaction, TransactionType};
use std::collections::BTreeMap;
use vstd::prelude::*;
use vstd::std_specs::cmp::OrdSpec;
use vstd::std_specs::iter::IteratorSpec;

verus! {

/// One input row: its fields as they were read, and what reading them as a
/// transaction gave, the transaction or the reason why there is none.
#[derive(Debug, PartialEq, Eq)]
pub struct Record {
    pub fields: Vec<String>,
    pub parsed: Result<Transaction, String>,
}

/// A row that was not applied: its fields and why.
#[derive(Debug, Clone, PartialEq, Eq)]
pub struct FailedRecord {
    pub fields: Vec<String>,
    pub error: LedgerError,
}

/// The fields of a row, each after the first preceded by a comma.
pub open spec fn joined(fields: Seq<String>) -> Seq<char>
    decreases fields.len(),
{
    if fields.len() == 0 {
        Seq::empty()
    } else if fields.len() == 1 {
        fields[0]@
    } else {
        joined(fields.drop_last()) + seq![','] + fields.last()@
    }
}

/// The line that reports a row with `fields` that failed for `reason`: the
/// fields, a comma, then the reason.
pub open spec fn bad_record_line(fields: Seq<String>, reason: Seq<char>) -> Seq<char> {
    joined(fields) + seq![','] + reason
}

impl FailedRecord {
    /// The line that reports this row.
    pub open spec fn line_text(self) -> Seq<char> {
        bad_record_line(self.fields@, self.error.message_text())
    }

    /// The line that reports this row: its fields, then why it failed.
    pub fn line(&self) -> (line: String)
        ensures
            line@ == self.line_text(),
    {
        let reason = self.error.message();
        formatted_bad_record(&self.fields, reason.as_str())
    }
}

/// The line that reports a row with `fields` that failed for `reason`: the
/// fields separated by commas, a comma, then the reason.
pub fn formatted_bad_record(fields: &Vec<String>, reason: &str) -> (line: String)
    ensures
        line@ == bad_record_line(fields@, reason@),
{
    proof {
        reveal_strlit(",");
        assert(","@ =~= seq![',']);
    }
    let mut line = String::new();
    let mut at: usize = 0;
    while at < fields.len()
        invariant
            at <= fields.len(),
            ","@ == seq![','],
            line@ == joined(fields@.take(at as int)),
        decreases fields.len() - at,
    {
        proof {
            assert(fields@.take(at + 1).drop_last() =~= fields@.take(at as int));
            assert(fields@.take(at + 1).last() == fields@[at as int]);
        }
        if at > 0 {
            line.append(",");
        }
        line.append(fields[at].as_str());
        at = at + 1;
    }
    assert(fields@.take(at as int) =~= fields@);
    line.append(",");
    line.append(reason);
    line
}

/// The kind of `t` if it moves money and its amount is not above zero.
pub open spec fn rejected_amount(t: Transaction) -> Option<MonetaryKind> {
    if t.amount > 0 {
        None
    } else {
        match t.kind {
            TransactionType::Deposit => Some(MonetaryKind::Deposit),
            TransactionType::Withdrawal => Some(MonetaryKind::Withdrawal),
            _ => None,
        }
    }
}

/// The mathematical state of a run: the account of each client seen so far,
/// and the rows set aside, in the order they arrived.
pub struct LedgerView {
    pub accounts: Map<u16, AccountView>,
    pub failed: Seq<FailedRecord>,
}

impl LedgerView {
    /// The state before any record: no account, nothing set aside.
    pub open spec fn empty() -> LedgerView {
        LedgerView { accounts: Map::empty(), failed: Seq::empty() }
    }

    /// The account of `client`, or a new one if the client has none yet.
    pub open spec fn account_for(self, client: u16) -> AccountView {
        if self.accounts.contains_key(client) {
            self.accounts[client]
        } else {
            AccountView::opened(client)
        }
    }

    /// Whether `record` is applied, and the error if not. A row that is no
    /// transaction fails with the reader's reason; a deposit or withdrawal
    /// whose amount is not above zero fails before it reaches an account;
    /// anything else is for the client's account to decide.
    pub open spec fn verdict(self, record: Record) -> Result<(), LedgerError> {
        match record.parsed {
            Err(reason) => Err(LedgerError::Parse(reason)),
            Ok(t) => match rejected_amount(t) {
                Some(kind) => Err(LedgerError::InvalidAmount(kind)),
                None => self.account_for(t.client).outcome(t),
            },
        }
    }

    /// Whether `record` gets as far as an account.
    pub open spec fn reaches_account(record: Record) -> bool {
        record.parsed matches Ok(t) && rejected_amount(t) is None
    }

    /// The state after `record`. A record that reaches an account leaves the
    /// client with an account, a new one if there was none, to which the
    /// transaction was applied; a record that fails is added to the rows set
    /// aside.
    pub open spec fn step(self, record: Record) -> LedgerView {
        LedgerView {
            accounts: if Self::reaches_account(record) {
                let t = record.parsed->Ok_0;
                self.accounts.insert(t.client, self.account_for(t.client).apply(t))
            } else {
                self.accounts
            },
            failed: match self.verdict(record) {
                Err(error) => self.failed.push(FailedRecord { fields: record.fields, error }),
                Ok(_) => self.failed,
            },
        }
    }

    /// The state after all of `records`, taken in order from this state.
    pub open spec fn after(self, records: Seq<Record>) -> LedgerView
        decreases records.len(),
    {
        if records.len() == 0 {
            self
        } else {
            self.after(records.drop_last()).step(records.last())
        }
    }

    /// The state after all of `records`, taken in order from the empty state.
    pub open spec fn run(records: Seq<Record>) -> LedgerView {
        Self::empty().after(records)
    }

    /// Every account is filed under its own client and its total is the sum
    /// of what is available and what is held.
    pub open spec fn sound(self) -> bool {
        forall|client: u16| #[trigger]
            self.accounts.contains_key(client) ==> {
                &&& self.accounts[client].client == client
                &&& self.accounts[client].balanced()
            }
    }

    /// No account holds anything or has a stored transaction under dispute.
    pub open spec fn settled(self) -> bool {
        forall|client: u16| #[trigger]
            self.accounts.contains_key(client) ==> self.accounts[client].settled()
    }

    /// Whether `record` is a dispute.
    pub open spec fn is_dispute(record: Record) -> bool {
        record.parsed matches Ok(t) && t.kind is Dispute
    }

    /// Every balance of every account lies between `-bound` and `bound`.
    pub open spec fn within(self, bound: int) -> bool {
        forall|client: u16| #[trigger]
            self.accounts.contains_key(client) ==> self.accounts[client].within(bound)
    }

    /// One record more is one step more.
    pub proof fn lemma_after_push(self, records: Seq<Record>, record: Record)
        ensures
            self.after(records.push(record)) == self.after(records).step(record),
    {
        assert(records.push(record).drop_last() =~= records);
    }

    /// A step keeps every account under its client and every total the sum
    /// of what is available and what is held.
    pub proof fn lemma_step_sound(self, record: Record)
        requires
            self.sound(),
        ensures
            self.step(record).sound(),
    {
        if Self::reaches_account(record) {
            let t = record.parsed->Ok_0;
            self.account_for(t.client).lemma_apply_keeps_balance(t);
        }
    }

    /// However many records are taken, every account stays filed under
    /// its own client and every total stays the sum of what is available and
    /// what is held.
    pub proof fn lemma_after_sound(self, records: Seq<Record>)
        requires
            self.sound(),
        ensures
            self.after(records).sound(),
        decreases records.len(),
    {
        if records.len() > 0 {
            self.lemma_after_sound(records.drop_last());
            self.after(records.drop_last()).lemma_step_sound(records.last());
        }
    }

    /// After any run, every account is filed under its own client and its
    /// total is the sum of what is available and what is held.
    pub proof fn lemma_run_sound(records: Seq<Record>)
        ensures
            Self::run(records).sound(),
    {
        Self::empty().lemma_after_sound(records);
    }

    /// A record that fails is added, with its error, to the end of the rows
    /// set aside, and changes no account that exists. If it reached an
    /// account and its client had none, the client now has a new, empty one;
    /// otherwise the accounts are the same.
    pub proof fn lemma_failure_is_recorded(self, record: Record)
        requires
            self.verdict(record) is Err,
        ensures
            self.step(record).failed == self.failed.push(
                FailedRecord { fields: record.fields, error: self.verdict(record)->Err_0 },
            ),
            forall|client: u16| #[trigger]
                self.accounts.contains_key(client) ==> self.step(record).accounts.contains_key(
                    client,
                ) && self.step(record).accounts[client] == self.accounts[client],
            !Self::reaches_account(record) ==> self.step(record).accounts == self.accounts,
            Self::reaches_account(record) ==> self.step(record).accounts
                == self.accounts.insert(
                record.parsed->Ok_0.client,
                self.account_for(record.parsed->Ok_0.client),
            ),
    {
    }

    /// A record that is applied adds nothing to the rows set aside, and
    /// changes no account but that of its client.
    pub proof fn lemma_success_is_local(self, record: Record)
        requires
            self.verdict(record) is Ok,
        ensures
            self.step(record).failed == self.failed,
            Self::reaches_account(record),
            forall|client: u16|
                client != record.parsed->Ok_0.client ==> (#[trigger] self.step(
                    record,
                ).accounts.contains_key(client) == self.accounts.contains_key(client)
                    && self.step(record).accounts[client] == self.accounts[client]),
    {
    }

    /// A record for a client whose account is locked fails as locked and
    /// changes no account, whatever it asks for.
    pub proof fn lemma_locked_client_refused(self, record: Record)
        requires
            Self::reaches_account(record),
            self.accounts.contains_key(record.parsed->Ok_0.client),
            self.accounts[record.parsed->Ok_0.client].locked,
        ensures
            self.verdict(record) == Err::<(), LedgerError>(LedgerError::AccountLocked),
            self.step(record).accounts == self.accounts,
    {
        let client = record.parsed->Ok_0.client;
        assert(self.accounts.insert(client, self.accounts[client]) =~= self.accounts);
    }

    /// After a chargeback that was applied, the client's account is locked,
    /// and the next record that reaches it fails as locked and changes no
    /// account.
    pub proof fn lemma_chargeback_locks(self, chargeback: Record, next: Record)
        requires
            chargeback.parsed matches Ok(t) && t.kind is ChargeBack,
            self.verdict(chargeback) is Ok,
            Self::reaches_account(next),
            next.parsed->Ok_0.client == chargeback.parsed->Ok_0.client,
        ensures
            self.step(chargeback).accounts[chargeback.parsed->Ok_0.client].locked,
            self.step(chargeback).verdict(next) == Err::<(), LedgerError>(
                LedgerError::AccountLocked,
            ),
            self.step(chargeback).step(next).accounts == self.step(chargeback).accounts,
    {
        self.step(chargeback).lemma_locked_client_refused(next);
    }

    /// Funds are held only through disputes: records among which there is
    /// no dispute leave nothing held in any account.
    pub proof fn lemma_hold_needs_dispute(self, records: Seq<Record>)
        requires
            self.settled(),
            forall|i: int| 0 <= i < records.len() ==> !Self::is_dispute(#[trigger] records[i]),
        ensures
            self.after(records).settled(),
        decreases records.len(),
    {
        if records.len() > 0 {
            self.lemma_hold_needs_dispute(records.drop_last());
            let before = self.after(records.drop_last());
            let record = records.last();
            assert(!Self::is_dispute(record));
            if Self::reaches_account(record) {
                let t = record.parsed->Ok_0;
                before.account_for(t.client).lemma_hold_needs_dispute(t);
            }
        }
    }

    /// Records move no balance by more than `max_step()` each.
    pub proof fn lemma_after_grows(self, records: Seq<Record>, bound: int)
        requires
            bound >= 0,
            self.within(bound),
        ensures
            self.after(records).within(bound + records.len() * max_step()),
        decreases records.len(),
    {
        if records.len() > 0 {
            self.lemma_after_grows(records.drop_last(), bound);
            self.after(records.drop_last()).lemma_step_grows(
                records.last(),
                bound + (records.len() - 1) * max_step(),
            );
        }
    }

    /// One record moves no balance by more than `max_step()`.
    pub proof fn lemma_step_grows(self, record: Record, bound: int)
        requires
            bound >= 0,
            self.within(bound),
        ensures
            self.step(record).within(bound + max_step()),
    {
        if Self::reaches_account(record) {
            let t = record.parsed->Ok_0;
            self.account_for(t.client).lemma_apply_grows(t, bound);
        }
    }
}

/// The engine of one run. It owns the accounts and the rows set aside.
#[derive(Debug, Clone)]
pub struct PaymentEngine {
    accounts: BTreeMap<u16, Account>,
    failed_transactions: Vec<FailedRecord>,
}

impl View for PaymentEngine {
    type V = LedgerView;

    closed spec fn view(&self) -> LedgerView {
        LedgerView {
            accounts: self.accounts@.map_values(|account: Account| account@),
            failed: self.failed_transactions@,
        }
    }
}

impl Default for PaymentEngine {
    /// An engine that has seen no record.
    fn default() -> (engine: PaymentEngine)
        ensures
            engine@ == LedgerView::empty(),
            engine.wf(),
            engine.has_room(),
    {
        PaymentEngine::new()
    }
}

impl PaymentEngine {
    /// The invariant of an engine: that of its state.
    pub open spec fn wf(&self) -> bool {
        self@.sound()
    }

    /// Whether `count` more records keep every balance inside `i128`.
    pub open spec fn has_room_for(&self, count: nat) -> bool {
        self@.within(i128::MAX - count * max_step())
    }

    /// Whether one more record keeps every balance inside `i128`.
    pub open spec fn has_room(&self) -> bool {
        self.has_room_for(1)
    }

    /// An engine that has seen no record.
    pub fn new() -> (engine: PaymentEngine)
        ensures
            engine@ == LedgerView::empty(),
            engine.wf(),
            engine.has_room(),
    {
        let engine = PaymentEngine { accounts: BTreeMap::new(), failed_transactions: Vec::new() };
        assert(engine@.accounts =~= Map::empty());
        engine
    }

    /// Applies `records` in order to an engine that has seen none, and
    /// returns the engine: the accounts as the records left them, and the
    /// records that failed, in the order they arrived. No record ends the run.
    pub fn run(records: Vec<Record>) -> (engine: PaymentEngine)
        ensures
            engine@ == LedgerView::run(records@),
            engine.wf(),
    {
        let mut engine = PaymentEngine::new();
        let count: usize = records.len();
        assert(engine@.within(i128::MAX - count * max_step()));
        engine.parse_transactions(records);
        engine
    }

    /// Applies `records` in order: each to the account of its client, opened
    /// first if the client has none, or set aside with the reason if it
    /// fails. No record ends the run.
    pub fn parse_transactions(&mut self, records: Vec<Record>)
        requires
            old(self).wf(),
            old(self).has_room_for(records@.len()),
        ensures
            final(self)@ == old(self)@.after(records@),
            final(self).wf(),
    {
        let count: usize = records.len();
        let ghost slack = i128::MAX - count * max_step();
        for record in iter: records
            invariant
                iter.seq() == records@,
                records@.len() == count,
                slack == i128::MAX - count * max_step(),
                self@ == old(self)@.after(records@.take(iter.index())),
                self.wf(),
                self@.within(slack + iter.index() * max_step()),
        {
            proof {
                let done = iter.index();
                assert(records@.take(done + 1).drop_last() =~= records@.take(done));
                assert(records@.take(done + 1).last() == record);
                assert(slack + done * max_step() <= i128::MAX - max_step());
                self@.lemma_step_grows(record, slack + done * max_step());
            }
            self.process_record(record);
        }
        assert(records@.take(records@.len() as int) =~= records@);
    }

    /// The account of `client`, if the client has one.
    pub fn account(&self, client: u16) -> (found: Option<&Account>)
        ensures
            found is Some == self@.accounts.contains_key(client),
            found matches Some(account) ==> account@ == self@.accounts[client],
    {
        broadcast use vstd::std_specs::btree::group_btree_axioms;

        self.accounts.get(&client)
    }

    /// The clients that have an account, in ascending order.
    pub fn clients(&self) -> (ids: Vec<u16>)
        ensures
            forall|client: u16| ids@.contains(client) == self@.accounts.contains_key(client),
            forall|i: int, j: int| 0 <= i < j < ids@.len() ==> ids@[i] < ids@[j],
    {
        broadcast use vstd::std_specs::btree::group_btree_axioms;

        broadcast use vstd::laws_cmp::group_laws_cmp;

        let mut ids: Vec<u16> = Vec::new();
        let entries = self.accounts.iter();
        let ghost listed = entries.remaining();
        let ghost keys = listed.map_values(|entry: (&u16, &Account)| *entry.0);
        proof {
            assert(vstd::std_specs::btree::increasing_seq(keys));
            vstd::std_specs::btree::axiom_increasing_seq_meaning::<u16>(keys);
            assert(forall|i: int, j: int|
                0 <= i < j < keys.len() ==> keys[i].cmp_spec(&keys[j]) is Less);
        }
        for entry in iter: entries
            invariant
                iter.seq() == listed,
                keys.len() == listed.len(),
                forall|i: int| 0 <= i < listed.len() ==> keys[i] == *listed[i].0,
                ids@.len() == iter.index(),
                forall|i: int| 0 <= i < ids@.len() ==> ids@[i] == keys[i],
        {
            ids.push(*entry.0);
        }
        proof {
            assert(ids@ =~= keys);
            assert forall|i: int, j: int| 0 <= i < j < ids@.len() implies ids@[i] < ids@[j] by {
                assert(keys[i].cmp_spec(&keys[j]) is Less);
            }
            assert forall|client: u16|
                ids@.contains(client) == self@.accounts.contains_key(client) by {
                if self.accounts@.contains_key(client) {
                    let at = listed.index_of((&client, &self.accounts@[client]));
                    assert(keys[at] == client);
                }
                if ids@.contains(client) {
                    let at = ids@.index_of(client);
                    assert(self.accounts@.contains_key(*listed[at].0));
                }
            }
        }
        ids
    }

    /// The rows set aside so far, in the order they arrived.
    pub fn failed_transactions(&self) -> (failed: &Vec<FailedRecord>)
        ensures
            failed@ == self@.failed,
    {
        &self.failed_transactions
    }

    /// Takes one record: applies it to the account of its client, opening
    /// the account first if the client has none, or sets it aside with the
    /// reason why it was not applied.
    pub fn process_record(&mut self, record: Record)
        requires
            old(self).wf(),
            old(self).has_room(),
        ensures
            final(self)@ == old(self)@.step(record),
            final(self).wf(),
    {
        broadcast use vstd::std_specs::btree::group_btree_axioms;

        let verdict: Result<(), LedgerError> = match &record.parsed {
            Err(reason) => Err(LedgerError::Parse(reason.clone())),
            Ok(t) => match amount_rule(t) {
                Some(kind) => Err(LedgerError::InvalidAmount(kind)),
                None => {
                    let mut account = match self.accounts.remove(&t.client) {
                        Some(account) => {
                            assert(old(self)@.accounts.contains_key(t.client));
                            assert(old(self)@.accounts[t.client] == account@);
                            account
                        },
                        None => Account::new(t.client),
                    };
                    assert(account@ == old(self)@.account_for(t.client));
                    let applied = account.process_transaction(t);
                    self.accounts.insert(t.client, account);
                    assert(self@.accounts =~= old(self)@.accounts.insert(
                        t.client,
                        old(self)@.account_for(t.client).apply(*t),
                    ));
                    applied
                },
            },
        };
        assert(self@.accounts =~= old(self)@.step(record).accounts);
        if let Err(error) = verdict {
            self.failed_transactions.push(FailedRecord { fields: record.fields, error });
        }
    }
}

/// The kind of `t` if it is a deposit or withdrawal whose amount is not above
/// zero: such a record is refused before it reaches an account.
pub fn amount_rule(t: &Transaction) -> (refused: Option<MonetaryKind>)
    ensures
        refused == rejected_amount(*t),
{
    if t.amount > 0 {
        None
    } else {
        match &t.kind {
            TransactionType::Deposit => Some(MonetaryKind::Deposit),
            TransactionType::Withdrawal => Some(MonetaryKind::Withdrawal),
            _ => None,
        }
    }
}

} // verus!
