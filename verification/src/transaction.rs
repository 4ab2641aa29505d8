//! Input records: the kinds of transaction and how a type token names one.

use vstd::prelude::*;

verus! {

/// What a record asks the ledger to do.
#[derive(Debug, Clone, PartialEq, Eq)]
pub enum TransactionType {
    Deposit,
    Withdrawal,
    Dispute,
    Resolve,
    ChargeBack,
    /// Any other type token, kept as it was read.
    Unknown(String),
}

/// One input record. `amount` is in minor units and only meaningful for
/// deposits and withdrawals.
#[derive(Debug, Clone, PartialEq, Eq)]
pub struct Transaction {
    pub kind: TransactionType,
    pub client: u16,
    pub tx: u32,
    pub amount: i64,
}

/// The two kinds of transaction that move money and are kept in an account's
/// history.
#[derive(Debug, Clone, Copy, PartialEq, Eq, Structural)]
pub enum MonetaryKind {
    Deposit,
    Withdrawal,
}

/// A monetary transaction as an account remembers it, so that a later
/// dispute, resolve or chargeback can refer to its amount.
#[derive(Debug, Clone, Copy, PartialEq, Eq, Structural)]
pub struct StoredTransaction {
    pub kind: MonetaryKind,
    pub amount: i64,
    pub disputed: bool,
}

impl Default for TransactionType {
    /// The unknown kind with an empty name.
    fn default() -> (kind: TransactionType)
        ensures
            kind matches TransactionType::Unknown(raw) && raw@ == Seq::<char>::empty(),
    {
        TransactionType::Unknown(String::new())
    }
}

impl Default for Transaction {
    /// A transaction of the unknown kind with an empty name, for client 0,
    /// with id 0 and amount 0.
    fn default() -> (t: Transaction)
        ensures
            t.kind matches TransactionType::Unknown(raw) && raw@ == Seq::<char>::empty(),
            t.client == 0,
            t.tx == 0,
            t.amount == 0,
    {
        Transaction { kind: TransactionType::default(), client: 0, tx: 0, amount: 0 }
    }
}

/// The lower-case form of a text, as `str::to_lowercase` of the standard
/// library gives it.
pub uninterp spec fn lowercase(text: Seq<char>) -> Seq<char>;

/// Calls `str::to_lowercase` of the standard library. Taken on trust, not
/// proved: the characters of the result depend on the characters of `token`
/// alone, and are what `lowercase` names.
#[verifier::external_body]
fn to_lowercase(token: &str) -> (lowered: String)
    ensures
        lowered@ == lowercase(token@),
{
    token.to_lowercase()
}

/// Whether `lowered` is one of the five type names.
pub open spec fn is_known_name(lowered: Seq<char>) -> bool {
    ||| lowered == "deposit"@
    ||| lowered == "withdrawal"@
    ||| lowered == "dispute"@
    ||| lowered == "resolve"@
    ||| lowered == "chargeback"@
}

impl TransactionType {
    /// Whether `self` is the known kind whose name is `lowered`. No name
    /// stands for `Unknown`.
    pub open spec fn named_by(self, lowered: Seq<char>) -> bool {
        match self {
            TransactionType::Deposit => lowered == "deposit"@,
            TransactionType::Withdrawal => lowered == "withdrawal"@,
            TransactionType::Dispute => lowered == "dispute"@,
            TransactionType::Resolve => lowered == "resolve"@,
            TransactionType::ChargeBack => lowered == "chargeback"@,
            TransactionType::Unknown(_) => false,
        }
    }

    /// Whether the kind moves money: a deposit or a withdrawal.
    pub open spec fn is_monetary(self) -> bool {
        self is Deposit || self is Withdrawal
    }

    /// The kind that a token stands for, given the token and its lower-case
    /// form. Only `lowered` is matched against the five names; a token that
    /// matches none is kept as it was read.
    pub fn from_folded(token: &str, lowered: &String) -> (kind: TransactionType)
        ensures
            is_known_name(lowered@) ==> kind.named_by(lowered@),
            !is_known_name(lowered@) ==> (kind matches TransactionType::Unknown(raw) && raw@
                == token@),
    {
        proof {
            lemma_names_differ();
        }
        if text_is(lowered, "deposit") {
            TransactionType::Deposit
        } else if text_is(lowered, "withdrawal") {
            TransactionType::Withdrawal
        } else if text_is(lowered, "dispute") {
            TransactionType::Dispute
        } else if text_is(lowered, "resolve") {
            TransactionType::Resolve
        } else if text_is(lowered, "chargeback") {
            TransactionType::ChargeBack
        } else {
            TransactionType::Unknown(String::from_str(token))
        }
    }

    /// The kind that a type token stands for. Letter case is ignored when the
    /// token is matched against the five names; a token that is none of them
    /// is kept, exactly as it was read, as `Unknown`.
    pub fn parse(token: &str) -> (kind: TransactionType)
        ensures
            is_known_name(lowercase(token@)) ==> kind.named_by(lowercase(token@)),
            !is_known_name(lowercase(token@)) ==> (kind matches TransactionType::Unknown(raw)
                && raw@ == token@),
    {
        let lowered = to_lowercase(token);
        TransactionType::from_folded(token, &lowered)
    }
}

/// Whether `text` reads exactly as `name`.
fn text_is(text: &String, name: &str) -> (same: bool)
    ensures
        same == (text@ == name@),
{
    let wanted = String::from_str(name);
    *text == wanted
}

/// The five type names are pairwise different.
proof fn lemma_names_differ()
    ensures
        "deposit"@ != "withdrawal"@,
        "deposit"@ != "dispute"@,
        "deposit"@ != "resolve"@,
        "deposit"@ != "chargeback"@,
        "withdrawal"@ != "dispute"@,
        "withdrawal"@ != "resolve"@,
        "withdrawal"@ != "chargeback"@,
        "dispute"@ != "resolve"@,
        "dispute"@ != "chargeback"@,
        "resolve"@ != "chargeback"@,
{
    reveal_strlit("deposit");
    reveal_strlit("withdrawal");
    reveal_strlit("dispute");
    reveal_strlit("resolve");
    reveal_strlit("chargeback");
    assert("deposit"@.len() == 7);
    assert("withdrawal"@.len() == 10);
    assert("dispute"@[0] == 'd' && "dispute"@[1] == 'i');
    assert("deposit"@[1] == 'e');
    assert("resolve"@[0] == 'r');
    assert("chargeback"@[0] == 'c');
    assert("withdrawal"@[0] == 'w');
}

} // verus!
