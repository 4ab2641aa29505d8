//! Why a record could not be applied, and how the reason reads.

use crate::transaction::MonetaryKind;
use vstd::prelude::*;

verus! {

/// The three operations that act on a transaction stored earlier.
#[derive(Debug, Clone, Copy, PartialEq, Eq, Structural)]
pub enum DisputeStep {
    Dispute,
    Resolve,
    ChargeBack,
}

/// The reasons for which a record is set aside instead of being applied.
/// None of them ends a run.
#[derive(Debug, Clone, PartialEq, Eq)]
pub enum LedgerError {
    /// The record could not be read as a transaction; the text says why.
    Parse(String),
    /// A deposit or withdrawal whose amount is not above zero.
    InvalidAmount(MonetaryKind),
    /// A withdrawal of more than the account's total.
    InsufficientFunds,
    /// A dispute, resolve or chargeback that refers to a transaction the
    /// account has not stored.
    UnknownTransaction(DisputeStep),
    /// A resolve or chargeback of a transaction that is not under dispute.
    NotDisputed(DisputeStep),
    /// The account was locked by a chargeback.
    AccountLocked,
    /// A type token that names no kind of transaction.
    UnrecognizedType(String),
}

impl MonetaryKind {
    /// The kind's name as it opens a message.
    pub open spec fn title(self) -> Seq<char> {
        match self {
            MonetaryKind::Deposit => "Deposit"@,
            MonetaryKind::Withdrawal => "Withdrawal"@,
        }
    }
}

impl DisputeStep {
    /// The step as a verb.
    pub open spec fn verb(self) -> Seq<char> {
        match self {
            DisputeStep::Dispute => "dispute"@,
            DisputeStep::Resolve => "resolve"@,
            DisputeStep::ChargeBack => "charge back"@,
        }
    }
}

impl LedgerError {
    /// The reason as a reader sees it.
    pub open spec fn message_text(self) -> Seq<char> {
        match self {
            LedgerError::Parse(reason) => reason@,
            LedgerError::InvalidAmount(kind) => kind.title()
                + " transaction must be above zero"@,
            LedgerError::InsufficientFunds => "Can't withdraw; insufficient funds."@,
            LedgerError::UnknownTransaction(step) => "Can't "@ + step.verb()
                + "; unable to find the original transaction."@,
            LedgerError::NotDisputed(step) => "Can't "@ + step.verb()
                + "; transaction is not originally disputed."@,
            LedgerError::AccountLocked => "Can not process transaction; account is locked."@,
            LedgerError::UnrecognizedType(raw) => "Can't process transaction "@ + raw@,
        }
    }

    /// The reason as a reader sees it.
    pub fn message(&self) -> (text: String)
        ensures
            text@ == self.message_text(),
    {
        match self {
            LedgerError::Parse(reason) => reason.clone(),
            LedgerError::InvalidAmount(kind) => {
                let title = match kind {
                    MonetaryKind::Deposit => "Deposit",
                    MonetaryKind::Withdrawal => "Withdrawal",
                };
                String::from_str(title).concat(" transaction must be above zero")
            },
            LedgerError::InsufficientFunds => String::from_str(
                "Can't withdraw; insufficient funds.",
            ),
            LedgerError::UnknownTransaction(step) => String::from_str("Can't ").concat(
                step_verb(*step),
            ).concat("; unable to find the original transaction."),
            LedgerError::NotDisputed(step) => String::from_str("Can't ").concat(
                step_verb(*step),
            ).concat("; transaction is not originally disputed."),
            LedgerError::AccountLocked => String::from_str(
                "Can not process transaction; account is locked.",
            ),
            LedgerError::UnrecognizedType(raw) => String::from_str(
                "Can't process transaction ",
            ).concat(raw.as_str()),
        }
    }
}

/// The step as a verb.
fn step_verb(step: DisputeStep) -> (verb: &'static str)
    ensures
        verb@ == step.verb(),
{
    match step {
        DisputeStep::Dispute => "dispute",
        DisputeStep::Resolve => "resolve",
        DisputeStep::ChargeBack => "charge back",
    }
}

} // verus!
