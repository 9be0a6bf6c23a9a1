//! The one error that every command returns.

use vstd::prelude::*;
use vstd::string::StringExecFns;

verus! {

/// What went wrong, by kind.
#[derive(Clone, Copy, Debug, PartialEq, Eq, Structural)]
pub enum ErrorKind {
    /// An input that must not be empty was empty.
    Validation,
    /// No row has the id that was asked for.
    NotFound,
    /// A point record names a student that does not exist.
    ForeignKeyViolation,
    /// The storage engine failed.
    Storage,
    /// The ledger transaction could not be completed; nothing of it remains.
    TransactionFailure,
    /// The command is declared and has no implementation yet.
    NotImplemented,
}

/// The text of the error for an empty student name.
pub const EMPTY_NAME: &'static str = "name must not be empty";

/// The text of the error for an empty class.
pub const EMPTY_CLASS: &'static str = "class must not be empty";

/// The text of the error for an empty reason.
pub const EMPTY_REASON: &'static str = "reason must not be empty";

/// The text of the error for an empty operator.
pub const EMPTY_OPERATOR: &'static str = "operator must not be empty";

/// The text of the error for an update of a student that does not exist.
pub const NO_SUCH_STUDENT: &'static str = "no student has this id";

/// The text of the error for a point record of a student that does not exist.
pub const UNKNOWN_STUDENT: &'static str = "point record refers to a student that does not exist";

/// The text of the error for a table whose ids are used up.
pub const IDS_EXHAUSTED: &'static str = "no id is left for a new row";

/// The text of the error for a total that a 64-bit integer cannot hold.
pub const TOTAL_OUT_OF_RANGE: &'static str = "total points would leave the range of a 64-bit integer";

/// The text of the error of a command that has no implementation yet.
pub const NOT_IMPLEMENTED: &'static str = "not yet implemented";

/// An error of a command: its kind, and the cause in words.
#[derive(Debug, PartialEq, Eq)]
pub struct LedgerError {
    pub kind: ErrorKind,
    pub message: String,
}

/// What a `LedgerError` holds, as plain values.
pub struct LedgerErrorView {
    pub kind: ErrorKind,
    pub message: Seq<char>,
}

impl View for LedgerError {
    type V = LedgerErrorView;

    open spec fn view(&self) -> LedgerErrorView {
        LedgerErrorView { kind: self.kind, message: self.message@ }
    }
}

impl Clone for LedgerError {
    fn clone(&self) -> (copy: LedgerError)
        ensures
            copy == *self,
    {
        LedgerError { kind: self.kind, message: self.message.clone() }
    }
}

/// The error of the given kind and message.
pub open spec fn failure(kind: ErrorKind, message: Seq<char>) -> LedgerErrorView {
    LedgerErrorView { kind, message }
}

impl LedgerError {
    /// An error of the given kind with `message` as its text.
    pub fn new(kind: ErrorKind, message: &str) -> (e: LedgerError)
        ensures
            e@ == failure(kind, message@),
    {
        LedgerError { kind, message: String::from_str(message) }
    }

    /// An error of the given kind whose text is `context` followed by `cause`.
    pub fn with_cause(kind: ErrorKind, context: &str, cause: &str) -> (e: LedgerError)
        ensures
            e@ == failure(kind, context@ + cause@),
    {
        let mut message = String::from_str(context);
        message.append(cause);
        LedgerError { kind, message }
    }

    /// The text of the error, as it is shown to the user.
    pub fn to_text(&self) -> (text: String)
        ensures
            text@ == self@.message,
    {
        self.message.clone()
    }
}

} // verus!
