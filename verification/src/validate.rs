//! What the commands ask of their inputs before anything is stored.

use crate::error::{
    failure, ErrorKind, LedgerError, LedgerErrorView, EMPTY_CLASS, EMPTY_NAME, EMPTY_OPERATOR,
    EMPTY_REASON,
};
use vstd::prelude::*;

verus! {

/// What is wrong with a student's name and class, if anything: the name is
/// looked at first.
pub open spec fn student_fault(name: Seq<char>, class: Seq<char>) -> Option<LedgerErrorView> {
    if name.len() == 0 {
        Some(failure(ErrorKind::Validation, EMPTY_NAME@))
    } else if class.len() == 0 {
        Some(failure(ErrorKind::Validation, EMPTY_CLASS@))
    } else {
        None
    }
}

/// What is wrong with the reason and operator of an award, if anything: the
/// reason is looked at first.
pub open spec fn award_fault(reason: Seq<char>, operator: Seq<char>) -> Option<LedgerErrorView> {
    if reason.len() == 0 {
        Some(failure(ErrorKind::Validation, EMPTY_REASON@))
    } else if operator.len() == 0 {
        Some(failure(ErrorKind::Validation, EMPTY_OPERATOR@))
    } else {
        None
    }
}

/// Accepts a student's name and class where neither is empty.
pub fn check_student(name: &str, class: &str) -> (checked: Result<(), LedgerError>)
    ensures
        match checked {
            Ok(_) => student_fault(name@, class@) is None,
            Err(e) => student_fault(name@, class@) == Some(e@),
        },
{
    if name.is_empty() {
        Err(LedgerError::new(ErrorKind::Validation, EMPTY_NAME))
    } else if class.is_empty() {
        Err(LedgerError::new(ErrorKind::Validation, EMPTY_CLASS))
    } else {
        Ok(())
    }
}

/// Accepts the reason and operator of an award where neither is empty.
pub fn check_award(reason: &str, operator: &str) -> (checked: Result<(), LedgerError>)
    ensures
        match checked {
            Ok(_) => award_fault(reason@, operator@) is None,
            Err(e) => award_fault(reason@, operator@) == Some(e@),
        },
{
    if reason.is_empty() {
        Err(LedgerError::new(ErrorKind::Validation, EMPTY_REASON))
    } else if operator.is_empty() {
        Err(LedgerError::new(ErrorKind::Validation, EMPTY_OPERATOR))
    } else {
        Ok(())
    }
}

} // verus!
