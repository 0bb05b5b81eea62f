//! What an operation reports when it fails.

use crate::sqlite::{error_text, failure_class, failure_of, words_of};
use vstd::prelude::*;

verus! {

/// The three ways in which an operation can fail.
#[derive(Debug, Clone, Copy, PartialEq, Eq, Structural)]
pub enum ErrorKind {
    /// A rule on the data was broken: a missing or negative value, a value of
    /// the wrong type.
    Constraint,
    /// The store could not be reached or did not do what was asked.
    StorageUnavailable,
    /// A step of an atomic unit failed; the whole unit was undone.
    TransactionFailure,
}

/// The variants of a failure of the engine that the library tells apart.
#[derive(Debug, Clone, Copy, PartialEq, Eq, Structural)]
pub enum EngineFailure {
    /// The engine reported that a constraint was violated.
    Constraint,
    /// The engine reported a value of the wrong type.
    TypeMismatch,
    /// The engine reported anything else.
    OtherCode,
    /// A value of the store could not be turned into the type asked for.
    FromSql,
    /// A whole number of the store does not fit the type asked for.
    OutOfRange,
    /// A column holds a value of another type than the one asked for.
    ColumnType,
    /// A value could not be turned into one that the store takes.
    ToSql,
    /// Any other failure.
    Other,
}

/// Whether a failure tells of a broken rule on the data: a constraint or a
/// type mismatch that the engine reported, or a value that could not be
/// converted on its way in or out.
pub open spec fn is_rule(c: EngineFailure) -> bool {
    c is Constraint || c is TypeMismatch || c is FromSql || c is OutOfRange || c is ColumnType || c is ToSql
}

/// Whether a failure tells of a broken rule on the data.
pub fn is_rule_violation(c: EngineFailure) -> (b: bool)
    ensures
        b == is_rule(c),
{
    match c {
        EngineFailure::Constraint => true,
        EngineFailure::TypeMismatch => true,
        EngineFailure::OtherCode => false,
        EngineFailure::FromSql => true,
        EngineFailure::OutOfRange => true,
        EngineFailure::ColumnType => true,
        EngineFailure::ToSql => true,
        EngineFailure::Other => false,
    }
}

/// A failure: its kind, and the words in which it is shown to a host.
#[derive(Debug)]
pub struct StoreError {
    pub kind: ErrorKind,
    pub message: String,
}

/// The kind under which a failure of the engine is reported: any failure
/// inside an atomic unit is a transaction failure; outside one, a broken rule
/// is a constraint error and everything else means that the store is
/// unavailable.
pub open spec fn kind_of_failure(rule_violation: bool, in_unit: bool) -> ErrorKind {
    if in_unit {
        ErrorKind::TransactionFailure
    } else if rule_violation {
        ErrorKind::Constraint
    } else {
        ErrorKind::StorageUnavailable
    }
}

/// `e` is the report of a failure of the engine: its kind is the one under
/// which that failure is reported, and its words are those of the failure.
pub open spec fn reports_engine(e: StoreError, in_unit: bool) -> bool {
    exists|cause: rusqlite::Error|
        e.kind == kind_of_failure(is_rule(#[trigger] failure_of(cause)), in_unit) && e.message@ == words_of(cause)
}

impl StoreError {
    /// The kind under which a failure of the engine is reported.
    pub fn classify(rule_violation: bool, in_unit: bool) -> (kind: ErrorKind)
        ensures
            kind == kind_of_failure(rule_violation, in_unit),
    {
        if in_unit {
            ErrorKind::TransactionFailure
        } else if rule_violation {
            ErrorKind::Constraint
        } else {
            ErrorKind::StorageUnavailable
        }
    }

    /// A constraint error that the library itself raises, before the store is
    /// touched.
    pub fn constraint(message: &str) -> (e: StoreError)
        ensures
            e.kind == ErrorKind::Constraint,
            e.message@ == message@,
    {
        StoreError { kind: ErrorKind::Constraint, message: message.to_owned() }
    }

    /// The report of a failure of the engine, inside an atomic unit or
    /// outside one.
    pub fn from_engine(e: &rusqlite::Error, in_unit: bool) -> (r: StoreError)
        ensures
            r.kind == kind_of_failure(is_rule(failure_of(*e)), in_unit),
            r.message@ == words_of(*e),
            reports_engine(r, in_unit),
            in_unit <==> r.kind == ErrorKind::TransactionFailure,
    {
        let kind = StoreError::classify(is_rule_violation(failure_class(e)), in_unit);
        StoreError { kind, message: error_text(e) }
    }

    /// The answer of the engine as the library reports it: what succeeded
    /// is handed on as it is, and a failure becomes its report.
    pub fn report<T>(answer: Result<T, rusqlite::Error>, in_unit: bool) -> (r: Result<T, StoreError>)
        ensures
            match answer {
                Ok(v) => r == Ok::<T, StoreError>(v),
                Err(cause) => r matches Err(e) && e.kind == kind_of_failure(is_rule(failure_of(cause)), in_unit)
                    && e.message@ == words_of(cause) && reports_engine(e, in_unit) && (in_unit <==> e.kind
                    == ErrorKind::TransactionFailure),
            },
    {
        match answer {
            Ok(v) => Ok(v),
            Err(e) => Err(StoreError::from_engine(&e, in_unit)),
        }
    }

    /// The words in which the failure is shown to a host.
    pub fn to_text(&self) -> (s: String)
        ensures
            s@ == self.message@,
    {
        self.message.clone()
    }
}

} // verus!
