//! The ways in which planning a migration can fail.

use crate::altertable::{Wrapped, WrappedView};
use crate::constraint::{TableConstraint, TableConstraintView};
use crate::index::{IndexDef, IndexDefView};
use crate::table::{TableDef, TableDefView};
use vstd::prelude::*;
use vstd::std_specs::cmp::PartialEqSpecImpl;

verus! {

/// The common error type for migration errors.
#[non_exhaustive]
#[derive(Debug)]
pub enum MigrationError {
    /// An index of this name exists with another definition.
    CannotModifyIndex(IndexDef, IndexDef),
    /// A constraint of this kind and name exists with another definition.
    CannotModifyTableConstraint(TableConstraint, TableConstraint),
    /// Two tables of different names were handed to the table differ.
    TablesNotMatching(TableDef, TableDef),
    /// Connecting to the database or running a statement failed.
    ExecSqlError(String),
    /// The SQL text could not be parsed.
    SqlParseError(String),
    /// An SQL type could not be parsed.
    SqlParseTypeError(String),
    /// The statement is of a kind that cannot be declared.
    UnsupportedStatementType(String),
    /// A declared object has no name.
    UnnamedObject(Wrapped),
}

pub enum MigrationErrorView {
    CannotModifyIndex(IndexDefView, IndexDefView),
    CannotModifyTableConstraint(TableConstraintView, TableConstraintView),
    TablesNotMatching(TableDefView, TableDefView),
    ExecSqlError(Seq<char>),
    SqlParseError(Seq<char>),
    SqlParseTypeError(Seq<char>),
    UnsupportedStatementType(Seq<char>),
    UnnamedObject(WrappedView),
}

impl DeepView for MigrationError {
    type V = MigrationErrorView;

    open spec fn deep_view(&self) -> MigrationErrorView {
        match self {
            MigrationError::CannotModifyIndex(a, b) => MigrationErrorView::CannotModifyIndex(
                a@,
                b@,
            ),
            MigrationError::CannotModifyTableConstraint(a, b) =>
                MigrationErrorView::CannotModifyTableConstraint(a@, b@),
            MigrationError::TablesNotMatching(a, b) => MigrationErrorView::TablesNotMatching(
                a@,
                b@,
            ),
            MigrationError::ExecSqlError(s) => MigrationErrorView::ExecSqlError(s@),
            MigrationError::SqlParseError(s) => MigrationErrorView::SqlParseError(s@),
            MigrationError::SqlParseTypeError(s) => MigrationErrorView::SqlParseTypeError(s@),
            MigrationError::UnsupportedStatementType(s) =>
                MigrationErrorView::UnsupportedStatementType(s@),
            MigrationError::UnnamedObject(w) => MigrationErrorView::UnnamedObject(w@),
        }
    }
}

impl View for MigrationError {
    type V = MigrationErrorView;

    open spec fn view(&self) -> MigrationErrorView {
        self.deep_view()
    }
}

impl Clone for MigrationError {
    fn clone(&self) -> (r: Self)
        ensures
            r@ == self@,
    {
        match self {
            MigrationError::CannotModifyIndex(a, b) => MigrationError::CannotModifyIndex(
                a.clone(),
                b.clone(),
            ),
            MigrationError::CannotModifyTableConstraint(a, b) =>
                MigrationError::CannotModifyTableConstraint(a.clone(), b.clone()),
            MigrationError::TablesNotMatching(a, b) => MigrationError::TablesNotMatching(
                a.clone(),
                b.clone(),
            ),
            MigrationError::ExecSqlError(s) => MigrationError::ExecSqlError(s.clone()),
            MigrationError::SqlParseError(s) => MigrationError::SqlParseError(s.clone()),
            MigrationError::SqlParseTypeError(s) => MigrationError::SqlParseTypeError(s.clone()),
            MigrationError::UnsupportedStatementType(s) =>
                MigrationError::UnsupportedStatementType(s.clone()),
            MigrationError::UnnamedObject(w) => MigrationError::UnnamedObject(w.clone()),
        }
    }
}

impl PartialEq for MigrationError {
    fn eq(&self, other: &Self) -> (r: bool) {
        match (self, other) {
            (
                MigrationError::CannotModifyIndex(a1, b1),
                MigrationError::CannotModifyIndex(a2, b2),
            ) => *a1 == *a2 && *b1 == *b2,
            (
                MigrationError::CannotModifyTableConstraint(a1, b1),
                MigrationError::CannotModifyTableConstraint(a2, b2),
            ) => *a1 == *a2 && *b1 == *b2,
            (
                MigrationError::TablesNotMatching(a1, b1),
                MigrationError::TablesNotMatching(a2, b2),
            ) => *a1 == *a2 && *b1 == *b2,
            (MigrationError::ExecSqlError(a), MigrationError::ExecSqlError(b)) => *a == *b,
            (MigrationError::SqlParseError(a), MigrationError::SqlParseError(b)) => *a == *b,
            (MigrationError::SqlParseTypeError(a), MigrationError::SqlParseTypeError(b)) => *a
                == *b,
            (
                MigrationError::UnsupportedStatementType(a),
                MigrationError::UnsupportedStatementType(b),
            ) => *a == *b,
            (MigrationError::UnnamedObject(a), MigrationError::UnnamedObject(b)) => *a == *b,
            _ => false,
        }
    }
}

impl PartialEqSpecImpl for MigrationError {
    open spec fn obeys_eq_spec() -> bool {
        true
    }

    open spec fn eq_spec(&self, other: &Self) -> bool {
        self@ == other@
    }
}

} // verus!
