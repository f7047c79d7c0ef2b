//! The declared schema: the statements that say what the database should
//! hold.

use crate::altertable::{from_to, plan_of, Wrapped, WrappedView};
use crate::error::{MigrationError, MigrationErrorView};
use crate::index::{IndexDef, IndexDefView};
use crate::name::{Ident, IdentView};
use crate::plan::{Operation, OperationView};
use crate::results::{all_or_first_failure, deep_results, gather};
use crate::table::{TableDef, TableDefView};
use crate::views::deep_result;
use vstd::prelude::*;
use vstd::std_specs::cmp::PartialEqSpecImpl;

verus! {

/// A statement of a schema text. Only the three kinds that declare a
/// catalog object are told apart; any other statement is held as its text.
#[derive(Debug)]
pub enum Statement {
    CreateTable(TableDef),
    CreateIndex(IndexDef),
    CreateExtension { name: Ident },
    Other(String),
}

pub enum StatementView {
    CreateTable(TableDefView),
    CreateIndex(IndexDefView),
    CreateExtension { name: IdentView },
    Other(Seq<char>),
}

impl DeepView for Statement {
    type V = StatementView;

    open spec fn deep_view(&self) -> StatementView {
        match self {
            Statement::CreateTable(t) => StatementView::CreateTable(t@),
            Statement::CreateIndex(i) => StatementView::CreateIndex(i@),
            Statement::CreateExtension { name } => StatementView::CreateExtension { name: name@ },
            Statement::Other(sql) => StatementView::Other(sql@),
        }
    }
}

impl View for Statement {
    type V = StatementView;

    open spec fn view(&self) -> StatementView {
        self.deep_view()
    }
}

impl Clone for Statement {
    fn clone(&self) -> (r: Self)
        ensures
            r@ == self@,
    {
        match self {
            Statement::CreateTable(t) => Statement::CreateTable(t.clone()),
            Statement::CreateIndex(i) => Statement::CreateIndex(i.clone()),
            Statement::CreateExtension { name } => Statement::CreateExtension {
                name: name.clone(),
            },
            Statement::Other(sql) => Statement::Other(sql.clone()),
        }
    }
}

impl PartialEq for Statement {
    fn eq(&self, other: &Self) -> (r: bool) {
        match (self, other) {
            (Statement::CreateTable(a), Statement::CreateTable(b)) => *a == *b,
            (Statement::CreateIndex(a), Statement::CreateIndex(b)) => *a == *b,
            (Statement::CreateExtension { name: a }, Statement::CreateExtension { name: b }) => *a
                == *b,
            (Statement::Other(a), Statement::Other(b)) => *a == *b,
            _ => false,
        }
    }
}

impl PartialEqSpecImpl for Statement {
    open spec fn obeys_eq_spec() -> bool {
        true
    }

    open spec fn eq_spec(&self, other: &Self) -> bool {
        self@ == other@
    }
}

/// The catalog object that a statement declares. `CREATE TABLE`, `CREATE
/// INDEX` and `CREATE EXTENSION` declare one; any other statement is
/// refused with its text.
pub open spec fn object_of(s: StatementView) -> Result<WrappedView, MigrationErrorView> {
    match s {
        StatementView::CreateTable(t) => Ok(WrappedView::CreateTable(t)),
        StatementView::CreateIndex(i) => Ok(WrappedView::CreateIndex(i)),
        StatementView::CreateExtension { name } => Ok(WrappedView::CreateExtension { name }),
        StatementView::Other(sql) => Err(MigrationErrorView::UnsupportedStatementType(sql)),
    }
}

pub open spec fn declaring() -> spec_fn(StatementView) -> Result<WrappedView, MigrationErrorView> {
    |s: StatementView| object_of(s)
}

/// The objects that the statements declare, in their order; or the refusal
/// of the first statement that declares none.
pub open spec fn objects_of(statements: Seq<StatementView>) -> Result<
    Seq<WrappedView>,
    MigrationErrorView,
> {
    all_or_first_failure(statements.map_values(declaring()))
}

/// The plan that leads from the current objects to what the statements
/// declare; or the refusal of a statement, which comes before any refusal
/// of the planner.
pub open spec fn migration_of(current: Seq<WrappedView>, statements: Seq<StatementView>) -> Result<
    Seq<OperationView>,
    MigrationErrorView,
> {
    match objects_of(statements) {
        Ok(target) => plan_of(current, target),
        Err(e) => Err(e),
    }
}

impl Wrapped {
    /// The catalog object that a statement declares.
    pub fn try_from(s: Statement) -> (r: Result<Wrapped, MigrationError>)
        ensures
            deep_result(r) == object_of(s@),
    {
        match s {
            Statement::CreateTable(t) => Ok(Wrapped::CreateTable(t)),
            Statement::CreateIndex(i) => Ok(Wrapped::CreateIndex(i)),
            Statement::CreateExtension { name } => Ok(Wrapped::CreateExtension { name }),
            Statement::Other(sql) => Err(MigrationError::UnsupportedStatementType(sql)),
        }
    }
}

/// The catalog objects that the statements of a schema declare.
pub fn declared_objects(statements: Vec<Statement>) -> (r: Result<Vec<Wrapped>, MigrationError>)
    ensures
        deep_result(r) == objects_of(statements.deep_view()),
{
    let ghost all = statements.deep_view();
    let mut read: Vec<Result<Wrapped, MigrationError>> = Vec::new();
    for s in iter: statements.into_iter()
        invariant
            iter.seq() == statements@,
            all == statements.deep_view(),
            read.len() == iter.index(),
            read@.map_values(deep_results::<Wrapped, MigrationError>()) == all.take(
                iter.index() as int,
            ).map_values(declaring()),
    {
        let ghost before = read@;
        let ghost i = iter.index() as int;
        assert(all[i] == s@);
        read.push(Wrapped::try_from(s));
        assert forall|k: int| 0 <= k < i + 1 implies read@.map_values(
            deep_results::<Wrapped, MigrationError>(),
        )[k] == all.take(i + 1).map_values(declaring())[k] by {
            if k < i {
                assert(before.map_values(deep_results::<Wrapped, MigrationError>())[k] == all.take(
                    i,
                ).map_values(declaring())[k]);
            }
        }
        assert(read@.map_values(deep_results::<Wrapped, MigrationError>()) =~= all.take(
            i + 1,
        ).map_values(declaring()));
    }
    proof {
        assert(all.take(all.len() as int) =~= all);
    }
    gather(read)
}

/// Plans the migration of a database that holds the objects `current` to
/// the schema that the statements declare.
pub fn generate_migrations(current: Vec<Wrapped>, statements: Vec<Statement>) -> (r: Result<
    Vec<Operation>,
    MigrationError,
>)
    ensures
        deep_result(r) == migration_of(current.deep_view(), statements.deep_view()),
{
    match declared_objects(statements) {
        Ok(target) => from_to(current, target),
        Err(e) => Err(e),
    }
}

} // verus!
