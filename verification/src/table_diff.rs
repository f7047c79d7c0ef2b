//! The table differ: what leads from one definition of a table to another.

use crate::column::{ColumnDef, ColumnDefView};
use crate::column_diff::{column_ops, compare_column};
use crate::constraint_diff::{compare_constraints, constraint_ops};
use crate::error::{MigrationError, MigrationErrorView};
use crate::name::{Ident, IdentView};
use crate::plan::{AlterOp, AlterOpView, Operation, OperationView};
use crate::search::{find_first, lemma_find_first_absent, lemma_find_first_at};
use crate::table::{TableDef, TableDefView};
use crate::views::{deep_result, lemma_push_deep_view};
use vstd::prelude::*;

verus! {

pub open spec fn named(name: IdentView) -> spec_fn(ColumnDefView) -> bool {
    |c: ColumnDefView| c.name == name
}

/// The first column of that name.
pub open spec fn column_named(columns: Seq<ColumnDefView>, name: IdentView) -> Option<
    ColumnDefView,
> {
    find_first(columns, named(name))
}

/// A current column that the target lacks is dropped.
pub open spec fn column_removal(to: Seq<ColumnDefView>, c: ColumnDefView) -> Option<AlterOpView> {
    if column_named(to, c.name) is None {
        Some(AlterOpView::DropColumn { name: c.name, cascade: true })
    } else {
        None
    }
}

pub open spec fn column_removals(to: Seq<ColumnDefView>) -> spec_fn(ColumnDefView) -> Option<
    AlterOpView,
> {
    |c: ColumnDefView| column_removal(to, c)
}

/// A target column that the table lacks is added as it is declared; one
/// that the table has is brought into line by the column differ.
pub open spec fn column_change(from: Seq<ColumnDefView>, c: ColumnDefView) -> Seq<AlterOpView> {
    match column_named(from, c.name) {
        Some(f) => column_ops(f, c),
        None => seq![AlterOpView::AddColumn(c)],
    }
}

pub open spec fn column_changes(from: Seq<ColumnDefView>) -> spec_fn(ColumnDefView) -> Seq<
    AlterOpView,
> {
    |c: ColumnDefView| column_change(from, c)
}

/// The operations that lead from the columns `from` to the columns `to`:
/// the removals in the order of `from`, then additions and changes in the
/// order of `to`.
pub open spec fn columns_ops(from: Seq<ColumnDefView>, to: Seq<ColumnDefView>) -> Seq<
    AlterOpView,
> {
    from.filter_map(column_removals(to)) + to.flat_map(column_changes(from))
}

pub open spec fn altering(name: Seq<IdentView>) -> spec_fn(AlterOpView) -> OperationView {
    |op: AlterOpView| OperationView::AlterTable { name, op }
}

/// The statements that lead from the table `from` to the table `to`: one
/// `ALTER TABLE` for each column operation, then one for each constraint
/// operation. Tables of different names are refused, and so is a
/// constraint that would have to be redefined.
pub open spec fn table_ops(from: TableDefView, to: TableDefView) -> Result<
    Seq<OperationView>,
    MigrationErrorView,
> {
    if from.name != to.name {
        Err(MigrationErrorView::TablesNotMatching(from, to))
    } else {
        match constraint_ops(from.constraints, to.constraints) {
            Err(e) => Err(e),
            Ok(constraints) => Ok(
                (columns_ops(from.columns, to.columns) + constraints).map_values(
                    altering(to.name),
                ),
            ),
        }
    }
}

/// The place of the first column of that name.
pub fn find_column(columns: &Vec<ColumnDef>, name: &Ident) -> (r: Option<usize>)
    ensures
        match r {
            Some(j) => j < columns.len() && column_named(columns.deep_view(), name@) == Some(
                columns[j as int]@,
            ),
            None => column_named(columns.deep_view(), name@) is None,
        },
{
    let ghost s = columns.deep_view();
    let mut j: usize = 0;
    while j < columns.len()
        invariant
            j <= columns.len(),
            s == columns.deep_view(),
            forall|k: int| 0 <= k < j ==> (#[trigger] s[k]).name != name@,
        decreases columns.len() - j,
    {
        assert(s[j as int] == columns[j as int]@);
        if columns[j].name == *name {
            proof {
                lemma_find_first_at(s, named(name@), j as int);
            }
            return Some(j);
        }
        j += 1;
    }
    proof {
        lemma_find_first_absent(s, named(name@));
    }
    None
}

/// Compares the columns of a table as it is with those it should have.
///
/// A column that only the table has is dropped, with what depends on it. A
/// column that only the target has is added as declared. A column that
/// both have is handed to the column differ.
pub fn compare_columns(f: &Vec<ColumnDef>, t: &Vec<ColumnDef>) -> (r: Vec<AlterOp>)
    ensures
        r.deep_view() == columns_ops(f.deep_view(), t.deep_view()),
{
    let ghost from = f.deep_view();
    let ghost to = t.deep_view();
    let mut r: Vec<AlterOp> = Vec::new();

    let mut i: usize = 0;
    while i < f.len()
        invariant
            i <= f.len(),
            from == f.deep_view(),
            to == t.deep_view(),
            r.deep_view() == from.take(i as int).filter_map(column_removals(to)),
        decreases f.len() - i,
    {
        let c = &f[i];
        let ghost before = r;
        assert(from[i as int] == c@);
        proof {
            from.lemma_filter_map_take_succ(column_removals(to), i as int);
        }
        if find_column(t, &c.name).is_none() {
            r.push(AlterOp::DropColumn { name: c.name.clone(), cascade: true });
            proof {
                lemma_push_deep_view(before, r, r[r.len() - 1]);
            }
        }
        assert(r.deep_view() =~= from.take(i as int + 1).filter_map(column_removals(to)));
        i += 1;
    }
    proof {
        assert(from.take(f.len() as int) =~= from);
    }
    let ghost removed = r.deep_view();

    let mut i: usize = 0;
    while i < t.len()
        invariant
            i <= t.len(),
            from == f.deep_view(),
            to == t.deep_view(),
            r.deep_view() == removed + to.take(i as int).flat_map(column_changes(from)),
        decreases t.len() - i,
    {
        let c = &t[i];
        let ghost before = r;
        assert(to[i as int] == c@);
        proof {
            to.take(i as int).lemma_flat_map_push(column_changes(from), to[i as int]);
            assert(to.take(i as int + 1) =~= to.take(i as int).push(to[i as int]));
        }
        match find_column(f, &c.name) {
            Some(j) => {
                let mut ops = compare_column(&f[j], c);
                let ghost changes = ops;
                r.append(&mut ops);
                assert(r.deep_view() =~= before.deep_view() + changes.deep_view());
            },
            None => {
                r.push(AlterOp::AddColumn(c.clone()));
                proof {
                    lemma_push_deep_view(before, r, r[r.len() - 1]);
                }
            },
        }
        assert(r.deep_view() =~= removed + to.take(i as int + 1).flat_map(
            column_changes(from),
        ));
        i += 1;
    }
    proof {
        assert(to.take(t.len() as int) =~= to);
    }
    r
}

/// Compares a table as it is with the table of the same name as it should
/// be, and gives the `ALTER TABLE` statements that lead from one to the
/// other: those for the columns first, then those for the constraints.
///
/// Fails with `TablesNotMatching` where the names differ, and with
/// `CannotModifyTableConstraint` where a constraint would have to be
/// redefined. On failure no statement is given.
pub fn from_to_table(f: &TableDef, t: &TableDef) -> (r: Result<Vec<Operation>, MigrationError>)
    ensures
        deep_result(r) == table_ops(f@, t@),
{
    if f.name != t.name {
        return Err(MigrationError::TablesNotMatching(f.clone(), t.clone()));
    }
    let mut ops = compare_columns(&f.columns, &t.columns);
    let mut constraints = match compare_constraints(&f.constraints, &t.constraints) {
        Ok(c) => c,
        Err(e) => {
            return Err(e);
        },
    };
    let ghost first = ops;
    let ghost second = constraints;
    ops.append(&mut constraints);
    assert(ops.deep_view() =~= first.deep_view() + second.deep_view());

    let ghost all = ops.deep_view();
    let ghost name = t.name@;
    let mut r: Vec<Operation> = Vec::new();
    let mut i: usize = 0;
    while i < ops.len()
        invariant
            i <= ops.len(),
            all == ops.deep_view(),
            name == t.name@,
            r.deep_view() == all.take(i as int).map_values(altering(name)),
        decreases ops.len() - i,
    {
        let ghost before = r;
        assert(all[i as int] == ops[i as int]@);
        r.push(Operation::AlterTable { name: t.name.clone(), op: ops[i].clone() });
        proof {
            lemma_push_deep_view(before, r, r[r.len() - 1]);
        }
        assert(r.deep_view() =~= all.take(i as int + 1).map_values(altering(name)));
        i += 1;
    }
    proof {
        assert(all.take(ops.len() as int) =~= all);
    }
    Ok(r)
}

} // verus!
