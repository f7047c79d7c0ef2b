//! What holds of every plan.

use crate::altertable::{
    failing, identity_of, matchable, matching, object_removals, plan_of, planned, target_ops,
    well_formed, WrappedView,
};
use crate::column::{ColumnDefView, ColumnOptionView};
use crate::column_diff::{column_ops, first_default, is_default, settings, unsettings};
use crate::constraint::{same_identity, TableConstraintView};
use crate::constraint_diff::{
    adding, conflicting, conflicts, constraint_ops, counterpart, identifies, removing,
};
use crate::error::MigrationErrorView;
use crate::index::IndexDefView;
use crate::name::IdentView;
use crate::plan::{AlterOpView, OperationView};
use crate::search::{
    find_first, lemma_filter_map_is_image, lemma_filter_map_nothing, lemma_find_first_absent,
    lemma_find_first_at, lemma_find_first_found, lemma_find_first_none, lemma_flat_map_nothing,
};
use crate::table::TableDefView;
use crate::table_diff::{altering, column_changes, column_removals, columns_ops, named, table_ops};
use vstd::prelude::*;

verus! {

/// A well-formed column compared with itself needs no operation.
pub proof fn lemma_column_unchanged(c: ColumnDefView)
    requires
        c.well_formed(),
    ensures
        column_ops(c, c) == Seq::<AlterOpView>::empty(),
{
    let set = settings(c.options, c.name);
    let unset = unsettings(c.options, c.name);
    assert forall|k: int| 0 <= k < c.options.len() implies set(#[trigger] c.options[k])
        is None && unset(c.options[k]) is None by {
        if c.options[k] is Default {
            lemma_find_first_at(c.options, is_default(), k);
        }
    }
    lemma_filter_map_nothing(c.options, set);
    lemma_filter_map_nothing(c.options, unset);
}

/// A well-formed table compared with itself needs no statement.
pub proof fn lemma_table_unchanged(t: TableDefView)
    requires
        t.well_formed(),
    ensures
        table_ops(t, t) == Ok::<Seq<OperationView>, MigrationErrorView>(Seq::empty()),
{
    let cols = t.columns;
    let cons = t.constraints;
    assert forall|k: int| 0 <= k < cols.len() implies column_removals(cols)(#[trigger] cols[k])
        is None && column_changes(cols)(cols[k]) == Seq::<AlterOpView>::empty() by {
        lemma_find_first_at(cols, named(cols[k].name), k);
        lemma_column_unchanged(cols[k]);
    }
    lemma_filter_map_nothing(cols, column_removals(cols));
    lemma_flat_map_nothing(cols, column_changes(cols));
    assert(columns_ops(cols, cols) =~= Seq::<AlterOpView>::empty());

    assert forall|k: int| 0 <= k < cons.len() implies !conflicting(cons)(#[trigger] cons[k])
        && adding(cons)(cons[k]) is None && removing(cons)(cons[k]) is None by {
        if same_identity(cons[k], cons[k]) {
            lemma_find_first_at(cons, identifies(cons[k]), k);
        } else {
            lemma_find_first_absent(cons, identifies(cons[k]));
        }
    }
    lemma_find_first_absent(cons, conflicting(cons));
    lemma_filter_map_nothing(cons, adding(cons));
    lemma_filter_map_nothing(cons, removing(cons));
    assert(constraint_ops(cons, cons) == Ok::<Seq<AlterOpView>, MigrationErrorView>(
        Seq::empty(),
    )) by {
        assert(cons.filter_map(adding(cons)) + cons.filter_map(removing(cons)) =~= Seq::<
            AlterOpView,
        >::empty());
    }
    assert(table_ops(t, t)->Ok_0 =~= Seq::<OperationView>::empty());
}

/// Idempotence: the plan that leads from a well-formed list of objects to
/// itself is empty.
pub proof fn lemma_plan_idempotent(objects: Seq<WrappedView>)
    requires
        well_formed(objects),
    ensures
        plan_of(objects, objects) == Ok::<Seq<OperationView>, MigrationErrorView>(Seq::empty()),
{
    assert forall|k: int| 0 <= k < objects.len() implies !failing(objects)(#[trigger] objects[k])
        && planned(objects)(objects[k]) == Seq::<OperationView>::empty() && object_removals(
        objects,
    )(objects[k]) is None by {
        lemma_find_first_at(objects, matching(objects[k]), k);
        if let WrappedView::CreateTable(t) = objects[k] {
            lemma_table_unchanged(t);
        }
    }
    lemma_find_first_absent(objects, failing(objects));
    lemma_flat_map_nothing(objects, planned(objects));
    lemma_filter_map_nothing(objects, object_removals(objects));
    assert(plan_of(objects, objects)->Ok_0 =~= Seq::<OperationView>::empty());
}

/// From nothing to one table, the plan creates that table; from one table
/// to nothing, it drops it with what depends on it.
pub proof fn lemma_create_and_drop(t: TableDefView)
    ensures
        plan_of(Seq::empty(), seq![WrappedView::CreateTable(t)]) == Ok::<
            Seq<OperationView>,
            MigrationErrorView,
        >(seq![OperationView::CreateTable(t)]),
        plan_of(seq![WrappedView::CreateTable(t)], Seq::empty()) == Ok::<
            Seq<OperationView>,
            MigrationErrorView,
        >(seq![OperationView::DropTable { name: t.name, cascade: true }]),
{
    let none = Seq::<WrappedView>::empty();
    let one = seq![WrappedView::CreateTable(t)];
    assert(one.drop_last() =~= none);
    assert(one.last() == WrappedView::CreateTable(t));

    lemma_find_first_absent(none, matching(one[0]));
    assert(target_ops(none, one[0]) == Ok::<Seq<OperationView>, MigrationErrorView>(
        seq![OperationView::CreateTable(t)],
    ));
    lemma_find_first_absent(one, failing(none));
    none.lemma_flat_map_push(planned(none), one[0]);
    lemma_flat_map_nothing(none, planned(none));
    assert(none.push(one[0]) =~= one);
    assert(none.filter_map(object_removals(one)) =~= Seq::<OperationView>::empty());
    assert(plan_of(none, one)->Ok_0 =~= seq![OperationView::CreateTable(t)]);

    lemma_find_first_absent(none, failing(one));
    lemma_find_first_absent(none, matching(one[0]));
    lemma_flat_map_nothing(none, planned(one));
    assert(none.filter_map(object_removals(none)) =~= Seq::<OperationView>::empty());
    assert(one.filter_map(object_removals(none)) =~= seq![
        OperationView::DropTable { name: t.name, cascade: true },
    ]);
    assert(plan_of(one, none)->Ok_0 =~= seq![
        OperationView::DropTable { name: t.name, cascade: true },
    ]);
}

/// The first target that is refused decides: the plan is its refusal.
pub proof fn lemma_first_refusal(froms: Seq<WrappedView>, tos: Seq<WrappedView>, i: int)
    requires
        0 <= i < tos.len(),
        target_ops(froms, tos[i]) is Err,
        forall|k: int| 0 <= k < i ==> target_ops(froms, #[trigger] tos[k]) is Ok,
    ensures
        plan_of(froms, tos) == Err::<Seq<OperationView>, MigrationErrorView>(
            target_ops(froms, tos[i])->Err_0,
        ),
{
    lemma_find_first_at(tos, failing(froms), i);
}

/// A plan with a target that is refused fails, whatever the other objects
/// are.
pub proof fn lemma_refusal_fails(froms: Seq<WrappedView>, tos: Seq<WrappedView>, i: int)
    requires
        0 <= i < tos.len(),
        target_ops(froms, tos[i]) is Err,
    ensures
        plan_of(froms, tos) is Err,
{
    if find_first(tos, failing(froms)) is None {
        lemma_find_first_none(tos, failing(froms));
        assert(!failing(froms)(tos[i]));
    }
}

/// A target without a name makes the plan fail, whatever the current
/// objects are; where no target before it is refused, the plan fails with
/// `UnnamedObject` of that target.
pub proof fn lemma_unnamed_target(froms: Seq<WrappedView>, tos: Seq<WrappedView>, i: int)
    requires
        0 <= i < tos.len(),
        identity_of(tos[i]).name is None,
    ensures
        plan_of(froms, tos) is Err,
        (forall|k: int| 0 <= k < i ==> target_ops(froms, #[trigger] tos[k]) is Ok) ==> plan_of(
            froms,
            tos,
        ) == Err::<Seq<OperationView>, MigrationErrorView>(
            MigrationErrorView::UnnamedObject(tos[i]),
        ),
{
    lemma_refusal_fails(froms, tos, i);
    if forall|k: int| 0 <= k < i ==> target_ops(froms, #[trigger] tos[k]) is Ok {
        lemma_first_refusal(froms, tos, i);
    }
}

/// A target index whose name a current index has under another definition
/// makes the plan fail; where no target before it is refused, the plan
/// fails with `CannotModifyIndex` of the two.
pub proof fn lemma_index_change_refused(
    froms: Seq<WrappedView>,
    tos: Seq<WrappedView>,
    i: int,
    from: IndexDefView,
    to: IndexDefView,
)
    requires
        0 <= i < tos.len(),
        tos[i] == WrappedView::CreateIndex(to),
        find_first(froms, matching(tos[i])) == Some(WrappedView::CreateIndex(from)),
        from != to,
    ensures
        plan_of(froms, tos) is Err,
        (forall|k: int| 0 <= k < i ==> target_ops(froms, #[trigger] tos[k]) is Ok) ==> plan_of(
            froms,
            tos,
        ) == Err::<Seq<OperationView>, MigrationErrorView>(
            MigrationErrorView::CannotModifyIndex(from, to),
        ),
{
    let j = lemma_find_first_found(froms, matching(tos[i]));
    assert(matchable(froms[j], tos[i]));
    assert(identity_of(tos[i]).name is Some);
    lemma_refusal_fails(froms, tos, i);
    if forall|k: int| 0 <= k < i ==> target_ops(froms, #[trigger] tos[k]) is Ok {
        lemma_first_refusal(froms, tos, i);
    }
}

/// A target constraint whose counterpart is defined otherwise makes the
/// table differ fail with `CannotModifyTableConstraint`: no statement is
/// given.
pub proof fn lemma_constraint_change_refused(from: TableDefView, to: TableDefView, i: int)
    requires
        from.name == to.name,
        0 <= i < to.constraints.len(),
        conflicts(from.constraints, to.constraints[i]),
    ensures
        table_ops(from, to) is Err,
        table_ops(from, to)->Err_0 is CannotModifyTableConstraint,
        (forall|k: int| 0 <= k < i ==> !conflicts(from.constraints, #[trigger] to.constraints[k]))
            ==> table_ops(from, to) == Err::<Seq<OperationView>, MigrationErrorView>(
            MigrationErrorView::CannotModifyTableConstraint(
                counterpart(from.constraints, to.constraints[i])->0,
                to.constraints[i],
            ),
        ),
{
    let p = conflicting(from.constraints);
    if find_first(to.constraints, p) is None {
        lemma_find_first_none(to.constraints, p);
        assert(!p(to.constraints[i]));
    }
    if forall|k: int| 0 <= k < i ==> !conflicts(from.constraints, #[trigger] to.constraints[k]) {
        lemma_find_first_at(to.constraints, p, i);
    }
}

/// A default is replaced, never dropped and set again: where the target
/// column has a default, no operation drops the default.
pub proof fn lemma_default_never_dropped(from: ColumnDefView, to: ColumnDefView, i: int)
    requires
        first_default(to.options) is Some,
        0 <= i < column_ops(from, to).len(),
    ensures
        !(column_ops(from, to)[i] is DropDefault),
{
    let set = settings(from.options, to.name);
    let unset = unsettings(to.options, to.name);
    let first = to.options.filter_map(set);
    let second = from.options.filter_map(unset);
    if i < first.len() {
        lemma_filter_map_is_image(to.options, set, i);
    } else {
        lemma_filter_map_is_image(from.options, unset, i - first.len());
    }
}

/// Where both columns have one default and the two differ, the default is
/// replaced in one operation.
pub proof fn lemma_default_replaced(
    from: ColumnDefView,
    to: ColumnDefView,
    a: Seq<char>,
    b: Seq<char>,
)
    requires
        from.options == seq![ColumnOptionView::Default(a)],
        to.options == seq![ColumnOptionView::Default(b)],
        a != b,
    ensures
        column_ops(from, to) == seq![AlterOpView::SetDefault { column: to.name, value: b }],
{
    let set = settings(from.options, to.name);
    let unset = unsettings(to.options, to.name);
    let none = Seq::<ColumnOptionView>::empty();
    lemma_find_first_at(from.options, is_default(), 0);
    lemma_find_first_at(to.options, is_default(), 0);
    assert(to.options.drop_last() =~= none);
    assert(from.options.drop_last() =~= none);
    assert(none.filter_map(set) =~= Seq::<AlterOpView>::empty());
    assert(none.filter_map(unset) =~= Seq::<AlterOpView>::empty());
    assert(to.options.filter_map(set) =~= seq![
        AlterOpView::SetDefault { column: to.name, value: b },
    ]);
    assert(from.options.filter_map(unset) =~= Seq::<AlterOpView>::empty());
    assert(column_ops(from, to) =~= seq![AlterOpView::SetDefault { column: to.name, value: b }]);
}

/// A column that only the target has is added as declared; a column that
/// only the table has is dropped with what depends on it.
pub proof fn lemma_column_added_and_dropped(name: Seq<IdentView>, c: ColumnDefView)
    ensures
        table_ops(
            TableDefView { name, columns: Seq::empty(), constraints: Seq::empty() },
            TableDefView { name, columns: seq![c], constraints: Seq::empty() },
        ) == Ok::<Seq<OperationView>, MigrationErrorView>(
            seq![OperationView::AlterTable { name, op: AlterOpView::AddColumn(c) }],
        ),
        table_ops(
            TableDefView { name, columns: seq![c], constraints: Seq::empty() },
            TableDefView { name, columns: Seq::empty(), constraints: Seq::empty() },
        ) == Ok::<Seq<OperationView>, MigrationErrorView>(
            seq![
                OperationView::AlterTable {
                    name,
                    op: AlterOpView::DropColumn { name: c.name, cascade: true },
                },
            ],
        ),
{
    let none = Seq::<ColumnDefView>::empty();
    let one = seq![c];
    let no_constraints = Seq::<TableConstraintView>::empty();
    let add = AlterOpView::AddColumn(c);
    let drop = AlterOpView::DropColumn { name: c.name, cascade: true };
    lemma_find_first_absent(no_constraints, conflicting(no_constraints));
    assert(no_constraints.filter_map(adding(no_constraints)) =~= Seq::<AlterOpView>::empty());
    assert(no_constraints.filter_map(removing(no_constraints)) =~= Seq::<AlterOpView>::empty());
    assert(constraint_ops(no_constraints, no_constraints)->Ok_0 =~= Seq::<AlterOpView>::empty());
    assert(one.drop_last() =~= none);
    lemma_find_first_absent(none, named(c.name));

    assert(none.filter_map(column_removals(one)) =~= Seq::<AlterOpView>::empty());
    none.lemma_flat_map_push(column_changes(none), c);
    lemma_flat_map_nothing(none, column_changes(none));
    assert(none.push(c) =~= one);
    assert(columns_ops(none, one) =~= seq![add]);
    assert((seq![add] + Seq::<AlterOpView>::empty()).map_values(altering(name))
        =~= seq![OperationView::AlterTable { name, op: add }]);

    assert(none.filter_map(column_removals(none)) =~= Seq::<AlterOpView>::empty());
    assert(one.filter_map(column_removals(none)) =~= seq![drop]);
    lemma_flat_map_nothing(none, column_changes(one));
    assert(columns_ops(one, none) =~= seq![drop]);
    assert((seq![drop] + Seq::<AlterOpView>::empty()).map_values(
        altering(name),
    ) =~= seq![OperationView::AlterTable { name, op: drop }]);
}

/// A primary key declared for a table that has none is added.
pub proof fn lemma_primary_key_added(pk: TableConstraintView)
    requires
        pk is PrimaryKey,
    ensures
        constraint_ops(Seq::empty(), seq![pk]) == Ok::<Seq<AlterOpView>, MigrationErrorView>(
            seq![AlterOpView::AddConstraint(pk)],
        ),
{
    let none = Seq::<TableConstraintView>::empty();
    let one = seq![pk];
    lemma_find_first_absent(one, conflicting(none));
    assert(one.drop_last() =~= none);
    assert(none.filter_map(adding(none)) =~= Seq::<AlterOpView>::empty());
    assert(one.filter_map(adding(none)) =~= seq![AlterOpView::AddConstraint(pk)]);
    assert(none.filter_map(removing(one)) =~= Seq::<AlterOpView>::empty());
    assert(constraint_ops(none, one)->Ok_0 =~= seq![AlterOpView::AddConstraint(pk)]);
}

/// Extensions are never dropped: no operation of a plan removes one, and
/// from extensions alone to nothing the plan is empty.
pub proof fn lemma_extensions_kept(froms: Seq<WrappedView>)
    requires
        forall|i: int| 0 <= i < froms.len() ==> #[trigger] froms[i] is CreateExtension,
    ensures
        plan_of(froms, Seq::empty()) == Ok::<Seq<OperationView>, MigrationErrorView>(Seq::empty()),
{
    let none = Seq::<WrappedView>::empty();
    lemma_find_first_absent(none, failing(froms));
    lemma_flat_map_nothing(none, planned(froms));
    lemma_filter_map_nothing(froms, object_removals(none));
    assert(plan_of(froms, none)->Ok_0 =~= Seq::<OperationView>::empty());
}

/// A target index that a current index of its name equals needs no
/// operation.
pub proof fn lemma_index_unchanged(froms: Seq<WrappedView>, index: IndexDefView)
    requires
        find_first(froms, matching(WrappedView::CreateIndex(index))) == Some(
            WrappedView::CreateIndex(index),
        ),
    ensures
        target_ops(froms, WrappedView::CreateIndex(index)) == Ok::<
            Seq<OperationView>,
            MigrationErrorView,
        >(Seq::empty()),
{
    let t = WrappedView::CreateIndex(index);
    let j = lemma_find_first_found(froms, matching(t));
    assert(matchable(froms[j], t));
}

} // verus!
