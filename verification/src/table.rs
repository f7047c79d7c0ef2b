//! Table definitions.

use crate::column::{ColumnDef, ColumnDefView};
use crate::constraint::{
    identity_equal, same_identity, ConstraintKind, TableConstraint, TableConstraintView,
};
use crate::name::{IdentView, ObjectName};
use crate::views::lemma_vec_eq_deep_view;
use vstd::prelude::*;
use vstd::std_specs::cmp::PartialEqSpecImpl;

verus! {

/// A table: its qualified name, its columns in declaration order, and its
/// constraints.
#[derive(Debug)]
pub struct TableDef {
    pub name: ObjectName,
    pub columns: Vec<ColumnDef>,
    pub constraints: Vec<TableConstraint>,
}

pub struct TableDefView {
    pub name: Seq<IdentView>,
    pub columns: Seq<ColumnDefView>,
    pub constraints: Seq<TableConstraintView>,
}

impl TableDefView {
    /// A table is well formed when its columns are, no two of them share a
    /// name, it has at most one primary key, and no two of its foreign
    /// keys, unique constraints or checks stand for the same thing.
    pub open spec fn well_formed(self) -> bool {
        &&& forall|i: int|
            0 <= i < self.columns.len() ==> (#[trigger] self.columns[i]).well_formed()
        &&& forall|i: int, j: int|
            0 <= i < j < self.columns.len() ==> (#[trigger] self.columns[i]).name
                != (#[trigger] self.columns[j]).name
        &&& forall|i: int, j: int|
            0 <= i < j < self.constraints.len() ==> !(#[trigger] self.constraints[i] is PrimaryKey
                && #[trigger] self.constraints[j] is PrimaryKey)
        &&& forall|i: int, j: int|
            0 <= i < j < self.constraints.len() ==> !same_identity(
                #[trigger] self.constraints[i],
                #[trigger] self.constraints[j],
            )
    }
}

impl DeepView for TableDef {
    type V = TableDefView;

    open spec fn deep_view(&self) -> TableDefView {
        TableDefView {
            name: self.name@,
            columns: self.columns.deep_view(),
            constraints: self.constraints.deep_view(),
        }
    }
}

impl View for TableDef {
    type V = TableDefView;

    open spec fn view(&self) -> TableDefView {
        self.deep_view()
    }
}

impl Clone for TableDef {
    fn clone(&self) -> (r: Self)
        ensures
            r@ == self@,
    {
        let columns = self.columns.clone();
        let constraints = self.constraints.clone();
        assert(columns.deep_view() =~= self.columns.deep_view());
        assert(constraints.deep_view() =~= self.constraints.deep_view());
        TableDef { name: self.name.clone(), columns, constraints }
    }
}

impl PartialEq for TableDef {
    fn eq(&self, other: &Self) -> (r: bool) {
        proof {
            lemma_vec_eq_deep_view(self.columns, other.columns);
            lemma_vec_eq_deep_view(self.constraints, other.constraints);
        }
        self.name == other.name && self.columns == other.columns && self.constraints
            == other.constraints
    }
}

impl PartialEqSpecImpl for TableDef {
    open spec fn obeys_eq_spec() -> bool {
        true
    }

    open spec fn eq_spec(&self, other: &Self) -> bool {
        self@ == other@
    }
}

impl TableDef {
    /// Whether the table is well formed.
    pub fn is_well_formed(&self) -> (r: bool)
        ensures
            r == self@.well_formed(),
    {
        let ghost columns = self.columns.deep_view();
        let ghost constraints = self.constraints.deep_view();
        let mut i: usize = 0;
        while i < self.columns.len()
            invariant
                i <= self.columns.len(),
                columns == self.columns.deep_view(),
                forall|k: int| 0 <= k < i ==> (#[trigger] columns[k]).well_formed(),
                forall|a: int, b: int|
                    0 <= a < b < i ==> (#[trigger] columns[a]).name != (#[trigger] columns[b]).name,
            decreases self.columns.len() - i,
        {
            assert(columns[i as int] == self.columns[i as int]@);
            if !self.columns[i].is_well_formed() {
                return false;
            }
            let mut j: usize = 0;
            while j < i
                invariant
                    j <= i < self.columns.len(),
                    columns == self.columns.deep_view(),
                    forall|a: int|
                        0 <= a < j ==> (#[trigger] columns[a]).name != columns[i as int].name,
                decreases i - j,
            {
                assert(columns[j as int] == self.columns[j as int]@);
                assert(columns[i as int] == self.columns[i as int]@);
                if self.columns[j].name == self.columns[i].name {
                    return false;
                }
                j += 1;
            }
            i += 1;
        }
        let mut primary = false;
        let mut i: usize = 0;
        while i < self.constraints.len()
            invariant
                i <= self.constraints.len(),
                constraints == self.constraints.deep_view(),
                self@.columns == columns,
                self@.constraints == constraints,
                forall|k: int| 0 <= k < columns.len() ==> (#[trigger] columns[k]).well_formed(),
                forall|a: int, b: int|
                    0 <= a < b < columns.len() ==> (#[trigger] columns[a]).name
                        != (#[trigger] columns[b]).name,
                primary == (exists|k: int| 0 <= k < i && #[trigger] constraints[k] is PrimaryKey),
                forall|a: int, b: int|
                    0 <= a < b < i ==> !(#[trigger] constraints[a] is PrimaryKey
                        && #[trigger] constraints[b] is PrimaryKey),
                forall|a: int, b: int|
                    0 <= a < b < i ==> !same_identity(
                        #[trigger] constraints[a],
                        #[trigger] constraints[b],
                    ),
            decreases self.constraints.len() - i,
        {
            assert(constraints[i as int] == self.constraints[i as int]@);
            if self.constraints[i].kind() == ConstraintKind::PrimaryKey {
                if primary {
                    return false;
                }
                primary = true;
            }
            let mut j: usize = 0;
            while j < i
                invariant
                    j <= i < self.constraints.len(),
                    constraints == self.constraints.deep_view(),
                    forall|a: int|
                        0 <= a < j ==> !same_identity(
                            #[trigger] constraints[a],
                            constraints[i as int],
                        ),
                decreases i - j,
            {
                assert(constraints[j as int] == self.constraints[j as int]@);
                assert(constraints[i as int] == self.constraints[i as int]@);
                if identity_equal(&self.constraints[j], &self.constraints[i]) {
                    return false;
                }
                j += 1;
            }
            i += 1;
        }
        true
    }
}

} // verus!
