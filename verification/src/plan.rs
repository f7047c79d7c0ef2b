//! The operations a migration plan is made of.

use crate::column::{ColumnDef, ColumnDefView, Expr};
use crate::constraint::{TableConstraint, TableConstraintView};
use crate::index::{IndexDef, IndexDefView};
use crate::name::{Ident, IdentView, ObjectName};
use crate::table::{TableDef, TableDefView};
use vstd::prelude::*;
use vstd::std_specs::cmp::PartialEqSpecImpl;

verus! {

/// One change to an existing table.
#[derive(Debug)]
pub enum AlterOp {
    AddColumn(ColumnDef),
    DropColumn { name: Ident, cascade: bool },
    SetNotNull { column: Ident },
    DropNotNull { column: Ident },
    SetDefault { column: Ident, value: Expr },
    DropDefault { column: Ident },
    AddConstraint(TableConstraint),
    DropConstraint { name: Ident, cascade: bool },
}

pub enum AlterOpView {
    AddColumn(ColumnDefView),
    DropColumn { name: IdentView, cascade: bool },
    SetNotNull { column: IdentView },
    DropNotNull { column: IdentView },
    SetDefault { column: IdentView, value: Seq<char> },
    DropDefault { column: IdentView },
    AddConstraint(TableConstraintView),
    DropConstraint { name: IdentView, cascade: bool },
}

impl DeepView for AlterOp {
    type V = AlterOpView;

    open spec fn deep_view(&self) -> AlterOpView {
        match self {
            AlterOp::AddColumn(c) => AlterOpView::AddColumn(c@),
            AlterOp::DropColumn { name, cascade } => AlterOpView::DropColumn {
                name: name@,
                cascade: *cascade,
            },
            AlterOp::SetNotNull { column } => AlterOpView::SetNotNull { column: column@ },
            AlterOp::DropNotNull { column } => AlterOpView::DropNotNull { column: column@ },
            AlterOp::SetDefault { column, value } => AlterOpView::SetDefault {
                column: column@,
                value: value@,
            },
            AlterOp::DropDefault { column } => AlterOpView::DropDefault { column: column@ },
            AlterOp::AddConstraint(c) => AlterOpView::AddConstraint(c@),
            AlterOp::DropConstraint { name, cascade } => AlterOpView::DropConstraint {
                name: name@,
                cascade: *cascade,
            },
        }
    }
}

impl View for AlterOp {
    type V = AlterOpView;

    open spec fn view(&self) -> AlterOpView {
        self.deep_view()
    }
}

impl Clone for AlterOp {
    fn clone(&self) -> (r: Self)
        ensures
            r@ == self@,
    {
        match self {
            AlterOp::AddColumn(c) => AlterOp::AddColumn(c.clone()),
            AlterOp::DropColumn { name, cascade } => AlterOp::DropColumn {
                name: name.clone(),
                cascade: *cascade,
            },
            AlterOp::SetNotNull { column } => AlterOp::SetNotNull { column: column.clone() },
            AlterOp::DropNotNull { column } => AlterOp::DropNotNull { column: column.clone() },
            AlterOp::SetDefault { column, value } => AlterOp::SetDefault {
                column: column.clone(),
                value: value.clone(),
            },
            AlterOp::DropDefault { column } => AlterOp::DropDefault { column: column.clone() },
            AlterOp::AddConstraint(c) => AlterOp::AddConstraint(c.clone()),
            AlterOp::DropConstraint { name, cascade } => AlterOp::DropConstraint {
                name: name.clone(),
                cascade: *cascade,
            },
        }
    }
}

impl PartialEq for AlterOp {
    fn eq(&self, other: &Self) -> (r: bool) {
        match (self, other) {
            (AlterOp::AddColumn(a), AlterOp::AddColumn(b)) => *a == *b,
            (
                AlterOp::DropColumn { name: n1, cascade: c1 },
                AlterOp::DropColumn { name: n2, cascade: c2 },
            ) => *n1 == *n2 && *c1 == *c2,
            (AlterOp::SetNotNull { column: a }, AlterOp::SetNotNull { column: b }) => *a == *b,
            (AlterOp::DropNotNull { column: a }, AlterOp::DropNotNull { column: b }) => *a == *b,
            (
                AlterOp::SetDefault { column: a, value: v1 },
                AlterOp::SetDefault { column: b, value: v2 },
            ) => *a == *b && *v1 == *v2,
            (AlterOp::DropDefault { column: a }, AlterOp::DropDefault { column: b }) => *a == *b,
            (AlterOp::AddConstraint(a), AlterOp::AddConstraint(b)) => *a == *b,
            (
                AlterOp::DropConstraint { name: n1, cascade: c1 },
                AlterOp::DropConstraint { name: n2, cascade: c2 },
            ) => *n1 == *n2 && *c1 == *c2,
            _ => false,
        }
    }
}

impl PartialEqSpecImpl for AlterOp {
    open spec fn obeys_eq_spec() -> bool {
        true
    }

    open spec fn eq_spec(&self, other: &Self) -> bool {
        self@ == other@
    }
}

/// One statement of a plan. A plan is a list of these, run in order.
#[derive(Debug)]
#[allow(inconsistent_fields)]
pub enum Operation {
    CreateTable(TableDef),
    CreateIndex(IndexDef),
    CreateExtension { name: Ident },
    AlterTable { name: ObjectName, op: AlterOp },
    DropTable { name: ObjectName, cascade: bool },
    DropIndex { name: ObjectName, cascade: bool },
}

#[allow(inconsistent_fields)]
pub enum OperationView {
    CreateTable(TableDefView),
    CreateIndex(IndexDefView),
    CreateExtension { name: IdentView },
    AlterTable { name: Seq<IdentView>, op: AlterOpView },
    DropTable { name: Seq<IdentView>, cascade: bool },
    DropIndex { name: Seq<IdentView>, cascade: bool },
}

impl DeepView for Operation {
    type V = OperationView;

    open spec fn deep_view(&self) -> OperationView {
        match self {
            Operation::CreateTable(t) => OperationView::CreateTable(t@),
            Operation::CreateIndex(i) => OperationView::CreateIndex(i@),
            Operation::CreateExtension { name } => OperationView::CreateExtension { name: name@ },
            Operation::AlterTable { name, op } => OperationView::AlterTable {
                name: name@,
                op: op@,
            },
            Operation::DropTable { name, cascade } => OperationView::DropTable {
                name: name@,
                cascade: *cascade,
            },
            Operation::DropIndex { name, cascade } => OperationView::DropIndex {
                name: name@,
                cascade: *cascade,
            },
        }
    }
}

impl View for Operation {
    type V = OperationView;

    open spec fn view(&self) -> OperationView {
        self.deep_view()
    }
}

impl Clone for Operation {
    fn clone(&self) -> (r: Self)
        ensures
            r@ == self@,
    {
        match self {
            Operation::CreateTable(t) => Operation::CreateTable(t.clone()),
            Operation::CreateIndex(i) => Operation::CreateIndex(i.clone()),
            Operation::CreateExtension { name } => Operation::CreateExtension {
                name: name.clone(),
            },
            Operation::AlterTable { name, op } => Operation::AlterTable {
                name: name.clone(),
                op: op.clone(),
            },
            Operation::DropTable { name, cascade } => Operation::DropTable {
                name: name.clone(),
                cascade: *cascade,
            },
            Operation::DropIndex { name, cascade } => Operation::DropIndex {
                name: name.clone(),
                cascade: *cascade,
            },
        }
    }
}

impl PartialEq for Operation {
    fn eq(&self, other: &Self) -> (r: bool) {
        match (self, other) {
            (Operation::CreateTable(a), Operation::CreateTable(b)) => *a == *b,
            (Operation::CreateIndex(a), Operation::CreateIndex(b)) => *a == *b,
            (Operation::CreateExtension { name: a }, Operation::CreateExtension { name: b }) => *a
                == *b,
            (
                Operation::AlterTable { name: n1, op: o1 },
                Operation::AlterTable { name: n2, op: o2 },
            ) => *n1 == *n2 && *o1 == *o2,
            (
                Operation::DropTable { name: n1, cascade: c1 },
                Operation::DropTable { name: n2, cascade: c2 },
            ) => *n1 == *n2 && *c1 == *c2,
            (
                Operation::DropIndex { name: n1, cascade: c1 },
                Operation::DropIndex { name: n2, cascade: c2 },
            ) => *n1 == *n2 && *c1 == *c2,
            _ => false,
        }
    }
}

impl PartialEqSpecImpl for Operation {
    open spec fn obeys_eq_spec() -> bool {
        true
    }

    open spec fn eq_spec(&self, other: &Self) -> bool {
        self@ == other@
    }
}

} // verus!
