//! Table constraints.

use crate::column::Expr;
use crate::name::{Ident, IdentView, ObjectName};
use crate::views::lemma_vec_eq_deep_view;
use vstd::prelude::*;
use vstd::std_specs::cmp::PartialEqSpecImpl;

verus! {

/// A constraint declared on a table. A primary key is known by its
/// presence; foreign keys, unique constraints and checks are known by their
/// kind and their optional name. Any other kind is carried as its text.
#[derive(Debug)]
pub enum TableConstraint {
    PrimaryKey { name: Option<Ident>, columns: Vec<Ident> },
    ForeignKey {
        name: Option<Ident>,
        columns: Vec<Ident>,
        foreign_table: ObjectName,
        referred_columns: Vec<Ident>,
    },
    Unique { name: Option<Ident>, columns: Vec<Ident> },
    Check { name: Option<Ident>, expr: Expr },
    Other(String),
}

pub enum TableConstraintView {
    PrimaryKey { name: Option<IdentView>, columns: Seq<IdentView> },
    ForeignKey {
        name: Option<IdentView>,
        columns: Seq<IdentView>,
        foreign_table: Seq<IdentView>,
        referred_columns: Seq<IdentView>,
    },
    Unique { name: Option<IdentView>, columns: Seq<IdentView> },
    Check { name: Option<IdentView>, expr: Seq<char> },
    Other(Seq<char>),
}

impl DeepView for TableConstraint {
    type V = TableConstraintView;

    open spec fn deep_view(&self) -> TableConstraintView {
        match self {
            TableConstraint::PrimaryKey { name, columns } => TableConstraintView::PrimaryKey {
                name: name.deep_view(),
                columns: columns.deep_view(),
            },
            TableConstraint::ForeignKey { name, columns, foreign_table, referred_columns } =>
                TableConstraintView::ForeignKey {
                    name: name.deep_view(),
                    columns: columns.deep_view(),
                    foreign_table: foreign_table@,
                    referred_columns: referred_columns.deep_view(),
                },
            TableConstraint::Unique { name, columns } => TableConstraintView::Unique {
                name: name.deep_view(),
                columns: columns.deep_view(),
            },
            TableConstraint::Check { name, expr } => TableConstraintView::Check {
                name: name.deep_view(),
                expr: expr@,
            },
            TableConstraint::Other(s) => TableConstraintView::Other(s@),
        }
    }
}

impl View for TableConstraint {
    type V = TableConstraintView;

    open spec fn view(&self) -> TableConstraintView {
        self.deep_view()
    }
}

/// The kind of a table constraint.
#[derive(Clone, Copy, Debug, PartialEq, Eq, Structural)]
pub enum ConstraintKind {
    PrimaryKey,
    ForeignKey,
    Unique,
    Check,
    Other,
}

/// The kind of a constraint.
pub open spec fn kind_of(c: TableConstraintView) -> ConstraintKind {
    match c {
        TableConstraintView::PrimaryKey { .. } => ConstraintKind::PrimaryKey,
        TableConstraintView::ForeignKey { .. } => ConstraintKind::ForeignKey,
        TableConstraintView::Unique { .. } => ConstraintKind::Unique,
        TableConstraintView::Check { .. } => ConstraintKind::Check,
        TableConstraintView::Other(_) => ConstraintKind::Other,
    }
}

/// The name a constraint was declared with, if any.
pub open spec fn name_of(c: TableConstraintView) -> Option<IdentView> {
    match c {
        TableConstraintView::PrimaryKey { name, .. } => name,
        TableConstraintView::ForeignKey { name, .. } => name,
        TableConstraintView::Unique { name, .. } => name,
        TableConstraintView::Check { name, .. } => name,
        TableConstraintView::Other(_) => None,
    }
}

/// Foreign keys, unique constraints and checks are matched by kind and name.
pub open spec fn is_keyed(c: TableConstraintView) -> bool {
    c is ForeignKey || c is Unique || c is Check
}

/// Two constraints stand for the same thing: both are of one matched kind
/// and carry the same optional name. Two unnamed ones of a kind do.
pub open spec fn same_identity(a: TableConstraintView, b: TableConstraintView) -> bool {
    is_keyed(a) && kind_of(a) == kind_of(b) && name_of(a) == name_of(b)
}

impl TableConstraint {
    pub fn kind(&self) -> (r: ConstraintKind)
        ensures
            r == kind_of(self@),
    {
        match self {
            TableConstraint::PrimaryKey { .. } => ConstraintKind::PrimaryKey,
            TableConstraint::ForeignKey { .. } => ConstraintKind::ForeignKey,
            TableConstraint::Unique { .. } => ConstraintKind::Unique,
            TableConstraint::Check { .. } => ConstraintKind::Check,
            TableConstraint::Other(_) => ConstraintKind::Other,
        }
    }

    pub fn name(&self) -> (r: Option<&Ident>)
        ensures
            r.deep_view() == name_of(self@),
    {
        match self {
            TableConstraint::PrimaryKey { name, .. } => name.as_ref(),
            TableConstraint::ForeignKey { name, .. } => name.as_ref(),
            TableConstraint::Unique { name, .. } => name.as_ref(),
            TableConstraint::Check { name, .. } => name.as_ref(),
            TableConstraint::Other(_) => None,
        }
    }
}

/// Whether the two constraints stand for the same thing.
pub fn identity_equal(a: &TableConstraint, b: &TableConstraint) -> (r: bool)
    ensures
        r == same_identity(a@, b@),
{
    let kind = a.kind();
    if kind == ConstraintKind::PrimaryKey || kind == ConstraintKind::Other {
        return false;
    }
    if kind != b.kind() {
        return false;
    }
    match (a.name(), b.name()) {
        (Some(x), Some(y)) => *x == *y,
        (None, None) => true,
        _ => false,
    }
}

/// A copy of a list of identifiers.
pub fn clone_idents(v: &Vec<Ident>) -> (r: Vec<Ident>)
    ensures
        r.deep_view() == v.deep_view(),
{
    let r = v.clone();
    assert(r.deep_view() =~= v.deep_view());
    r
}

/// A copy of an optional identifier.
pub fn clone_opt_ident(v: &Option<Ident>) -> (r: Option<Ident>)
    ensures
        r.deep_view() == v.deep_view(),
{
    match v {
        Some(i) => Some(i.clone()),
        None => None,
    }
}

impl Clone for TableConstraint {
    fn clone(&self) -> (r: Self)
        ensures
            r@ == self@,
    {
        match self {
            TableConstraint::PrimaryKey { name, columns } => TableConstraint::PrimaryKey {
                name: clone_opt_ident(name),
                columns: clone_idents(columns),
            },
            TableConstraint::ForeignKey { name, columns, foreign_table, referred_columns } =>
                TableConstraint::ForeignKey {
                    name: clone_opt_ident(name),
                    columns: clone_idents(columns),
                    foreign_table: foreign_table.clone(),
                    referred_columns: clone_idents(referred_columns),
                },
            TableConstraint::Unique { name, columns } => TableConstraint::Unique {
                name: clone_opt_ident(name),
                columns: clone_idents(columns),
            },
            TableConstraint::Check { name, expr } => TableConstraint::Check {
                name: clone_opt_ident(name),
                expr: expr.clone(),
            },
            TableConstraint::Other(s) => TableConstraint::Other(s.clone()),
        }
    }
}

/// Whether two lists of identifiers are the same.
pub fn same_idents(a: &Vec<Ident>, b: &Vec<Ident>) -> (r: bool)
    ensures
        r == (a.deep_view() == b.deep_view()),
{
    proof {
        lemma_vec_eq_deep_view(*a, *b);
    }
    *a == *b
}

/// Whether two optional identifiers are the same; two absent ones are.
pub fn same_opt_ident(a: &Option<Ident>, b: &Option<Ident>) -> (r: bool)
    ensures
        r == (a.deep_view() == b.deep_view()),
{
    match (a, b) {
        (Some(x), Some(y)) => *x == *y,
        (None, None) => true,
        _ => false,
    }
}

impl PartialEq for TableConstraint {
    fn eq(&self, other: &Self) -> (r: bool) {
        match (self, other) {
            (
                TableConstraint::PrimaryKey { name: n1, columns: c1 },
                TableConstraint::PrimaryKey { name: n2, columns: c2 },
            ) => same_opt_ident(n1, n2) && same_idents(c1, c2),
            (
                TableConstraint::ForeignKey {
                    name: n1,
                    columns: c1,
                    foreign_table: t1,
                    referred_columns: r1,
                },
                TableConstraint::ForeignKey {
                    name: n2,
                    columns: c2,
                    foreign_table: t2,
                    referred_columns: r2,
                },
            ) => same_opt_ident(n1, n2) && same_idents(c1, c2) && *t1 == *t2 && same_idents(
                r1,
                r2,
            ),
            (
                TableConstraint::Unique { name: n1, columns: c1 },
                TableConstraint::Unique { name: n2, columns: c2 },
            ) => same_opt_ident(n1, n2) && same_idents(c1, c2),
            (
                TableConstraint::Check { name: n1, expr: e1 },
                TableConstraint::Check { name: n2, expr: e2 },
            ) => same_opt_ident(n1, n2) && *e1 == *e2,
            (TableConstraint::Other(a), TableConstraint::Other(b)) => *a == *b,
            _ => false,
        }
    }
}

impl PartialEqSpecImpl for TableConstraint {
    open spec fn obeys_eq_spec() -> bool {
        true
    }

    open spec fn eq_spec(&self, other: &Self) -> bool {
        self@ == other@
    }
}

} // verus!
