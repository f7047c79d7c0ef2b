//! Index definitions.

use crate::column::Expr;
use crate::name::{IdentView, ObjectName};
use crate::views::lemma_vec_eq_deep_view;
use vstd::prelude::*;
use vstd::std_specs::cmp::PartialEqSpecImpl;

verus! {

/// One indexed column or expression, with the direction it was declared
/// with: `Some(true)` ascending, `Some(false)` descending, `None` unstated.
#[derive(Debug)]
pub struct IndexColumn {
    pub expr: Expr,
    pub asc: Option<bool>,
}

pub struct IndexColumnView {
    pub expr: Seq<char>,
    pub asc: Option<bool>,
}

impl DeepView for IndexColumn {
    type V = IndexColumnView;

    open spec fn deep_view(&self) -> IndexColumnView {
        IndexColumnView { expr: self.expr@, asc: self.asc }
    }
}

impl View for IndexColumn {
    type V = IndexColumnView;

    open spec fn view(&self) -> IndexColumnView {
        self.deep_view()
    }
}

impl Clone for IndexColumn {
    fn clone(&self) -> (r: Self)
        ensures
            r@ == self@,
    {
        IndexColumn { expr: self.expr.clone(), asc: self.asc }
    }
}

impl PartialEq for IndexColumn {
    fn eq(&self, other: &Self) -> (r: bool) {
        self.expr == other.expr && self.asc == other.asc
    }
}

impl PartialEqSpecImpl for IndexColumn {
    open spec fn obeys_eq_spec() -> bool {
        true
    }

    open spec fn eq_spec(&self, other: &Self) -> bool {
        self@ == other@
    }
}

/// An index: its optional name, the table it belongs to, its access method
/// in canonical text where one was stated, its columns in order, and
/// whether it is unique.
#[derive(Debug)]
pub struct IndexDef {
    pub name: Option<ObjectName>,
    pub table_name: ObjectName,
    pub using: Option<String>,
    pub columns: Vec<IndexColumn>,
    pub unique: bool,
}

pub struct IndexDefView {
    pub name: Option<Seq<IdentView>>,
    pub table_name: Seq<IdentView>,
    pub using: Option<Seq<char>>,
    pub columns: Seq<IndexColumnView>,
    pub unique: bool,
}

impl DeepView for IndexDef {
    type V = IndexDefView;

    open spec fn deep_view(&self) -> IndexDefView {
        IndexDefView {
            name: self.name.deep_view(),
            table_name: self.table_name@,
            using: self.using.deep_view(),
            columns: self.columns.deep_view(),
            unique: self.unique,
        }
    }
}

impl View for IndexDef {
    type V = IndexDefView;

    open spec fn view(&self) -> IndexDefView {
        self.deep_view()
    }
}

impl Clone for IndexDef {
    fn clone(&self) -> (r: Self)
        ensures
            r@ == self@,
    {
        let name = match &self.name {
            Some(n) => Some(n.clone()),
            None => None,
        };
        let using = match &self.using {
            Some(u) => Some(u.clone()),
            None => None,
        };
        let columns = self.columns.clone();
        assert(columns.deep_view() =~= self.columns.deep_view());
        IndexDef { name, table_name: self.table_name.clone(), using, columns, unique: self.unique }
    }
}

impl PartialEq for IndexDef {
    fn eq(&self, other: &Self) -> (r: bool) {
        proof {
            lemma_vec_eq_deep_view(self.columns, other.columns);
        }
        let same_name = match (&self.name, &other.name) {
            (Some(a), Some(b)) => *a == *b,
            (None, None) => true,
            _ => false,
        };
        let same_using = match (&self.using, &other.using) {
            (Some(a), Some(b)) => *a == *b,
            (None, None) => true,
            _ => false,
        };
        same_name && self.table_name == other.table_name && same_using && self.columns
            == other.columns && self.unique == other.unique
    }
}

impl PartialEqSpecImpl for IndexDef {
    open spec fn obeys_eq_spec() -> bool {
        true
    }

    open spec fn eq_spec(&self, other: &Self) -> bool {
        self@ == other@
    }
}

} // verus!
