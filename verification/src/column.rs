//! Columns: their types, their options and their definitions.

use crate::name::{Ident, IdentView};
use crate::views::lemma_vec_eq_deep_view;
use vstd::prelude::*;
use vstd::std_specs::cmp::PartialEqSpecImpl;

verus! {

/// An SQL expression, held as its canonical text. Two expressions are the
/// same exactly when their canonical texts are.
#[derive(Debug)]
pub struct Expr {
    pub sql: String,
}

impl DeepView for Expr {
    type V = Seq<char>;

    open spec fn deep_view(&self) -> Seq<char> {
        self.sql@
    }
}

impl View for Expr {
    type V = Seq<char>;

    open spec fn view(&self) -> Seq<char> {
        self.deep_view()
    }
}

impl Clone for Expr {
    fn clone(&self) -> (r: Self)
        ensures
            r@ == self@,
    {
        Expr { sql: self.sql.clone() }
    }
}

impl PartialEq for Expr {
    fn eq(&self, other: &Self) -> (r: bool) {
        self.sql == other.sql
    }
}

impl PartialEqSpecImpl for Expr {
    open spec fn obeys_eq_spec() -> bool {
        true
    }

    open spec fn eq_spec(&self, other: &Self) -> bool {
        self@ == other@
    }
}

impl Expr {
    pub fn new(sql: &str) -> (r: Self)
        ensures
            r@ == sql@,
    {
        Expr { sql: sql.to_owned() }
    }
}

/// An SQL data type, held as its canonical text.
#[derive(Debug)]
pub struct DataType {
    pub sql: String,
}

impl DeepView for DataType {
    type V = Seq<char>;

    open spec fn deep_view(&self) -> Seq<char> {
        self.sql@
    }
}

impl View for DataType {
    type V = Seq<char>;

    open spec fn view(&self) -> Seq<char> {
        self.deep_view()
    }
}

impl Clone for DataType {
    fn clone(&self) -> (r: Self)
        ensures
            r@ == self@,
    {
        DataType { sql: self.sql.clone() }
    }
}

impl PartialEq for DataType {
    fn eq(&self, other: &Self) -> (r: bool) {
        self.sql == other.sql
    }
}

impl PartialEqSpecImpl for DataType {
    open spec fn obeys_eq_spec() -> bool {
        true
    }

    open spec fn eq_spec(&self, other: &Self) -> bool {
        self@ == other@
    }
}

impl DataType {
    pub fn new(sql: &str) -> (r: Self)
        ensures
            r@ == sql@,
    {
        DataType { sql: sql.to_owned() }
    }
}

/// One option of a column definition. The differ acts on `NotNull` and
/// `Default`; every other option is carried along as its text.
#[derive(Debug)]
pub enum ColumnOption {
    NotNull,
    Default(Expr),
    Other(String),
}

pub enum ColumnOptionView {
    NotNull,
    Default(Seq<char>),
    Other(Seq<char>),
}

impl DeepView for ColumnOption {
    type V = ColumnOptionView;

    open spec fn deep_view(&self) -> ColumnOptionView {
        match self {
            ColumnOption::NotNull => ColumnOptionView::NotNull,
            ColumnOption::Default(e) => ColumnOptionView::Default(e@),
            ColumnOption::Other(s) => ColumnOptionView::Other(s@),
        }
    }
}

impl View for ColumnOption {
    type V = ColumnOptionView;

    open spec fn view(&self) -> ColumnOptionView {
        self.deep_view()
    }
}

impl Clone for ColumnOption {
    fn clone(&self) -> (r: Self)
        ensures
            r@ == self@,
    {
        match self {
            ColumnOption::NotNull => ColumnOption::NotNull,
            ColumnOption::Default(e) => ColumnOption::Default(e.clone()),
            ColumnOption::Other(s) => ColumnOption::Other(s.clone()),
        }
    }
}

impl PartialEq for ColumnOption {
    fn eq(&self, other: &Self) -> (r: bool) {
        match (self, other) {
            (ColumnOption::NotNull, ColumnOption::NotNull) => true,
            (ColumnOption::Default(a), ColumnOption::Default(b)) => a == b,
            (ColumnOption::Other(a), ColumnOption::Other(b)) => *a == *b,
            _ => false,
        }
    }
}

impl PartialEqSpecImpl for ColumnOption {
    open spec fn obeys_eq_spec() -> bool {
        true
    }

    open spec fn eq_spec(&self, other: &Self) -> bool {
        self@ == other@
    }
}

/// A column of a table: its name, its type, and its options in the order
/// they were declared.
#[derive(Debug)]
pub struct ColumnDef {
    pub name: Ident,
    pub data_type: DataType,
    pub options: Vec<ColumnOption>,
}

pub struct ColumnDefView {
    pub name: IdentView,
    pub data_type: Seq<char>,
    pub options: Seq<ColumnOptionView>,
}

impl ColumnDefView {
    /// A column is well formed when it has at most one `NOT NULL` and at
    /// most one default among its options.
    pub open spec fn well_formed(self) -> bool {
        &&& forall|i: int, j: int|
            0 <= i < j < self.options.len() ==> !(#[trigger] self.options[i] is NotNull
                && #[trigger] self.options[j] is NotNull)
        &&& forall|i: int, j: int|
            0 <= i < j < self.options.len() ==> !(#[trigger] self.options[i] is Default
                && #[trigger] self.options[j] is Default)
    }
}

impl DeepView for ColumnDef {
    type V = ColumnDefView;

    open spec fn deep_view(&self) -> ColumnDefView {
        ColumnDefView {
            name: self.name@,
            data_type: self.data_type@,
            options: self.options.deep_view(),
        }
    }
}

impl View for ColumnDef {
    type V = ColumnDefView;

    open spec fn view(&self) -> ColumnDefView {
        self.deep_view()
    }
}

impl Clone for ColumnDef {
    fn clone(&self) -> (r: Self)
        ensures
            r@ == self@,
    {
        let options = self.options.clone();
        assert(options.deep_view() =~= self.options.deep_view());
        ColumnDef { name: self.name.clone(), data_type: self.data_type.clone(), options }
    }
}

impl PartialEq for ColumnDef {
    fn eq(&self, other: &Self) -> (r: bool) {
        proof {
            lemma_vec_eq_deep_view(self.options, other.options);
        }
        self.name == other.name && self.data_type == other.data_type && self.options
            == other.options
    }
}

impl PartialEqSpecImpl for ColumnDef {
    open spec fn obeys_eq_spec() -> bool {
        true
    }

    open spec fn eq_spec(&self, other: &Self) -> bool {
        self@ == other@
    }
}

impl ColumnDef {
    /// Whether the column is well formed.
    pub fn is_well_formed(&self) -> (r: bool)
        ensures
            r == self@.well_formed(),
    {
        let ghost options = self.options.deep_view();
        let mut not_null = false;
        let mut default = false;
        let mut i: usize = 0;
        while i < self.options.len()
            invariant
                i <= self.options.len(),
                options == self.options.deep_view(),
                not_null == (exists|k: int| 0 <= k < i && #[trigger] options[k] is NotNull),
                default == (exists|k: int| 0 <= k < i && #[trigger] options[k] is Default),
                forall|a: int, b: int|
                    0 <= a < b < i ==> !(#[trigger] options[a] is NotNull
                        && #[trigger] options[b] is NotNull),
                forall|a: int, b: int|
                    0 <= a < b < i ==> !(#[trigger] options[a] is Default
                        && #[trigger] options[b] is Default),
            decreases self.options.len() - i,
        {
            assert(options[i as int] == self.options[i as int]@);
            match &self.options[i] {
                ColumnOption::NotNull => {
                    if not_null {
                        return false;
                    }
                    not_null = true;
                },
                ColumnOption::Default(_) => {
                    if default {
                        return false;
                    }
                    default = true;
                },
                ColumnOption::Other(_) => {},
            }
            i += 1;
        }
        true
    }
}

} // verus!
