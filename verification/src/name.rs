//! Identifiers and qualified names.

use crate::views::lemma_vec_eq_deep_view;
use vstd::prelude::*;
use vstd::std_specs::cmp::PartialEqSpecImpl;

verus! {

/// An identifier: its text without quotes, and the quote it was written with.
#[derive(Debug)]
pub struct Ident {
    pub value: String,
    pub quote_style: Option<char>,
}

/// What an [`Ident`] stands for in contracts.
pub struct IdentView {
    pub value: Seq<char>,
    pub quote_style: Option<char>,
}

impl DeepView for Ident {
    type V = IdentView;

    open spec fn deep_view(&self) -> IdentView {
        IdentView { value: self.value@, quote_style: self.quote_style }
    }
}

impl View for Ident {
    type V = IdentView;

    open spec fn view(&self) -> IdentView {
        self.deep_view()
    }
}

impl Clone for Ident {
    fn clone(&self) -> (r: Self)
        ensures
            r@ == self@,
    {
        Ident { value: self.value.clone(), quote_style: self.quote_style }
    }
}

impl PartialEq for Ident {
    fn eq(&self, other: &Self) -> (r: bool) {
        self.value == other.value && self.quote_style == other.quote_style
    }
}

impl PartialEqSpecImpl for Ident {
    open spec fn obeys_eq_spec() -> bool {
        true
    }

    open spec fn eq_spec(&self, other: &Self) -> bool {
        self@ == other@
    }
}

impl Ident {
    /// An unquoted identifier.
    pub fn new(value: &str) -> (r: Self)
        ensures
            r@ == (IdentView { value: value@, quote_style: None }),
    {
        Ident { value: value.to_owned(), quote_style: None }
    }

    /// An identifier written between `quote` characters.
    pub fn with_quote(quote: char, value: &str) -> (r: Self)
        ensures
            r@ == (IdentView { value: value@, quote_style: Some(quote) }),
    {
        Ident { value: value.to_owned(), quote_style: Some(quote) }
    }
}

/// A qualified name: one identifier or several, outermost first.
#[derive(Debug)]
pub struct ObjectName {
    pub parts: Vec<Ident>,
}

impl DeepView for ObjectName {
    type V = Seq<IdentView>;

    open spec fn deep_view(&self) -> Seq<IdentView> {
        self.parts.deep_view()
    }
}

impl View for ObjectName {
    type V = Seq<IdentView>;

    open spec fn view(&self) -> Seq<IdentView> {
        self.deep_view()
    }
}

impl Clone for ObjectName {
    fn clone(&self) -> (r: Self)
        ensures
            r@ == self@,
    {
        let parts = self.parts.clone();
        assert(parts.deep_view() =~= self.parts.deep_view());
        ObjectName { parts }
    }
}

impl PartialEq for ObjectName {
    fn eq(&self, other: &Self) -> (r: bool) {
        proof {
            lemma_vec_eq_deep_view(self.parts, other.parts);
        }
        self.parts == other.parts
    }
}

impl PartialEqSpecImpl for ObjectName {
    open spec fn obeys_eq_spec() -> bool {
        true
    }

    open spec fn eq_spec(&self, other: &Self) -> bool {
        self@ == other@
    }
}

} // verus!
