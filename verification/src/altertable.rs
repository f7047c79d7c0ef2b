//! Catalog objects, and the plan that leads from one list of them to
//! another.

use crate::error::{MigrationError, MigrationErrorView};
use crate::index::{IndexDef, IndexDefView};
use crate::name::{Ident, IdentView, ObjectName};
use crate::plan::{Operation, OperationView};
use crate::search::{find_first, lemma_find_first_absent, lemma_find_first_at};
use crate::table::{TableDef, TableDefView};
use crate::table_diff::{from_to_table, table_ops};
use crate::views::{deep_result, lemma_push_deep_view};
use vstd::prelude::*;
use vstd::std_specs::cmp::PartialEqSpecImpl;

verus! {

/// A catalog object that the planner keeps track of.
#[derive(Debug)]
pub enum Wrapped {
    CreateTable(TableDef),
    CreateIndex(IndexDef),
    CreateExtension { name: Ident },
}

pub enum WrappedView {
    CreateTable(TableDefView),
    CreateIndex(IndexDefView),
    CreateExtension { name: IdentView },
}

impl DeepView for Wrapped {
    type V = WrappedView;

    open spec fn deep_view(&self) -> WrappedView {
        match self {
            Wrapped::CreateTable(t) => WrappedView::CreateTable(t@),
            Wrapped::CreateIndex(i) => WrappedView::CreateIndex(i@),
            Wrapped::CreateExtension { name } => WrappedView::CreateExtension { name: name@ },
        }
    }
}

impl View for Wrapped {
    type V = WrappedView;

    open spec fn view(&self) -> WrappedView {
        self.deep_view()
    }
}

impl Clone for Wrapped {
    fn clone(&self) -> (r: Self)
        ensures
            r@ == self@,
    {
        match self {
            Wrapped::CreateTable(t) => Wrapped::CreateTable(t.clone()),
            Wrapped::CreateIndex(i) => Wrapped::CreateIndex(i.clone()),
            Wrapped::CreateExtension { name } => Wrapped::CreateExtension { name: name.clone() },
        }
    }
}

impl PartialEq for Wrapped {
    fn eq(&self, other: &Self) -> (r: bool) {
        match (self, other) {
            (Wrapped::CreateTable(a), Wrapped::CreateTable(b)) => *a == *b,
            (Wrapped::CreateIndex(a), Wrapped::CreateIndex(b)) => *a == *b,
            (Wrapped::CreateExtension { name: a }, Wrapped::CreateExtension { name: b }) => *a
                == *b,
            _ => false,
        }
    }
}

impl PartialEqSpecImpl for Wrapped {
    open spec fn obeys_eq_spec() -> bool {
        true
    }

    open spec fn eq_spec(&self, other: &Self) -> bool {
        self@ == other@
    }
}

/// The kind of a catalog object.
#[derive(Clone, Copy, Debug, PartialEq, Eq, Structural)]
pub enum ObjectKind {
    Table,
    Index,
    Extension,
}

/// What a catalog object is known by: its kind and its name. An object
/// without a name is known by nothing and matches no object.
#[derive(Debug)]
pub struct Identity {
    pub kind: ObjectKind,
    pub name: Option<ObjectName>,
}

pub struct IdentityView {
    pub kind: ObjectKind,
    pub name: Option<Seq<IdentView>>,
}

impl DeepView for Identity {
    type V = IdentityView;

    open spec fn deep_view(&self) -> IdentityView {
        IdentityView { kind: self.kind, name: self.name.deep_view() }
    }
}

impl View for Identity {
    type V = IdentityView;

    open spec fn view(&self) -> IdentityView {
        self.deep_view()
    }
}

impl Clone for Identity {
    fn clone(&self) -> (r: Self)
        ensures
            r@ == self@,
    {
        let name = match &self.name {
            Some(n) => Some(n.clone()),
            None => None,
        };
        Identity { kind: self.kind, name }
    }
}

impl PartialEq for Identity {
    fn eq(&self, other: &Self) -> (r: bool) {
        let same_name = match (&self.name, &other.name) {
            (Some(a), Some(b)) => *a == *b,
            (None, None) => true,
            _ => false,
        };
        self.kind == other.kind && same_name
    }
}

impl PartialEqSpecImpl for Identity {
    open spec fn obeys_eq_spec() -> bool {
        true
    }

    open spec fn eq_spec(&self, other: &Self) -> bool {
        self@ == other@
    }
}

/// The identity of an object. An extension is named by its one identifier.
pub open spec fn identity_of(w: WrappedView) -> IdentityView {
    match w {
        WrappedView::CreateTable(t) => IdentityView { kind: ObjectKind::Table, name: Some(t.name) },
        WrappedView::CreateIndex(i) => IdentityView { kind: ObjectKind::Index, name: i.name },
        WrappedView::CreateExtension { name } => IdentityView {
            kind: ObjectKind::Extension,
            name: Some(seq![name]),
        },
    }
}

/// Two objects match: both are named, and kind and name are the same.
pub open spec fn matchable(a: WrappedView, b: WrappedView) -> bool {
    identity_of(a).name is Some && identity_of(a) == identity_of(b)
}

pub open spec fn matching(w: WrappedView) -> spec_fn(WrappedView) -> bool {
    |other: WrappedView| matchable(other, w)
}

/// A list of objects is well formed when every object has a name, every
/// table is well formed, and no two objects match.
pub open spec fn well_formed(objects: Seq<WrappedView>) -> bool {
    &&& forall|i: int|
        0 <= i < objects.len() ==> identity_of(#[trigger] objects[i]).name is Some
    &&& forall|i: int|
        0 <= i < objects.len() ==> (#[trigger] objects[i] matches WrappedView::CreateTable(t)
            ==> t.well_formed())
    &&& forall|i: int, j: int|
        0 <= i < j < objects.len() ==> !matchable(#[trigger] objects[i], #[trigger] objects[j])
}

/// Whether the list of objects is well formed.
pub fn is_well_formed(objects: &Vec<Wrapped>) -> (r: bool)
    ensures
        r == well_formed(objects.deep_view()),
{
    let ghost all = objects.deep_view();
    let mut i: usize = 0;
    while i < objects.len()
        invariant
            i <= objects.len(),
            all == objects.deep_view(),
            forall|k: int| 0 <= k < i ==> identity_of(#[trigger] all[k]).name is Some,
            forall|k: int|
                0 <= k < i ==> (#[trigger] all[k] matches WrappedView::CreateTable(t)
                    ==> t.well_formed()),
            forall|a: int, b: int|
                0 <= a < b < i ==> !matchable(#[trigger] all[a], #[trigger] all[b]),
        decreases objects.len() - i,
    {
        assert(all[i as int] == objects[i as int]@);
        let object = &objects[i];
        if object.name().is_none() {
            return false;
        }
        if let Wrapped::CreateTable(table) = object {
            if !table.is_well_formed() {
                return false;
            }
        }
        let mut j: usize = 0;
        while j < i
            invariant
                j <= i < objects.len(),
                all == objects.deep_view(),
                object@ == all[i as int],
                forall|a: int| 0 <= a < j ==> !matchable(#[trigger] all[a], all[i as int]),
            decreases i - j,
        {
            assert(all[j as int] == objects[j as int]@);
            if objects[j].name_and_type_equals(object) {
                return false;
            }
            j += 1;
        }
        i += 1;
    }
    true
}

/// What one target object asks for, given the current objects: an unnamed
/// one is refused; a table is created, or altered where the first current
/// object that matches it differs; an index is created, and refused where
/// one of its name is defined otherwise; an extension is created where
/// there is none of its name.
pub open spec fn target_ops(froms: Seq<WrappedView>, t: WrappedView) -> Result<
    Seq<OperationView>,
    MigrationErrorView,
> {
    if identity_of(t).name is None {
        Err(MigrationErrorView::UnnamedObject(t))
    } else {
        match (t, find_first(froms, matching(t))) {
            (WrappedView::CreateTable(to), Some(WrappedView::CreateTable(from))) => table_ops(
                from,
                to,
            ),
            (WrappedView::CreateTable(to), _) => Ok(seq![OperationView::CreateTable(to)]),
            (WrappedView::CreateIndex(to), Some(WrappedView::CreateIndex(from))) => if from
                != to {
                Err(MigrationErrorView::CannotModifyIndex(from, to))
            } else {
                Ok(Seq::empty())
            },
            (WrappedView::CreateIndex(to), _) => Ok(seq![OperationView::CreateIndex(to)]),
            (WrappedView::CreateExtension { name }, None) => Ok(
                seq![OperationView::CreateExtension { name }],
            ),
            (WrappedView::CreateExtension { .. }, Some(_)) => Ok(Seq::empty()),
        }
    }
}

pub open spec fn failing(froms: Seq<WrappedView>) -> spec_fn(WrappedView) -> bool {
    |t: WrappedView| target_ops(froms, t) is Err
}

pub open spec fn planned(froms: Seq<WrappedView>) -> spec_fn(WrappedView) -> Seq<OperationView> {
    |t: WrappedView|
        match target_ops(froms, t) {
            Ok(ops) => ops,
            Err(_) => Seq::empty(),
        }
}

/// What one current object asks for, given the target objects: a table
/// that no target matches is dropped, and so is a named index. Extensions
/// stay, and an unnamed index cannot be referred to.
pub open spec fn object_removal(tos: Seq<WrappedView>, f: WrappedView) -> Option<OperationView> {
    if find_first(tos, matching(f)) is Some {
        None
    } else {
        match f {
            WrappedView::CreateTable(t) => Some(
                OperationView::DropTable { name: t.name, cascade: true },
            ),
            WrappedView::CreateIndex(i) => match i.name {
                Some(name) => Some(OperationView::DropIndex { name, cascade: true }),
                None => None,
            },
            WrappedView::CreateExtension { .. } => None,
        }
    }
}

pub open spec fn object_removals(tos: Seq<WrappedView>) -> spec_fn(WrappedView) -> Option<
    OperationView,
> {
    |f: WrappedView| object_removal(tos, f)
}

/// The plan that leads from the current objects `froms` to the target
/// objects `tos`: what each target asks for, in the order of `tos`, then
/// the removals, in the order of `froms`. Where a target is refused, the
/// plan is the refusal of the first such target, and nothing else.
pub open spec fn plan_of(froms: Seq<WrappedView>, tos: Seq<WrappedView>) -> Result<
    Seq<OperationView>,
    MigrationErrorView,
> {
    match find_first(tos, failing(froms)) {
        Some(t) => Err(target_ops(froms, t)->Err_0),
        None => Ok(tos.flat_map(planned(froms)) + froms.filter_map(object_removals(tos))),
    }
}

impl Wrapped {
    /// The kind of the object.
    pub fn kind(&self) -> (r: ObjectKind)
        ensures
            r == identity_of(self@).kind,
    {
        match self {
            Wrapped::CreateTable(_) => ObjectKind::Table,
            Wrapped::CreateIndex(_) => ObjectKind::Index,
            Wrapped::CreateExtension { .. } => ObjectKind::Extension,
        }
    }

    /// The name of the object, where it has one.
    pub fn name(&self) -> (r: Option<ObjectName>)
        ensures
            r.deep_view() == identity_of(self@).name,
    {
        match self {
            Wrapped::CreateTable(t) => Some(t.name.clone()),
            Wrapped::CreateIndex(i) => match &i.name {
                Some(n) => Some(n.clone()),
                None => None,
            },
            Wrapped::CreateExtension { name } => {
                let parts = vec![name.clone()];
                assert(parts.deep_view() =~= seq![name@]);
                Some(ObjectName { parts })
            },
        }
    }

    /// What the object is known by.
    pub fn identity(&self) -> (r: Identity)
        ensures
            r@ == identity_of(self@),
    {
        Identity { kind: self.kind(), name: self.name() }
    }

    /// Whether the two objects match: both named, of one kind and one name.
    pub fn name_and_type_equals(&self, other: &Wrapped) -> (r: bool)
        ensures
            r == matchable(self@, other@),
    {
        match (self, other) {
            (Wrapped::CreateTable(a), Wrapped::CreateTable(b)) => a.name == b.name,
            (Wrapped::CreateIndex(a), Wrapped::CreateIndex(b)) => match (&a.name, &b.name) {
                (Some(x), Some(y)) => *x == *y,
                _ => false,
            },
            (Wrapped::CreateExtension { name: a }, Wrapped::CreateExtension { name: b }) => {
                assert(seq![a@][0] == a@);
                assert(seq![b@][0] == b@);
                *a == *b
            },
            _ => false,
        }
    }
}

/// The place in `side` of the first object that matches `w`.
pub fn find_object(side: &Vec<Wrapped>, w: &Wrapped) -> (r: Option<usize>)
    ensures
        match r {
            Some(j) => j < side.len() && find_first(side.deep_view(), matching(w@)) == Some(
                side[j as int]@,
            ),
            None => find_first(side.deep_view(), matching(w@)) is None,
        },
{
    let ghost s = side.deep_view();
    let mut j: usize = 0;
    while j < side.len()
        invariant
            j <= side.len(),
            s == side.deep_view(),
            forall|k: int| 0 <= k < j ==> !matchable(#[trigger] s[k], w@),
        decreases side.len() - j,
    {
        assert(s[j as int] == side[j as int]@);
        if side[j].name_and_type_equals(w) {
            proof {
                lemma_find_first_at(s, matching(w@), j as int);
            }
            return Some(j);
        }
        j += 1;
    }
    proof {
        lemma_find_first_absent(s, matching(w@));
    }
    None
}

/// What one target object asks for, given the current objects.
pub fn plan_target(froms: &Vec<Wrapped>, t: &Wrapped) -> (r: Result<Vec<Operation>, MigrationError>)
    ensures
        deep_result(r) == target_ops(froms.deep_view(), t@),
{
    if t.name().is_none() {
        return Err(MigrationError::UnnamedObject(t.clone()));
    }
    let matched = find_object(froms, t);
    match t {
        Wrapped::CreateTable(to) => {
            let from = match matched {
                Some(j) => match &froms[j] {
                    Wrapped::CreateTable(table) => Some(table),
                    _ => None,
                },
                None => None,
            };
            match from {
                Some(table) => from_to_table(table, to),
                None => {
                    let r = vec![Operation::CreateTable(to.clone())];
                    assert(r.deep_view() =~= seq![OperationView::CreateTable(to@)]);
                    Ok(r)
                },
            }
        },
        Wrapped::CreateIndex(to) => {
            let from = match matched {
                Some(j) => match &froms[j] {
                    Wrapped::CreateIndex(index) => Some(index),
                    _ => None,
                },
                None => None,
            };
            match from {
                Some(index) => {
                    if *index != *to {
                        Err(MigrationError::CannotModifyIndex(index.clone(), to.clone()))
                    } else {
                        let r: Vec<Operation> = Vec::new();
                        assert(r.deep_view() =~= Seq::empty());
                        Ok(r)
                    }
                },
                None => {
                    let r = vec![Operation::CreateIndex(to.clone())];
                    assert(r.deep_view() =~= seq![OperationView::CreateIndex(to@)]);
                    Ok(r)
                },
            }
        },
        Wrapped::CreateExtension { name } => {
            if matched.is_none() {
                let r = vec![Operation::CreateExtension { name: name.clone() }];
                assert(r.deep_view() =~= seq![OperationView::CreateExtension { name: name@ }]);
                Ok(r)
            } else {
                let r: Vec<Operation> = Vec::new();
                assert(r.deep_view() =~= Seq::empty());
                Ok(r)
            }
        },
    }
}

/// Plans the statements that lead from the current objects to the target
/// objects.
///
/// For each target, in order: a table that matches no current object is
/// created, one that matches is altered as the table differ says; an index
/// or extension that matches none is created. Then, for each current
/// object that no target matches, in order: a table is dropped with what
/// depends on it, and so is a named index; extensions are never dropped.
///
/// Fails, with no statement given, at the first target that has no name
/// (`UnnamedObject`), whose table differ fails, or that is an index which
/// exists under its name with another definition (`CannotModifyIndex`).
pub fn from_to(froms: Vec<Wrapped>, tos: Vec<Wrapped>) -> (r: Result<
    Vec<Operation>,
    MigrationError,
>)
    ensures
        deep_result(r) == plan_of(froms.deep_view(), tos.deep_view()),
{
    let ghost from = froms.deep_view();
    let ghost to = tos.deep_view();
    let mut r: Vec<Operation> = Vec::new();

    let mut i: usize = 0;
    while i < tos.len()
        invariant
            i <= tos.len(),
            from == froms.deep_view(),
            to == tos.deep_view(),
            forall|k: int| 0 <= k < i ==> target_ops(from, #[trigger] to[k]) is Ok,
            r.deep_view() == to.take(i as int).flat_map(planned(from)),
        decreases tos.len() - i,
    {
        let ghost before = r;
        assert(to[i as int] == tos[i as int]@);
        proof {
            to.take(i as int).lemma_flat_map_push(planned(from), to[i as int]);
            assert(to.take(i as int + 1) =~= to.take(i as int).push(to[i as int]));
        }
        match plan_target(&froms, &tos[i]) {
            Ok(mut ops) => {
                let ghost more = ops;
                r.append(&mut ops);
                assert(r.deep_view() =~= before.deep_view() + more.deep_view());
            },
            Err(e) => {
                proof {
                    lemma_find_first_at(to, failing(from), i as int);
                }
                return Err(e);
            },
        }
        assert(r.deep_view() =~= to.take(i as int + 1).flat_map(planned(from)));
        i += 1;
    }
    proof {
        lemma_find_first_absent(to, failing(from));
        assert(to.take(tos.len() as int) =~= to);
    }
    let ghost created = r.deep_view();

    let mut i: usize = 0;
    while i < froms.len()
        invariant
            i <= froms.len(),
            from == froms.deep_view(),
            to == tos.deep_view(),
            r.deep_view() == created + from.take(i as int).filter_map(object_removals(to)),
        decreases froms.len() - i,
    {
        let f = &froms[i];
        let ghost before = r;
        assert(from[i as int] == f@);
        proof {
            from.lemma_filter_map_take_succ(object_removals(to), i as int);
        }
        if find_object(&tos, f).is_none() {
            match f {
                Wrapped::CreateTable(table) => {
                    r.push(Operation::DropTable { name: table.name.clone(), cascade: true });
                    proof {
                        lemma_push_deep_view(before, r, r[r.len() - 1]);
                    }
                },
                Wrapped::CreateIndex(index) => {
                    if let Some(name) = &index.name {
                        r.push(Operation::DropIndex { name: name.clone(), cascade: true });
                        proof {
                            lemma_push_deep_view(before, r, r[r.len() - 1]);
                        }
                    }
                },
                Wrapped::CreateExtension { .. } => {},
            }
        }
        assert(r.deep_view() =~= created + from.take(i as int + 1).filter_map(
            object_removals(to),
        ));
        i += 1;
    }
    proof {
        assert(from.take(froms.len() as int) =~= from);
    }
    Ok(r)
}

} // verus!
