//! The constraint differ: what leads from one table's constraints to
//! another's.

use crate::constraint::{
    identity_equal, is_keyed, name_of, same_identity, ConstraintKind, TableConstraint,
    TableConstraintView,
};
use crate::error::{MigrationError, MigrationErrorView};
use crate::plan::{AlterOp, AlterOpView};
use crate::search::{find_first, lemma_find_first_absent, lemma_find_first_at};
use crate::views::{deep_result, lemma_push_deep_view};
use vstd::prelude::*;

verus! {

pub open spec fn identifies(c: TableConstraintView) -> spec_fn(TableConstraintView) -> bool {
    |other: TableConstraintView| same_identity(other, c)
}

/// The first constraint of `side` that stands for the same thing as `c`.
pub open spec fn counterpart(side: Seq<TableConstraintView>, c: TableConstraintView) -> Option<
    TableConstraintView,
> {
    find_first(side, identifies(c))
}

pub open spec fn has_primary_key(side: Seq<TableConstraintView>) -> bool {
    exists|i: int| 0 <= i < side.len() && #[trigger] side[i] is PrimaryKey
}

/// A target constraint whose counterpart is defined otherwise: a change the
/// planner does not make.
pub open spec fn conflicts(from: Seq<TableConstraintView>, c: TableConstraintView) -> bool {
    &&& is_keyed(c)
    &&& counterpart(from, c) matches Some(f)
    &&& f != c
}

pub open spec fn conflicting(from: Seq<TableConstraintView>) -> spec_fn(
    TableConstraintView,
) -> bool {
    |c: TableConstraintView| conflicts(from, c)
}

/// What a target constraint asks for: a primary key is added where the
/// table has none, a matched kind where it has no counterpart.
pub open spec fn addition(from: Seq<TableConstraintView>, c: TableConstraintView) -> Option<
    AlterOpView,
> {
    if c is PrimaryKey {
        if has_primary_key(from) {
            None
        } else {
            Some(AlterOpView::AddConstraint(c))
        }
    } else if is_keyed(c) && counterpart(from, c) is None {
        Some(AlterOpView::AddConstraint(c))
    } else {
        None
    }
}

pub open spec fn adding(from: Seq<TableConstraintView>) -> spec_fn(TableConstraintView) -> Option<
    AlterOpView,
> {
    |c: TableConstraintView| addition(from, c)
}

/// What a current constraint asks for: a named one of a matched kind is
/// dropped where the target has no counterpart. Primary keys stay.
pub open spec fn removal(to: Seq<TableConstraintView>, c: TableConstraintView) -> Option<
    AlterOpView,
> {
    if is_keyed(c) && counterpart(to, c) is None {
        match name_of(c) {
            Some(name) => Some(AlterOpView::DropConstraint { name, cascade: true }),
            None => None,
        }
    } else {
        None
    }
}

pub open spec fn removing(to: Seq<TableConstraintView>) -> spec_fn(TableConstraintView) -> Option<
    AlterOpView,
> {
    |c: TableConstraintView| removal(to, c)
}

/// The operations that lead from the constraints `from` to the constraints
/// `to`: the additions in the order of `to`, then the removals in the order
/// of `from`; or the first target constraint, in order, that would have to
/// be redefined.
pub open spec fn constraint_ops(
    from: Seq<TableConstraintView>,
    to: Seq<TableConstraintView>,
) -> Result<Seq<AlterOpView>, MigrationErrorView> {
    match find_first(to, conflicting(from)) {
        Some(c) => Err(
            MigrationErrorView::CannotModifyTableConstraint(counterpart(from, c)->0, c),
        ),
        None => Ok(to.filter_map(adding(from)) + from.filter_map(removing(to))),
    }
}

/// The place in `side` of the counterpart of `c`.
pub fn find_counterpart(side: &Vec<TableConstraint>, c: &TableConstraint) -> (r: Option<usize>)
    ensures
        match r {
            Some(j) => j < side.len() && counterpart(side.deep_view(), c@) == Some(side[j as int]@),
            None => counterpart(side.deep_view(), c@) is None,
        },
{
    let ghost s = side.deep_view();
    let mut j: usize = 0;
    while j < side.len()
        invariant
            j <= side.len(),
            s == side.deep_view(),
            forall|k: int| 0 <= k < j ==> !same_identity(#[trigger] s[k], c@),
        decreases side.len() - j,
    {
        assert(s[j as int] == side[j as int]@);
        if identity_equal(&side[j], c) {
            proof {
                lemma_find_first_at(s, identifies(c@), j as int);
            }
            return Some(j);
        }
        j += 1;
    }
    proof {
        lemma_find_first_absent(s, identifies(c@));
    }
    None
}

/// Whether a primary key is among the constraints.
pub fn contains_primary_key(side: &Vec<TableConstraint>) -> (r: bool)
    ensures
        r == has_primary_key(side.deep_view()),
{
    let ghost s = side.deep_view();
    let mut j: usize = 0;
    while j < side.len()
        invariant
            j <= side.len(),
            s == side.deep_view(),
            forall|k: int| 0 <= k < j ==> !(#[trigger] s[k] is PrimaryKey),
        decreases side.len() - j,
    {
        assert(s[j as int] == side[j as int]@);
        if side[j].kind() == ConstraintKind::PrimaryKey {
            return true;
        }
        j += 1;
    }
    false
}

/// Compares the constraints of a table as it is with those it should have.
///
/// A primary key is added where the target declares one and the table has
/// none; it is never dropped, and an existing one is left as it is. A
/// foreign key, unique constraint or check is added where the table has none
/// of that kind and name, dropped where the target has none, and refused
/// where both have one and the definitions differ.
pub fn compare_constraints(f: &Vec<TableConstraint>, t: &Vec<TableConstraint>) -> (r: Result<
    Vec<AlterOp>,
    MigrationError,
>)
    ensures
        deep_result(r) == constraint_ops(f.deep_view(), t.deep_view()),
{
    let ghost from = f.deep_view();
    let ghost to = t.deep_view();
    let mut r: Vec<AlterOp> = Vec::new();
    let has_pk = contains_primary_key(f);

    let mut i: usize = 0;
    while i < t.len()
        invariant
            i <= t.len(),
            from == f.deep_view(),
            to == t.deep_view(),
            has_pk == has_primary_key(from),
            forall|k: int| 0 <= k < i ==> !conflicts(from, #[trigger] to[k]),
            r.deep_view() == to.take(i as int).filter_map(adding(from)),
        decreases t.len() - i,
    {
        let c = &t[i];
        let ghost before = r;
        assert(to[i as int] == c@);
        proof {
            to.lemma_filter_map_take_succ(adding(from), i as int);
        }
        let kind = c.kind();
        if kind == ConstraintKind::PrimaryKey {
            if !has_pk {
                r.push(AlterOp::AddConstraint(c.clone()));
                proof {
                    lemma_push_deep_view(before, r, r[r.len() - 1]);
                }
            }
        } else if kind != ConstraintKind::Other {
            match find_counterpart(f, c) {
                Some(j) => {
                    if f[j] != *c {
                        proof {
                            lemma_find_first_at(to, conflicting(from), i as int);
                        }
                        return Err(
                            MigrationError::CannotModifyTableConstraint(f[j].clone(), c.clone()),
                        );
                    }
                },
                None => {
                    r.push(AlterOp::AddConstraint(c.clone()));
                    proof {
                        lemma_push_deep_view(before, r, r[r.len() - 1]);
                    }
                },
            }
        }
        assert(r.deep_view() =~= to.take(i as int + 1).filter_map(adding(from)));
        i += 1;
    }
    proof {
        lemma_find_first_absent(to, conflicting(from));
        assert(to.take(t.len() as int) =~= to);
    }
    let ghost added = r.deep_view();

    let mut i: usize = 0;
    while i < f.len()
        invariant
            i <= f.len(),
            from == f.deep_view(),
            to == t.deep_view(),
            r.deep_view() == added + from.take(i as int).filter_map(removing(to)),
        decreases f.len() - i,
    {
        let c = &f[i];
        let ghost before = r;
        assert(from[i as int] == c@);
        proof {
            from.lemma_filter_map_take_succ(removing(to), i as int);
        }
        let kind = c.kind();
        if kind != ConstraintKind::PrimaryKey && kind != ConstraintKind::Other {
            if find_counterpart(t, c).is_none() {
                if let Some(name) = c.name() {
                    r.push(AlterOp::DropConstraint { name: name.clone(), cascade: true });
                    proof {
                        lemma_push_deep_view(before, r, r[r.len() - 1]);
                    }
                }
            }
        }
        assert(r.deep_view() =~= added + from.take(i as int + 1).filter_map(removing(to)));
        i += 1;
    }
    proof {
        assert(from.take(f.len() as int) =~= from);
    }
    Ok(r)
}

} // verus!
