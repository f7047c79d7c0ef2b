//! The column differ: what leads from one definition of a column to
//! another.

use crate::column::{ColumnDef, ColumnDefView, ColumnOption, ColumnOptionView};
use crate::name::IdentView;
use crate::plan::{AlterOp, AlterOpView};
use crate::search::{find_first, lemma_find_first_absent, lemma_find_first_at};
use crate::views::lemma_push_deep_view;
use vstd::prelude::*;

verus! {

pub open spec fn has_not_null(options: Seq<ColumnOptionView>) -> bool {
    exists|i: int| 0 <= i < options.len() && #[trigger] options[i] is NotNull
}

pub open spec fn is_default() -> spec_fn(ColumnOptionView) -> bool {
    |o: ColumnOptionView| o is Default
}

/// The first default among the options.
pub open spec fn first_default(options: Seq<ColumnOptionView>) -> Option<ColumnOptionView> {
    find_first(options, is_default())
}

/// What an option of the target column asks for: `NOT NULL` is set where
/// the column lacks it; a default is set where the column has none or
/// another one.
pub open spec fn setting(
    from: Seq<ColumnOptionView>,
    column: IdentView,
    o: ColumnOptionView,
) -> Option<AlterOpView> {
    match o {
        ColumnOptionView::NotNull => if has_not_null(from) {
            None
        } else {
            Some(AlterOpView::SetNotNull { column })
        },
        ColumnOptionView::Default(value) => if first_default(from) == Some(o) {
            None
        } else {
            Some(AlterOpView::SetDefault { column, value })
        },
        ColumnOptionView::Other(_) => None,
    }
}

pub open spec fn settings(from: Seq<ColumnOptionView>, column: IdentView) -> spec_fn(
    ColumnOptionView,
) -> Option<AlterOpView> {
    |o: ColumnOptionView| setting(from, column, o)
}

/// What an option of the current column asks for: `NOT NULL` is dropped
/// where the target lacks it, and so is a default.
pub open spec fn unsetting(
    to: Seq<ColumnOptionView>,
    column: IdentView,
    o: ColumnOptionView,
) -> Option<AlterOpView> {
    match o {
        ColumnOptionView::NotNull => if has_not_null(to) {
            None
        } else {
            Some(AlterOpView::DropNotNull { column })
        },
        ColumnOptionView::Default(_) => if first_default(to) is None {
            Some(AlterOpView::DropDefault { column })
        } else {
            None
        },
        ColumnOptionView::Other(_) => None,
    }
}

pub open spec fn unsettings(to: Seq<ColumnOptionView>, column: IdentView) -> spec_fn(
    ColumnOptionView,
) -> Option<AlterOpView> {
    |o: ColumnOptionView| unsetting(to, column, o)
}

/// The operations that lead from the column `from` to the column `to` of
/// the same name: what the options of `to` ask for, in their order, then
/// what the options of `from` ask for, in theirs.
pub open spec fn column_ops(from: ColumnDefView, to: ColumnDefView) -> Seq<AlterOpView> {
    to.options.filter_map(settings(from.options, to.name)) + from.options.filter_map(
        unsettings(to.options, to.name),
    )
}

/// Whether `NOT NULL` is among the options.
pub fn contains_not_null(options: &Vec<ColumnOption>) -> (r: bool)
    ensures
        r == has_not_null(options.deep_view()),
{
    let ghost s = options.deep_view();
    let mut j: usize = 0;
    while j < options.len()
        invariant
            j <= options.len(),
            s == options.deep_view(),
            forall|k: int| 0 <= k < j ==> !(#[trigger] s[k] is NotNull),
        decreases options.len() - j,
    {
        assert(s[j as int] == options[j as int]@);
        if let ColumnOption::NotNull = &options[j] {
            return true;
        }
        j += 1;
    }
    false
}

/// The place of the first default among the options.
pub fn find_default(options: &Vec<ColumnOption>) -> (r: Option<usize>)
    ensures
        match r {
            Some(j) => j < options.len() && first_default(options.deep_view()) == Some(
                options[j as int]@,
            ),
            None => first_default(options.deep_view()) is None,
        },
{
    let ghost s = options.deep_view();
    let mut j: usize = 0;
    while j < options.len()
        invariant
            j <= options.len(),
            s == options.deep_view(),
            forall|k: int| 0 <= k < j ==> !(#[trigger] s[k] is Default),
        decreases options.len() - j,
    {
        assert(s[j as int] == options[j as int]@);
        if let ColumnOption::Default(_) = &options[j] {
            proof {
                lemma_find_first_at(s, is_default(), j as int);
            }
            return Some(j);
        }
        j += 1;
    }
    proof {
        lemma_find_first_absent(s, is_default());
    }
    None
}

/// Compares a column as it is with the column of the same name as it
/// should be. The operations carry the name of `t`.
///
/// `NOT NULL` is set or dropped where only one side has it. A default is
/// set where only the target has one or where the two differ, in one
/// operation, and dropped where only the current column has one. Other
/// options are passed over.
pub fn compare_column(f: &ColumnDef, t: &ColumnDef) -> (r: Vec<AlterOp>)
    ensures
        r.deep_view() == column_ops(f@, t@),
{
    let ghost from = f.options.deep_view();
    let ghost to = t.options.deep_view();
    let ghost column = t.name@;
    let mut r: Vec<AlterOp> = Vec::new();
    let from_not_null = contains_not_null(&f.options);
    let from_default = find_default(&f.options);

    let mut i: usize = 0;
    while i < t.options.len()
        invariant
            i <= t.options.len(),
            from == f.options.deep_view(),
            to == t.options.deep_view(),
            column == t.name@,
            from_not_null == has_not_null(from),
            match from_default {
                Some(j) => j < f.options.len() && first_default(from) == Some(
                    f.options[j as int]@,
                ),
                None => first_default(from) is None,
            },
            r.deep_view() == to.take(i as int).filter_map(settings(from, column)),
        decreases t.options.len() - i,
    {
        let o = &t.options[i];
        let ghost before = r;
        assert(to[i as int] == o@);
        proof {
            to.lemma_filter_map_take_succ(settings(from, column), i as int);
        }
        match o {
            ColumnOption::NotNull => {
                if !from_not_null {
                    r.push(AlterOp::SetNotNull { column: t.name.clone() });
                    proof {
                        lemma_push_deep_view(before, r, r[r.len() - 1]);
                    }
                }
            },
            ColumnOption::Default(value) => {
                let unchanged = match from_default {
                    Some(j) => f.options[j] == *o,
                    None => false,
                };
                if !unchanged {
                    r.push(AlterOp::SetDefault { column: t.name.clone(), value: value.clone() });
                    proof {
                        lemma_push_deep_view(before, r, r[r.len() - 1]);
                    }
                }
            },
            ColumnOption::Other(_) => {},
        }
        assert(r.deep_view() =~= to.take(i as int + 1).filter_map(settings(from, column)));
        i += 1;
    }
    proof {
        assert(to.take(t.options.len() as int) =~= to);
    }
    let ghost set = r.deep_view();
    let to_not_null = contains_not_null(&t.options);
    let to_default = find_default(&t.options);

    let mut i: usize = 0;
    while i < f.options.len()
        invariant
            i <= f.options.len(),
            from == f.options.deep_view(),
            to == t.options.deep_view(),
            column == t.name@,
            to_not_null == has_not_null(to),
            to_default is None == first_default(to) is None,
            r.deep_view() == set + from.take(i as int).filter_map(unsettings(to, column)),
        decreases f.options.len() - i,
    {
        let o = &f.options[i];
        let ghost before = r;
        assert(from[i as int] == o@);
        proof {
            from.lemma_filter_map_take_succ(unsettings(to, column), i as int);
        }
        match o {
            ColumnOption::NotNull => {
                if !to_not_null {
                    r.push(AlterOp::DropNotNull { column: t.name.clone() });
                    proof {
                        lemma_push_deep_view(before, r, r[r.len() - 1]);
                    }
                }
            },
            ColumnOption::Default(_) => {
                if to_default.is_none() {
                    r.push(AlterOp::DropDefault { column: t.name.clone() });
                    proof {
                        lemma_push_deep_view(before, r, r[r.len() - 1]);
                    }
                }
            },
            ColumnOption::Other(_) => {},
        }
        assert(r.deep_view() =~= set + from.take(i as int + 1).filter_map(
            unsettings(to, column),
        ));
        i += 1;
    }
    proof {
        assert(from.take(f.options.len() as int) =~= from);
    }
    r
}

} // verus!
