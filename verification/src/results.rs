//! Lists of results: all of the values, or the first failure.

use crate::search::{find_first, lemma_find_first_absent, lemma_find_first_at};
use crate::views::{deep_result, lemma_push_deep_view};
use vstd::prelude::*;

verus! {

pub open spec fn failed<T, E>() -> spec_fn(Result<T, E>) -> bool {
    |r: Result<T, E>| r is Err
}

pub open spec fn value<T, E>() -> spec_fn(Result<T, E>) -> T {
    |r: Result<T, E>| r->Ok_0
}

/// All or nothing: the values of the results, in order, where each has
/// one; else the first failure.
pub open spec fn all_or_first_failure<T, E>(results: Seq<Result<T, E>>) -> Result<Seq<T>, E> {
    match find_first(results, failed()) {
        Some(r) => Err(r->Err_0),
        None => Ok(results.map_values(value())),
    }
}

pub open spec fn deep_results<T: DeepView, E: DeepView>() -> spec_fn(Result<T, E>) -> Result<
    T::V,
    E::V,
> {
    |r: Result<T, E>| deep_result(r)
}

/// Gathers the values of the results, or gives the first failure.
pub fn gather<T: DeepView, E: DeepView>(results: Vec<Result<T, E>>) -> (r: Result<Vec<T>, E>)
    ensures
        deep_result(r) == all_or_first_failure(results@.map_values(deep_results())),
{
    let ghost all = results@.map_values(deep_results::<T, E>());
    let mut r: Vec<T> = Vec::new();
    for x in iter: results.into_iter()
        invariant
            iter.seq() == results@,
            all == results@.map_values(deep_results::<T, E>()),
            forall|k: int| 0 <= k < iter.index() ==> (#[trigger] all[k]) is Ok,
            r.deep_view() == all.take(iter.index() as int).map_values(value()),
    {
        let ghost before = r;
        let ghost i = iter.index() as int;
        assert(all[i] == deep_result(x));
        match x {
            Ok(v) => {
                r.push(v);
                proof {
                    lemma_push_deep_view(before, r, r[r.len() - 1]);
                }
                assert(r.deep_view() =~= all.take(i + 1).map_values(value()));
            },
            Err(e) => {
                proof {
                    lemma_find_first_at(all, failed(), i);
                }
                return Err(e);
            },
        }
    }
    proof {
        lemma_find_first_absent(all, failed());
        assert(all.take(all.len() as int) =~= all);
    }
    Ok(r)
}

} // verus!
