//! Looking for the first element of a sequence that has a property.

use vstd::prelude::*;

verus! {

/// The first element of `s` that satisfies `p`, if there is one.
pub open spec fn find_first<A>(s: Seq<A>, p: spec_fn(A) -> bool) -> Option<A>
    decreases s.len(),
{
    if s.len() == 0 {
        None
    } else if p(s[0]) {
        Some(s[0])
    } else {
        find_first(s.drop_first(), p)
    }
}

/// An element that satisfies `p` and has none before it that does is the
/// first one.
pub proof fn lemma_find_first_at<A>(s: Seq<A>, p: spec_fn(A) -> bool, i: int)
    requires
        0 <= i < s.len(),
        p(s[i]),
        forall|j: int| 0 <= j < i ==> !p(#[trigger] s[j]),
    ensures
        find_first(s, p) == Some(s[i]),
    decreases i,
{
    if i > 0 {
        let rest = s.drop_first();
        assert(!p(s[0]));
        assert forall|j: int| 0 <= j < i - 1 implies !p(#[trigger] rest[j]) by {
            assert(rest[j] == s[j + 1]);
        }
        assert(rest[i - 1] == s[i]);
        lemma_find_first_at(rest, p, i - 1);
    }
}

/// Where no element satisfies `p`, there is no first one.
pub proof fn lemma_find_first_absent<A>(s: Seq<A>, p: spec_fn(A) -> bool)
    requires
        forall|j: int| 0 <= j < s.len() ==> !p(#[trigger] s[j]),
    ensures
        find_first(s, p) is None,
    decreases s.len(),
{
    if s.len() > 0 {
        let rest = s.drop_first();
        assert(!p(s[0]));
        assert forall|j: int| 0 <= j < rest.len() implies !p(#[trigger] rest[j]) by {
            assert(rest[j] == s[j + 1]);
        }
        lemma_find_first_absent(rest, p);
    }
}

/// The place of the first element that satisfies `p`, where there is one.
pub proof fn lemma_find_first_found<A>(s: Seq<A>, p: spec_fn(A) -> bool) -> (i: int)
    requires
        find_first(s, p) is Some,
    ensures
        0 <= i < s.len(),
        find_first(s, p) == Some(s[i]),
        p(s[i]),
        forall|j: int| 0 <= j < i ==> !p(#[trigger] s[j]),
    decreases s.len(),
{
    if p(s[0]) {
        0
    } else {
        let rest = s.drop_first();
        let k = lemma_find_first_found(rest, p);
        assert(rest[k] == s[k + 1]);
        assert forall|j: int| 0 <= j < k + 1 implies !p(#[trigger] s[j]) by {
            if j > 0 {
                assert(rest[j - 1] == s[j]);
            }
        }
        k + 1
    }
}

/// Where there is no first element that satisfies `p`, none does.
pub proof fn lemma_find_first_none<A>(s: Seq<A>, p: spec_fn(A) -> bool)
    requires
        find_first(s, p) is None,
    ensures
        forall|j: int| 0 <= j < s.len() ==> !p(#[trigger] s[j]),
    decreases s.len(),
{
    if s.len() > 0 {
        let rest = s.drop_first();
        lemma_find_first_none(rest, p);
        assert forall|j: int| 0 <= j < s.len() implies !p(#[trigger] s[j]) by {
            if j > 0 {
                assert(rest[j - 1] == s[j]);
            }
        }
    }
}

/// Where `f` gives nothing for any element, `filter_map` gives nothing.
pub proof fn lemma_filter_map_nothing<A, B>(s: Seq<A>, f: spec_fn(A) -> Option<B>)
    requires
        forall|j: int| 0 <= j < s.len() ==> f(#[trigger] s[j]) is None,
    ensures
        s.filter_map(f) == Seq::<B>::empty(),
    decreases s.len(),
{
    if s.len() > 0 {
        let rest = s.drop_last();
        assert(f(s[s.len() - 1]) is None);
        assert forall|j: int| 0 <= j < rest.len() implies f(#[trigger] rest[j]) is None by {
            assert(rest[j] == s[j]);
        }
        lemma_filter_map_nothing(rest, f);
    }
}

/// Where `f` gives the empty sequence for every element, `flat_map` gives
/// the empty sequence.
pub proof fn lemma_flat_map_nothing<A, B>(s: Seq<A>, f: spec_fn(A) -> Seq<B>)
    requires
        forall|j: int| 0 <= j < s.len() ==> f(#[trigger] s[j]) == Seq::<B>::empty(),
    ensures
        s.flat_map(f) == Seq::<B>::empty(),
    decreases s.len(),
{
    if s.len() == 0 {
        assert(s.map_values(f) =~= Seq::<Seq<B>>::empty());
        assert(s.flat_map(f) =~= Seq::<B>::empty());
    } else {
        let rest = s.drop_last();
        assert forall|j: int| 0 <= j < rest.len() implies f(#[trigger] rest[j]) == Seq::<
            B,
        >::empty() by {
            assert(rest[j] == s[j]);
        }
        lemma_flat_map_nothing(rest, f);
        rest.lemma_flat_map_push(f, s.last());
        assert(rest.push(s.last()) =~= s);
        assert(f(s[s.len() - 1]) == Seq::<B>::empty());
        assert(s.flat_map(f) =~= Seq::<B>::empty());
    }
}

/// Every element of `filter_map` is what `f` gives for some element.
pub proof fn lemma_filter_map_is_image<A, B>(s: Seq<A>, f: spec_fn(A) -> Option<B>, i: int)
    requires
        0 <= i < s.filter_map(f).len(),
    ensures
        exists|j: int| 0 <= j < s.len() && f(#[trigger] s[j]) == Some(s.filter_map(f)[i]),
    decreases s.len(),
{
    if s.len() > 0 {
        let rest = s.drop_last();
        if i < rest.filter_map(f).len() {
            lemma_filter_map_is_image(rest, f, i);
            let j = choose|j: int|
                0 <= j < rest.len() && f(#[trigger] rest[j]) == Some(rest.filter_map(f)[i]);
            assert(rest[j] == s[j]);
        } else {
            assert(f(s[s.len() - 1]) == Some(s.filter_map(f)[i]));
        }
    }
}

} // verus!
