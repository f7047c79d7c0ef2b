//! Facts about the deep views of vectors, shared by the types of the schema.

use vstd::prelude::*;
use vstd::std_specs::cmp::PartialEqSpec;

verus! {

/// The deep view of a result: that of its value, or that of its error.
pub open spec fn deep_result<T: DeepView, E: DeepView>(r: Result<T, E>) -> Result<T::V, E::V> {
    match r {
        Ok(t) => Ok(t.deep_view()),
        Err(e) => Err(e.deep_view()),
    }
}

/// Two vectors are equal element by element exactly when their deep views
/// are the same sequence, provided equality of the elements means equality
/// of their deep views.
pub proof fn lemma_vec_eq_deep_view<T: DeepView + PartialEq + PartialEqSpec>(a: Vec<T>, b: Vec<T>)
    requires
        forall|x: T, y: T| #[trigger] x.eq_spec(&y) == (x.deep_view() == y.deep_view()),
    ensures
        a.eq_spec(&b) == (a.deep_view() == b.deep_view()),
{
    assert(a.deep_view().len() == a.len());
    assert(b.deep_view().len() == b.len());
    if a.eq_spec(&b) {
        assert(a.deep_view() =~= b.deep_view());
    } else if a.deep_view() == b.deep_view() {
        assert forall|i: int| 0 <= i < a.len() implies #[trigger] a[i].eq_spec(&b[i]) by {
            assert(a.deep_view()[i] == b.deep_view()[i]);
        }
    }
}

/// Pushing onto a vector pushes the element's deep view onto the vector's.
pub proof fn lemma_push_deep_view<T: DeepView>(before: Vec<T>, after: Vec<T>, x: T)
    requires
        after@ == before@.push(x),
    ensures
        after.deep_view() == before.deep_view().push(x.deep_view()),
{
    assert(after.deep_view() =~= before.deep_view().push(x.deep_view()));
}

} // verus!
