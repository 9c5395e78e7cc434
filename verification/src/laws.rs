//! What the rules add up to when shapes are nested.
//!
//! No shape has a rule for what it is nested in, or for what is nested in it.
//! The laws here state that the rules of the layers then compose to what one
//! expects of the whole.

use vstd::prelude::*;
use crate::boundary::{DartSafe, IntoDart};
use crate::convert::IntoIntoDart;
use crate::opaque::RustOpaque;

verus! {

/// Whether every value of `T` converts to itself and to nothing else.
pub open spec fn converts_to_itself<T: IntoIntoDart<T> + IntoDart>() -> bool {
    forall|a: T, b: T| #[trigger] a.converts_to(b) <==> b == a
}

/// A sequence of items that convert to themselves converts to a sequence of
/// the same items in the same order.
pub proof fn lemma_sequence_unchanged<T: IntoIntoDart<T> + IntoDart>(s: Vec<T>, d: Vec<T>)
    requires
        converts_to_itself::<T>(),
    ensures
        s.converts_to(d) <==> d@ == s@,
{
    if s.converts_to(d) {
        assert(d@ =~= s@);
    }
}

/// An optional value whose content converts to itself converts to itself.
pub proof fn lemma_optional_unchanged<T: IntoIntoDart<T> + IntoDart>(s: Option<T>, d: Option<T>)
    requires
        converts_to_itself::<T>(),
    ensures
        s.converts_to(d) <==> d == s,
{
}

/// A pair whose slots convert to themselves converts to itself.
pub proof fn lemma_pair_unchanged<A: IntoIntoDart<A> + IntoDart, B: IntoIntoDart<B> + IntoDart>(
    s: (A, B),
    d: (A, B),
)
    requires
        converts_to_itself::<A>(),
        converts_to_itself::<B>(),
    ensures
        s.converts_to(d) <==> d == s,
{
}

/// A sequence of optional pairs converts by the rules of its three layers,
/// whatever the rules of the two slots are: the result has as many items, an
/// absent item stays absent, and a present pair stays present with each slot
/// converted by its own rule.
pub proof fn lemma_sequence_of_optional_pairs<A, AD, B, BD>(
    s: Vec<Option<(A, B)>>,
    d: Vec<Option<(AD, BD)>>,
) where A: IntoIntoDart<AD>, AD: IntoDart, B: IntoIntoDart<BD>, BD: IntoDart
    ensures
        s.converts_to(d) <==> {
            &&& d@.len() == s@.len()
            &&& forall|i: int|
                #![trigger s@[i]]
                #![trigger d@[i]]
                0 <= i < s@.len() ==> match (s@[i], d@[i]) {
                    (Some(from), Some(to)) => from.0.converts_to(to.0) && from.1.converts_to(to.1),
                    (None, None) => true,
                    _ => false,
                }
        },
{
}

/// A sequence of optional pairs of shared handles converts to a sequence that
/// holds the same handles at the same places, and to no other.
pub proof fn lemma_nested_handles_unchanged<A: DartSafe, B: DartSafe>(
    s: Vec<Option<(RustOpaque<A>, RustOpaque<B>)>>,
    d: Vec<Option<(RustOpaque<A>, RustOpaque<B>)>>,
)
    ensures
        s.converts_to(d) <==> d@ == s@,
{
    if s.converts_to(d) {
        assert forall|i: int| 0 <= i < s@.len() implies d@[i] == s@[i] by {
            assert(s@[i].converts_to(d@[i]));
        }
        assert(d@ =~= s@);
    }
}

} // verus!
