//! What the tree asks of its element type: a total order that agrees with
//! equality, and a `clone` that hands back an equal value.
use core::cmp::Ordering;
use vstd::laws_cmp::{obeys_cmp, obeys_cmp_ord, obeys_cmp_partial_ord, obeys_partial_cmp_spec_properties};
use vstd::laws_eq::obeys_concrete_eq;
use vstd::prelude::*;
use vstd::std_specs::cmp::PartialOrdSpec;

verus! {

/// `a` is strictly below `b` in the order of `T`.
pub open spec fn lt<T: Ord>(a: T, b: T) -> bool {
    a.partial_cmp_spec(&b) == Some(Ordering::Less)
}

/// Every clone of a value of `T` equals the value it was made from.
pub open spec fn clone_is_exact<T: Clone>() -> bool {
    forall|a: T, b: T| #[trigger] cloned::<T>(a, b) ==> a == b
}

/// The comparison operators of `T` form a total order whose `==` is equality
/// itself, and cloning keeps the value.
pub open spec fn element_laws<T: Ord + Clone>() -> bool {
    &&& obeys_cmp::<T>()
    &&& obeys_concrete_eq::<T>()
    &&& clone_is_exact::<T>()
}

/// Of two elements exactly one holds: the first is below, they are equal, or
/// the second is below.
pub proof fn lemma_trichotomy<T: Ord + Clone>(a: T, b: T)
    requires
        element_laws::<T>(),
    ensures
        lt(a, b) || a == b || lt(b, a),
        !(lt(a, b) && a == b),
        !(lt(b, a) && a == b),
        !(lt(a, b) && lt(b, a)),
{
    reveal(obeys_cmp_ord);
    reveal(obeys_cmp_partial_ord);
    reveal(obeys_partial_cmp_spec_properties);
    reveal(obeys_concrete_eq);
}

/// The 32-bit signed integers meet what the tree asks of its elements.
pub proof fn lemma_i32_obeys_element_laws()
    ensures
        element_laws::<i32>(),
{
    broadcast use vstd::laws_cmp::group_laws_cmp;
    broadcast use vstd::laws_eq::group_laws_eq;
}

/// The 64-bit unsigned integers meet what the tree asks of its elements.
pub proof fn lemma_u64_obeys_element_laws()
    ensures
        element_laws::<u64>(),
{
    broadcast use vstd::laws_cmp::group_laws_cmp;
    broadcast use vstd::laws_eq::group_laws_eq;
}

} // verus!
