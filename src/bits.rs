//! Facts about raw flag words that every flag type relies on.
use vstd::prelude::*;

verus! {

/// The raw word that carries the bits of every flag type.
pub type RawFlags = u32;

/// `b` is wholly inside `a`.
pub open spec fn bits_contain(a: RawFlags, b: RawFlags) -> bool {
    a & b == b
}

/// The empty word is the identity for union, on either side.
pub proof fn lemma_empty_is_union_identity(a: RawFlags)
    ensures
        0u32 | a == a,
        a | 0u32 == a,
{
    assert(0u32 | a == a) by (bit_vector);
    assert(a | 0u32 == a) by (bit_vector);
}

/// Once `b` has been inserted into `a`, `a` contains `b`.
pub proof fn lemma_contains_after_insert(a: RawFlags, b: RawFlags)
    ensures
        bits_contain(a | b, b),
{
    assert((a | b) & b == b) by (bit_vector);
}

} // verus!
