//! Laws of flag sets: what setting, clearing and flipping flags do to the
//! bits that `Capabilities`, `ThreadState`, `ResourceExhaustionFlags`,
//! `HeapFilter` and `VisitControl` hold.

use vstd::prelude::*;

verus! {

/// Setting flags (`union`, `insert`) leaves a set that contains both the
/// old flags and the new ones (the 128 bits of `Capabilities`).
pub proof fn lemma_union_contains_u128(a: u128, b: u128)
    ensures
        (a | b) & a == a,
        (a | b) & b == b,
{
    assert((a | b) & a == a && (a | b) & b == b) by (bit_vector);
}

/// Clearing flags (`difference`, `remove`) leaves a set that shares none of
/// them (the 128 bits of `Capabilities`).
pub proof fn lemma_difference_excludes_u128(a: u128, b: u128)
    ensures
        (a & !b) & b == 0,
{
    assert((a & !b) & b == 0) by (bit_vector);
}

/// Clearing flags that were just set, and that were absent before, gives
/// back the set as it was (the 128 bits of `Capabilities`).
pub proof fn lemma_remove_undoes_insert_u128(a: u128, b: u128)
    requires
        a & b == 0,
    ensures
        (a | b) & !b == a,
{
    assert((a | b) & !b == a) by (bit_vector)
        requires
            a & b == 0,
    ;
}

/// Flipping the same flags twice (`toggle`, `symmetric_difference`) gives
/// back the set (the 128 bits of `Capabilities`).
pub proof fn lemma_toggle_twice_u128(a: u128, b: u128)
    ensures
        (a ^ b) ^ b == a,
{
    assert((a ^ b) ^ b == a) by (bit_vector);
}

/// Every set contains the empty set and is contained in the set of all
/// flags; the complement of the complement is the set itself (the 128 bits of `Capabilities`).
pub proof fn lemma_empty_all_u128(a: u128)
    ensures
        a & 0 == 0,
        0xffff_ffff_ffff_ffff_ffff_ffff_ffff_ffffu128 & a == a,
        !(!a) == a,
        a & !a == 0,
{
    assert(a & 0 == 0 && 0xffff_ffff_ffff_ffff_ffff_ffff_ffff_ffffu128 & a == a && !(!a) == a && a & !a == 0) by (bit_vector);
}

/// Setting flags (`union`, `insert`) leaves a set that contains both the
/// old flags and the new ones (the 32 bits of `ThreadState`, `ResourceExhaustionFlags`, `HeapFilter` and `VisitControl`).
pub proof fn lemma_union_contains_u32(a: u32, b: u32)
    ensures
        (a | b) & a == a,
        (a | b) & b == b,
{
    assert((a | b) & a == a && (a | b) & b == b) by (bit_vector);
}

/// Clearing flags (`difference`, `remove`) leaves a set that shares none of
/// them (the 32 bits of `ThreadState`, `ResourceExhaustionFlags`, `HeapFilter` and `VisitControl`).
pub proof fn lemma_difference_excludes_u32(a: u32, b: u32)
    ensures
        (a & !b) & b == 0,
{
    assert((a & !b) & b == 0) by (bit_vector);
}

/// Clearing flags that were just set, and that were absent before, gives
/// back the set as it was (the 32 bits of `ThreadState`, `ResourceExhaustionFlags`, `HeapFilter` and `VisitControl`).
pub proof fn lemma_remove_undoes_insert_u32(a: u32, b: u32)
    requires
        a & b == 0,
    ensures
        (a | b) & !b == a,
{
    assert((a | b) & !b == a) by (bit_vector)
        requires
            a & b == 0,
    ;
}

/// Flipping the same flags twice (`toggle`, `symmetric_difference`) gives
/// back the set (the 32 bits of `ThreadState`, `ResourceExhaustionFlags`, `HeapFilter` and `VisitControl`).
pub proof fn lemma_toggle_twice_u32(a: u32, b: u32)
    ensures
        (a ^ b) ^ b == a,
{
    assert((a ^ b) ^ b == a) by (bit_vector);
}

/// Every set contains the empty set and is contained in the set of all
/// flags; the complement of the complement is the set itself (the 32 bits of `ThreadState`, `ResourceExhaustionFlags`, `HeapFilter` and `VisitControl`).
pub proof fn lemma_empty_all_u32(a: u32)
    ensures
        a & 0 == 0,
        0xffff_ffffu32 & a == a,
        !(!a) == a,
        a & !a == 0,
{
    assert(a & 0 == 0 && 0xffff_ffffu32 & a == a && !(!a) == a && a & !a == 0) by (bit_vector);
}

} // verus!
