//! The slot-displacement protocol.
//!
//! A composite object is laid out as its table slots, one pointer-width unit
//! each, immediately followed by the wrapped value.  Addresses here are
//! measured in those units.  The slot at position `i` therefore sits `i`
//! units after the composite's start, and the trampoline emitted for that
//! slot walks back by the fixed displacement `-i` to recover the owner.

use vstd::prelude::*;

verus! {

/// Address of slot `i` of a composite whose slot tuple starts at `base`.
pub open spec fn slot_addr(base: int, i: int) -> int {
    base + i
}

/// The compile-time displacement embedded in every trampoline for slot `i`:
/// from the slot's own address back to the composite's start.
pub open spec fn back_offset(i: int) -> int {
    -i
}

/// Computes the displacement constant the generator embeds for slot `i`.
pub fn slot_offset(i: usize) -> (off: isize)
    requires
        i <= isize::MAX as usize,
    ensures
        off as int == back_offset(i as int),
{
    -(i as isize)
}

/// The exported form of a slot: its raw address.
pub fn raw_of_slot(base: usize, i: usize) -> (raw: usize)
    requires
        base + i <= usize::MAX,
    ensures
        raw as int == slot_addr(base as int, i as int),
{
    base + i
}

/// The trampoline's recovery step: from the raw address of slot `i`, walk
/// back to the composite's start.
pub fn recover_base(raw: usize, i: usize) -> (base: usize)
    requires
        i <= raw,
    ensures
        base as int == raw as int + back_offset(i as int),
{
    raw - i
}

/// Law: exporting slot `i` of a composite at `base` and applying the slot's
/// own displacement recovers exactly `base`.
pub proof fn lemma_recover_roundtrip(base: int, i: int)
    ensures
        slot_addr(base, i) + back_offset(i) == base,
{
}

/// Law: with `k` slots attached, recovery is correct for every declared
/// position, so exercising any slot recovers the same owner.
pub proof fn lemma_all_slots_recover_owner(base: int, k: int)
    ensures
        forall|i: int|
            0 <= i < k ==> slot_addr(base, i) + back_offset(i) == base,
{
}

/// Law: any two slots of one composite recover the identical owner, no
/// matter which of them foreign code chooses to call through.
pub proof fn lemma_recover_agrees(base: int, i: int, j: int)
    ensures
        slot_addr(base, i) + back_offset(i) == slot_addr(base, j) + back_offset(j),
{
}

} // verus!
