//! What the submission and the completion ring have in common: sizes that are powers of
//! two, cursors that count without bound and wrap at 32 bits, and the slot of a cursor.
use vstd::prelude::*;

verus! {

/// A ring holds a power of two of entries, at least one.
pub open spec fn is_ring_size(entries: u32) -> bool {
    entries != 0 && entries & ((entries - 1) as u32) == 0
}

/// By how much an index is shifted: double-width entries take two slots each.
pub open spec fn slot_shift(wide: bool) -> u32 {
    if wide {
        1
    } else {
        0
    }
}

/// How many slots the array behind a ring of `entries` entries has.
pub open spec fn slot_count(entries: u32, wide: bool) -> int {
    if wide {
        2 * entries
    } else {
        entries as int
    }
}

/// The slot of the entry at `cursor`.
pub open spec fn slot_of(cursor: u32, mask: u32, wide: bool) -> int {
    ((cursor & mask) << slot_shift(wide)) as int
}

/// A ring size is at most 2^31, so its mask has the top bit clear.
pub proof fn lemma_ring_size_bound(entries: u32)
    requires
        is_ring_size(entries),
    ensures
        entries <= 0x8000_0000,
{
    let below: u32 = (entries - 1) as u32;
    assert(entries <= 0x8000_0000u32) by (bit_vector)
        requires
            entries != 0,
            below == entries - 1,
            entries & below == 0,
    ;
}

/// The slot of any cursor lies inside the array of a well-formed ring, and is the masked
/// cursor itself, or twice that in a ring of double-width entries.
pub proof fn lemma_slot_in_bounds(cursor: u32, entries: u32, wide: bool)
    requires
        is_ring_size(entries),
    ensures
        0 <= slot_of(cursor, (entries - 1) as u32, wide) < slot_count(entries, wide),
        slot_of(cursor, (entries - 1) as u32, wide) == if wide {
            2 * (cursor & ((entries - 1) as u32))
        } else {
            (cursor & ((entries - 1) as u32)) as int
        },
{
    lemma_ring_size_bound(entries);
    let mask: u32 = (entries - 1) as u32;
    let masked: u32 = cursor & mask;
    assert(masked <= mask) by (bit_vector)
        requires
            masked == cursor & mask,
    ;
    assert(masked << 0u32 == masked) by (bit_vector);
    assert(masked < 0x8000_0000u32 ==> (masked << 1u32) == 2 * masked) by (bit_vector);
}

/// Whether `entries` is a ring size.
pub fn check_ring_size(entries: u32) -> (ok: bool)
    ensures
        ok == is_ring_size(entries),
{
    entries != 0 && entries & (entries - 1) == 0
}

} // verus!
