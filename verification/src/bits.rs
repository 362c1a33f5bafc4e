//! Facts about bit operations that several modules use.

use vstd::prelude::*;

verus! {

/// Masking gives a value that is not above the mask.
pub proof fn lemma_and_le_mask(x: u64, mask: u64)
    ensures
        x & mask <= mask,
{
    assert(x & mask <= mask) by (bit_vector);
}

/// A bit that is or-ed in is set afterwards, and the others stay.
pub proof fn lemma_or_sets(x: u64, bits: u64)
    ensures
        (x | bits) & bits == bits,
        (x | bits) & !bits == x & !bits,
{
    assert((x | bits) & bits == bits && (x | bits) & !bits == x & !bits) by (bit_vector);
}

} // verus!
