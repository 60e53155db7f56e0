//! Facts about setting, clearing and testing a mask inside a packed word,
//! shared by the four flag groups.

use vstd::prelude::*;

verus! {

/// Setting a mask makes every bit of the mask present.
pub proof fn lemma_or_contains(w: u32, m: u32)
    ensures
        (w | m) & m == m,
{
    assert((w | m) & m == m) by (bit_vector);
}

/// Clearing a mask leaves no bit of the mask behind.
pub proof fn lemma_andnot_clears(w: u32, m: u32)
    ensures
        (w & !m) & m == 0,
{
    assert((w & !m) & m == 0) by (bit_vector);
}

/// Setting a mask twice is the same as setting it once.
pub proof fn lemma_or_idempotent(w: u32, m: u32)
    ensures
        (w | m) | m == w | m,
{
    assert((w | m) | m == w | m) by (bit_vector);
}

/// Clearing a mask twice is the same as clearing it once.
pub proof fn lemma_andnot_idempotent(w: u32, m: u32)
    ensures
        (w & !m) & !m == w & !m,
{
    assert((w & !m) & !m == w & !m) by (bit_vector);
}

} // verus!
