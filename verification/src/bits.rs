//! Bit-mask reasoning for the 32-bit sample words.
//!
//! A sample word carries one bit per GPIO pin.  These helpers state what a
//! word contains after OR-ing in a pin's bit, which is the only way the
//! engine ever builds a mask.

use vstd::prelude::*;

verus! {

/// Whether bit `p` of the word `w` is set.
pub open spec fn bit_set(w: u32, p: u32) -> bool {
    w & (1u32 << p) != 0
}

/// The zero word contains no bit.
pub proof fn lemma_zero_has_no_bit(p: u32)
    by (bit_vector)
    ensures
        !bit_set(0u32, p),
{
}

/// OR-ing in bit `p` sets exactly bit `p` and leaves every other bit as it
/// was.
pub proof fn lemma_or_pin_bit(w: u32, p: u32, q: u32)
    by (bit_vector)
    requires
        p < 32,
        q < 32,
    ensures
        bit_set(w | (1u32 << p), q) <==> (bit_set(w, q) || p == q),
{
}

} // verus!
