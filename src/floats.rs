//! Single-precision floating-point values held as their IEEE-754 bit patterns.

use vstd::prelude::*;

verus! {

/// Mask of the eight exponent bits of an `f32`.
pub const EXPONENT_MASK: u32 = 0x7f80_0000;

/// Mask of the twenty-three mantissa bits of an `f32`.
pub const MANTISSA_MASK: u32 = 0x007f_ffff;

/// An `f32` bit pattern is not-a-number when its exponent bits are all set and
/// its mantissa is not zero.
pub open spec fn is_nan(bits: u32) -> bool {
    (bits & EXPONENT_MASK) == EXPONENT_MASK && (bits & MANTISSA_MASK) != 0
}

/// Two coefficients agree when both are not-a-number, or when neither is and
/// their bit patterns are identical.
pub open spec fn coeff_eq(a: u32, b: u32) -> bool {
    if is_nan(a) && is_nan(b) {
        true
    } else if is_nan(a) || is_nan(b) {
        false
    } else {
        a == b
    }
}

/// Two coefficient sequences agree when they have the same length and agree
/// position by position.
pub open spec fn coeffs_eq(s1: Seq<u32>, s2: Seq<u32>) -> bool {
    &&& s1.len() == s2.len()
    &&& forall|i: int| 0 <= i < s1.len() ==> #[trigger] coeff_eq(s1[i], s2[i])
}

/// Whether the `f32` with bit pattern `bits` is not-a-number.
pub fn is_nan_bits(bits: u32) -> (r: bool)
    ensures
        r == is_nan(bits),
{
    (bits & EXPONENT_MASK) == EXPONENT_MASK && (bits & MANTISSA_MASK) != 0
}

/// Compares two sequences of `f32` bit patterns: equal lengths, and at each
/// position either both values are not-a-number or both are the same number,
/// bit for bit.
pub fn f32_slices_eq(s1: &[u32], s2: &[u32]) -> (r: bool)
    ensures
        r == coeffs_eq(s1@, s2@),
{
    if s1.len() != s2.len() {
        return false;
    }
    let mut i: usize = 0;
    while i < s1.len()
        invariant
            s1@.len() == s2@.len(),
            0 <= i <= s1@.len(),
            forall|j: int| 0 <= j < i ==> #[trigger] coeff_eq(s1@[j], s2@[j]),
        decreases s1@.len() - i,
    {
        let v1 = s1[i];
        let v2 = s2[i];
        let n1 = is_nan_bits(v1);
        let n2 = is_nan_bits(v2);
        if n1 && n2 {
            i = i + 1;
            continue;
        }
        if n1 || n2 {
            assert(!coeff_eq(s1@[i as int], s2@[i as int]));
            return false;
        }
        if v1 != v2 {
            assert(!coeff_eq(s1@[i as int], s2@[i as int]));
            return false;
        }
        i = i + 1;
    }
    true
}

/// Comparing any coefficient sequence with itself succeeds, also where it
/// holds not-a-number entries.
pub proof fn lemma_coeffs_eq_reflexive(s: Seq<u32>)
    ensures
        coeffs_eq(s, s),
{
    assert forall|i: int| 0 <= i < s.len() implies #[trigger] coeff_eq(s[i], s[i]) by {}
}

/// Sequences of different lengths never compare equal, whatever they hold.
pub proof fn lemma_length_mismatch(s1: Seq<u32>, s2: Seq<u32>)
    requires
        s1.len() != s2.len(),
    ensures
        !coeffs_eq(s1, s2),
{
}

} // verus!
