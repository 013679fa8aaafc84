//! Monitor scale factors, carried by their IEEE 754 double-precision encoding.

use vstd::prelude::*;
use vstd::std_specs::cmp::PartialEqSpecImpl;

verus! {

/// Encoding of positive infinity, the first encoding above every positive finite number.
pub const INFINITY_BITS: u64 = 0x7FF0_0000_0000_0000;

/// Encoding of negative zero, the first encoding with the sign bit set.
pub const SIGN_BIT: u64 = 0x8000_0000_0000_0000;

/// A scale factor as the operating system reports it.
///
/// The number itself is carried by the 64 bits of its double-precision encoding. Arithmetic with
/// scale factors happens where floating point is available; here they are carried and compared.
#[derive(Clone, Copy, Debug)]
pub struct ScaleFactor {
    bits: u64,
}

impl View for ScaleFactor {
    type V = u64;

    closed spec fn view(&self) -> u64 {
        self.bits
    }
}

/// Whether the encoding stands for something that is not a number.
pub open spec fn encodes_nan(bits: u64) -> bool {
    INFINITY_BITS < bits < SIGN_BIT || bits > INFINITY_BITS + SIGN_BIT
}

/// Whether the encoding stands for positive or negative zero.
pub open spec fn encodes_zero(bits: u64) -> bool {
    bits == 0 || bits == SIGN_BIT
}

/// Whether two encodings compare equal as double-precision numbers.
pub open spec fn encodings_equal(left: u64, right: u64) -> bool {
    &&& !encodes_nan(left)
    &&& !encodes_nan(right)
    &&& left == right || (encodes_zero(left) && encodes_zero(right))
}

/// Whether the encoding stands for a finite number greater than zero.
pub open spec fn encodes_positive_finite(bits: u64) -> bool {
    0 < bits < INFINITY_BITS
}

impl ScaleFactor {
    /// The scale factor with this double-precision encoding.
    pub closed spec fn of_bits(bits: u64) -> Self {
        ScaleFactor { bits }
    }

    /// The scale factor with this double-precision encoding.
    pub fn from_bits(bits: u64) -> (result: Self)
        ensures
            result@ == bits,
            result == Self::of_bits(bits),
    {
        ScaleFactor { bits }
    }

    /// The double-precision encoding of this scale factor.
    pub fn to_bits(self) -> (bits: u64)
        ensures
            bits == self@,
    {
        self.bits
    }

    /// Whether this is a finite number greater than zero.
    pub fn is_positive_finite(self) -> (result: bool)
        ensures
            result == encodes_positive_finite(self@),
    {
        0 < self.bits && self.bits < INFINITY_BITS
    }
}

impl PartialEq for ScaleFactor {
    fn eq(&self, other: &Self) -> (same: bool) {
        let self_is_nan = (INFINITY_BITS < self.bits && self.bits < SIGN_BIT) || self.bits
            > INFINITY_BITS + SIGN_BIT;
        let other_is_nan = (INFINITY_BITS < other.bits && other.bits < SIGN_BIT) || other.bits
            > INFINITY_BITS + SIGN_BIT;
        let self_is_zero = self.bits == 0 || self.bits == SIGN_BIT;
        let other_is_zero = other.bits == 0 || other.bits == SIGN_BIT;
        !self_is_nan && !other_is_nan && (self.bits == other.bits || (self_is_zero
            && other_is_zero))
    }
}

impl PartialEqSpecImpl for ScaleFactor {
    open spec fn obeys_eq_spec() -> bool {
        true
    }

    open spec fn eq_spec(&self, other: &Self) -> bool {
        encodings_equal(self@, other@)
    }
}

/// A scale factor is its encoding.
pub proof fn scale_factors_are_their_encodings(bits: u64, a: ScaleFactor, b: ScaleFactor)
    ensures
        ScaleFactor::of_bits(bits)@ == bits,
        ScaleFactor::of_bits(a@) == a,
        a == b <==> a@ == b@,
{
}

/// Comparing scale factors is symmetric and transitive, and every positive finite one equals
/// itself and nothing else.
pub proof fn scale_comparison_is_partial_equivalence(a: ScaleFactor, b: ScaleFactor, c: ScaleFactor)
    ensures
        encodings_equal(a@, b@) == encodings_equal(b@, a@),
        encodings_equal(a@, b@) && encodings_equal(b@, c@) ==> encodings_equal(a@, c@),
        encodes_positive_finite(a@) ==> (encodings_equal(a@, b@) <==> a@ == b@),
{
}

/// The encodings are those of the double-precision numbers of IEEE 754: the sign is the first bit, the
/// exponent the next eleven, and the fraction the rest. A number is finite and greater than zero where
/// its sign is clear, its exponent is not all ones, and it is not zero; it is not a number where its
/// exponent is all ones and its fraction is not zero.
pub proof fn encodings_are_those_of_double_precision(bits: u64)
    ensures
        encodes_positive_finite(bits) <==> bits >> 63 == 0 && (bits >> 52) & 0x7ff != 0x7ff && bits
            != 0,
        encodes_nan(bits) <==> (bits >> 52) & 0x7ff == 0x7ff && bits & 0x000f_ffff_ffff_ffff != 0,
        encodes_zero(bits) <==> bits << 1 == 0,
{
    assert(0 < bits && bits < 0x7FF0_0000_0000_0000 <==> bits >> 63 == 0 && (bits >> 52) & 0x7ff
        != 0x7ff && bits != 0) by (bit_vector);
    assert((0x7FF0_0000_0000_0000 < bits && bits < 0x8000_0000_0000_0000) || bits
        > 0xFFF0_0000_0000_0000 <==> (bits >> 52) & 0x7ff == 0x7ff && bits & 0x000f_ffff_ffff_ffff
        != 0) by (bit_vector);
    assert((bits == 0 || bits == 0x8000_0000_0000_0000) <==> bits << 1 == 0) by (bit_vector);
}

/// Scale factors compare as numbers: what is not a number equals nothing, the two zeros equal each
/// other, and any other number equals the numbers with its encoding alone.
pub proof fn scale_factors_compare_as_numbers(left: u64, right: u64)
    ensures
        (left >> 52) & 0x7ff == 0x7ff && left & 0x000f_ffff_ffff_ffff != 0 ==> !encodings_equal(
            left,
            right,
        ) && !encodings_equal(right, left),
        left << 1 == 0 && right << 1 == 0 ==> encodings_equal(left, right),
        left << 1 != 0 && encodings_equal(left, right) ==> left == right,
        left << 1 != 0 && (left >> 52) & 0x7ff != 0x7ff ==> encodings_equal(left, left),
{
    encodings_are_those_of_double_precision(left);
    encodings_are_those_of_double_precision(right);
}

} // verus!
