//! Comparison of binary64 values held by their IEEE-754 bits.
//!
//! Rates and loads arrive as `f64`; the library holds them as the bits
//! (`f64::to_bits`) and compares them as IEEE-754, and so Rust's `<` on
//! `f64`, does.

use vstd::prelude::*;

verus! {

/// Whether the binary64 value with bits `b` is negative-signed.
pub open spec fn f64_negative(b: u64) -> bool {
    b >= 0x8000_0000_0000_0000
}

/// The bits of a binary64 value without its sign: exponent and fraction.
pub open spec fn f64_magnitude(b: u64) -> u64 {
    (b % 0x8000_0000_0000_0000) as u64
}

/// Whether the bits are a NaN: all exponent bits set, fraction non-zero.
pub open spec fn f64_is_nan(b: u64) -> bool {
    f64_magnitude(b) > 0x7ff0_0000_0000_0000
}

/// `a < b` for the binary64 values with bits `a` and `b`, as IEEE-754 (and
/// Rust's `<` on `f64`) orders them: false when either is NaN, the two
/// zeros are equal, and among values of one sign the magnitude bits order
/// them.
pub open spec fn f64_lt(a: u64, b: u64) -> bool {
    if f64_is_nan(a) || f64_is_nan(b) {
        false
    } else if f64_magnitude(a) == 0 && f64_magnitude(b) == 0 {
        false
    } else if !f64_negative(a) && !f64_negative(b) {
        f64_magnitude(a) < f64_magnitude(b)
    } else if f64_negative(a) && f64_negative(b) {
        f64_magnitude(b) < f64_magnitude(a)
    } else {
        f64_negative(a)
    }
}

/// `<` on two binary64 values given by their bits.
pub fn f64_bits_lt(a: u64, b: u64) -> (r: bool)
    ensures
        r == f64_lt(a, b),
{
    let sign: u64 = 0x8000_0000_0000_0000;
    let ma = a % sign;
    let mb = b % sign;
    if ma > 0x7ff0_0000_0000_0000 || mb > 0x7ff0_0000_0000_0000 {
        false
    } else if ma == 0 && mb == 0 {
        false
    } else if a < sign && b < sign {
        ma < mb
    } else if a >= sign && b >= sign {
        mb < ma
    } else {
        a >= sign
    }
}

/// `<` on the binary64 values is a strict order away from NaN: never
/// reflexive, never both ways, and transitive.
pub proof fn lemma_f64_lt_strict_order(a: u64, b: u64, c: u64)
    ensures
        !f64_lt(a, a),
        !(f64_lt(a, b) && f64_lt(b, a)),
        f64_lt(a, b) && f64_lt(b, c) ==> f64_lt(a, c),
        f64_is_nan(a) ==> !f64_lt(a, b) && !f64_lt(b, a),
{
}

} // verus!
