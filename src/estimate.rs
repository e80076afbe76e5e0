use vstd::prelude::*;

use crate::magic::MAGIC64;

verus! {

/// Division by three approximated with truncating power-of-two divisions:
/// `i * (1/4 + 1/16)`, refined by the factors `1 + 1/16` and `1 + 1/256`.
/// The factors multiply to `(1 - 2^-16) / 3`.
pub open spec fn approx_third(i: int) -> int {
    let a = i / 4 + i / 16;
    let b = a + a / 16;
    b + b / 256
}

/// Bit pattern of the integer-only estimate for the cube root of the value
/// whose bit pattern is `i`.
pub open spec fn fast_estimate(i: int) -> int {
    MAGIC64 + approx_third(i)
}

/// Bit pattern of the estimate made with an exact (truncating) division by three.
pub open spec fn linear_estimate(i: int) -> int {
    MAGIC64 + i / 3
}

/// The shift-and-add division never exceeds a third, and falls short of it by
/// at most a 2^-16 part of the operand plus a small truncation loss:
/// `3 * approx_third(i) <= i <= 3 * approx_third(i) + i / 65536 + 12`.
pub proof fn lemma_approx_third_bounds(i: int)
    requires
        0 <= i,
    ensures
        0 <= approx_third(i),
        3 * approx_third(i) <= i,
        i <= 3 * approx_third(i) + i / 65536 + 12,
{
    let a = i / 4 + i / 16;
    let b = a + a / 16;
    let c = b + b / 256;
    assert(5 * i - 27 <= 16 * a <= 5 * i);
    assert(17 * a - 15 <= 16 * b <= 17 * a);
    assert(257 * b - 255 <= 256 * c <= 257 * b);
    assert(85 * i - 699 <= 256 * b <= 85 * i);
    assert(21845 * i - 244923 <= 65536 * c <= 21845 * i);
}

/// The integer-only estimate stays below the estimate made with an exact
/// division by three, and within `i / 196608 + 4` of it.
pub proof fn lemma_fast_estimate_near_linear(i: u64)
    ensures
        fast_estimate(i as int) <= linear_estimate(i as int),
        linear_estimate(i as int) - fast_estimate(i as int) <= i / 196608 + 4,
{
    lemma_approx_third_bounds(i as int);
}

/// The cube-root estimate of the integer-only strategy, on bit patterns: the
/// operand's bit pattern divided by about three with shifts and adds, plus
/// `MAGIC64`. The caller reinterprets the result as a binary64 value.
pub fn fast_approx_bits(i: u64) -> (r: u64)
    ensures
        r == fast_estimate(i as int),
{
    proof {
        lemma_approx_third_bounds(i as int);
    }
    let mut j: u64 = i / 4 + i / 16;
    j = j + j / 16;
    j = j + j / 256;
    j + MAGIC64
}

} // verus!
