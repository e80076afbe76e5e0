use vstd::prelude::*;

verus! {

/// Additive constant of the cube-root bit transform, in bit-pattern units.
pub const MAGIC64: u64 = 0x2A9FA06D3A06D3A0;

/// The real value `(1 - p) * L * (B - o)` for a rational exponent
/// `p = p_num / p_den`, mantissa scale `L = 2^mantissa_bits`, exponent bias `B`
/// and offset `o = o_num / o_den`, scaled to a fraction `num / den`:
/// returns `(num, den)`.
pub open spec fn magic_fraction(
    p_num: int,
    p_den: int,
    mantissa_bits: nat,
    bias: int,
    o_num: int,
    o_den: int,
) -> (int, int) {
    (
        (p_den - p_num) * vstd::arithmetic::power2::pow2(mantissa_bits) as int * (bias * o_den - o_num),
        p_den * o_den,
    )
}

/// Whether `m` is a nearest integer to the non-negative fraction `num / den`.
pub open spec fn rounds_to(num: int, den: int, m: int) -> bool {
    &&& 2 * m * den <= 2 * num + den
    &&& 2 * num <= 2 * m * den + den
}

/// The constant is the derivation for the cube root of a binary64 value,
/// `(1 - 1/3) * 2^52 * (1023 - 0.035)`, rounded to the nearest integer
/// (the fraction is in fact an integer plus less than a half).
pub proof fn lemma_magic_derivation()
    ensures
        rounds_to(
            magic_fraction(1, 3, 52, 1023, 35, 1000).0,
            magic_fraction(1, 3, 52, 1023, 35, 1000).1,
            MAGIC64 as int,
        ),
        MAGIC64 * magic_fraction(1, 3, 52, 1023, 35, 1000).1
            <= magic_fraction(1, 3, 52, 1023, 35, 1000).0,
{
    vstd::arithmetic::power2::lemma2_to64_rest();
    let l = vstd::arithmetic::power2::pow2(52) as int;
    assert(l == 0x10_0000_0000_0000);
    let f = magic_fraction(1, 3, 52, 1023, 35, 1000);
    assert(f.0 == 2 * 0x10_0000_0000_0000 * 1022965);
    assert(f.1 == 3000);
}

} // verus!
