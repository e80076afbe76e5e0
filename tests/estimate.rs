use cube_rooter::estimate::fast_approx_bits;
use cube_rooter::magic::MAGIC64;

fn fast_approx(x: f64) -> f64 {
    f64::from_bits(fast_approx_bits(x.to_bits()))
}

#[test]
fn magic_constant_is_rounded_derivation() {
    assert_eq!(MAGIC64, 0x2A9FA06D3A06D3A0);
    // (1 - 1/3) * 2^52 * (1023 - 0.035) == 2^53 * 1022965 / 3000
    let num: u128 = (1u128 << 53) * 1022965;
    assert_eq!(num / 3000, MAGIC64 as u128);
    assert!(num % 3000 < 1500);
}

#[test]
fn fast_approx_bits_of_zero_is_magic() {
    assert_eq!(fast_approx_bits(0), MAGIC64);
}

#[test]
fn fast_approx_bits_exact_values() {
    assert_eq!(fast_approx_bits(0x3FF0000000000000), 0x3FEF8B1D3A06D3A0);
    assert_eq!(fast_approx_bits(0x4020000000000000), 0x3FFF8B0D3A06D3A0);
    assert_eq!(fast_approx_bits(0x403B000000000000), 0x40088B043A06D3A0);
    assert_eq!(fast_approx_bits(0x408F400000000000), 0x4024A03D7A06D3A0);
}

#[test]
fn fast_approx_bits_largest_pattern() {
    assert_eq!(fast_approx_bits(u64::MAX), 0x7FF4A06D3A06D39C);
}

#[test]
fn fast_approx_bits_near_exact_third() {
    let samples: [u64; 6] = [1, 12, 1000, 0x3FF0000000000000, 0x7FEFFFFFFFFFFFFF, u64::MAX];
    for i in samples {
        let third = fast_approx_bits(i) - MAGIC64;
        assert!(3 * (third as u128) <= i as u128);
        assert!(i as u128 <= 3 * third as u128 + (i / 65536) as u128 + 12);
    }
}

#[test]
fn fast_approx_of_one_is_near_one() {
    let r = fast_approx(1.0);
    assert!((r - 1.0).abs() < 0.05);
    assert!(r != 1.0);
}

#[test]
fn fast_approx_relative_error_small_over_exponent_range() {
    let mut k: i32 = -300;
    while k <= 300 {
        for m in [1.0f64, 1.7, 2.5, 5.0, 9.9] {
            let x = m * 10f64.powi(k);
            let e = x.cbrt();
            let r = fast_approx(x);
            assert!(((r - e) / e).abs() < 0.05, "x = {}", x);
        }
        k += 1;
    }
}

#[test]
fn fast_approx_of_negative_does_not_panic() {
    let r = fast_approx(-8.0);
    let _ = r.is_nan();
}
