use netbench::stats::{bandwidth_le, bandwidth_of, summarize, Bandwidth};

// `a <= b` on exact rational summaries, by cross multiplication.
fn ratio_le(an: u128, ad: u128, bn: u128, bd: u128) -> bool {
    an * bd <= bn * ad
}

#[test]
fn bandwidth_formula_is_exact() {
    // 1_000_000 bytes in one second is exactly 8 Mbit/s.
    let b = bandwidth_of(1_000_000, 1_000_000_000).unwrap();
    assert_eq!(b.num, 8_000_000_000);
    assert_eq!(b.den, 1_000_000_000);
    // bandwidthMbps == S * 8 / elapsedSeconds / 1_000_000, cross-multiplied:
    // num * nanos * 1_000_000 == S * 8 * 1_000_000_000 * den.
    let s: u128 = 1_000_000;
    let nanos: u128 = 1_000_000_000;
    assert_eq!(
        (b.num as u128) * nanos * 1_000_000,
        s * 8 * 1_000_000_000 * (b.den as u128)
    );
}

#[test]
fn bandwidth_formula_is_exact_for_odd_interval() {
    // 1 MiB in 333_333_333 ns: the fraction is kept exactly.
    let b = bandwidth_of(1_048_576, 333_333_333).unwrap();
    assert_eq!(b.num, 1_048_576u64 * 8000);
    assert_eq!(b.den, 333_333_333);
    let s: u128 = 1_048_576;
    let nanos: u128 = 333_333_333;
    assert_eq!(
        (b.num as u128) * nanos * 1_000_000,
        s * 8 * 1_000_000_000 * (b.den as u128)
    );
}

#[test]
fn bandwidth_of_zero_interval_is_rejected() {
    assert_eq!(bandwidth_of(1_000_000, 0), None);
}

#[test]
fn bandwidth_of_huge_payload_is_rejected() {
    // The numerator payload * 8000 must fit in a u64.
    assert_eq!(bandwidth_of(u64::MAX / 8000 + 1, 1_000_000_000), None);
    assert!(bandwidth_of(u64::MAX / 8000, 1_000_000_000).is_some());
}

#[test]
fn bandwidth_le_is_exact() {
    // 1/2 <= 3/1, and 2/4 <= 1/2 (they are equal).
    let half = Bandwidth { num: 1, den: 2 };
    let three = Bandwidth { num: 3, den: 1 };
    let half2 = Bandwidth { num: 2, den: 4 };
    assert!(bandwidth_le(&half, &three));
    assert!(!bandwidth_le(&three, &half));
    assert!(bandwidth_le(&half, &half2));
    assert!(bandwidth_le(&half2, &half));
}

#[test]
fn summarize_integer_samples() {
    // Samples 1, 2, 3 Mbit/s: min 1, max 3, mean exactly 6/3 == 2.
    let samples = vec![
        Bandwidth { num: 2, den: 1 },
        Bandwidth { num: 1, den: 1 },
        Bandwidth { num: 3, den: 1 },
    ];
    let s = summarize(&samples).unwrap();
    assert_eq!(s.minimum, Bandwidth { num: 1, den: 1 });
    assert_eq!(s.maximum, Bandwidth { num: 3, den: 1 });
    assert_eq!(s.average.num * 3, 6 * s.average.den);
}

#[test]
fn summarize_mixed_denominators() {
    // Samples 1/2, 3/1 and 1/1: mean is (1/2 + 3 + 1) / 3 == 3/2.
    let samples = vec![
        Bandwidth { num: 1, den: 2 },
        Bandwidth { num: 3, den: 1 },
        Bandwidth { num: 1, den: 1 },
    ];
    let s = summarize(&samples).unwrap();
    assert_eq!(s.minimum, Bandwidth { num: 1, den: 2 });
    assert_eq!(s.maximum, Bandwidth { num: 3, den: 1 });
    assert_eq!(s.average.num * 2, 3 * s.average.den);
    // minimum <= average <= maximum, as exact rationals.
    assert!(ratio_le(
        s.minimum.num as u128,
        s.minimum.den as u128,
        s.average.num,
        s.average.den
    ));
    assert!(ratio_le(
        s.average.num,
        s.average.den,
        s.maximum.num as u128,
        s.maximum.den as u128
    ));
}

#[test]
fn summarize_single_sample() {
    let samples = vec![Bandwidth { num: 7, den: 3 }];
    let s = summarize(&samples).unwrap();
    assert_eq!(s.minimum, Bandwidth { num: 7, den: 3 });
    assert_eq!(s.maximum, Bandwidth { num: 7, den: 3 });
    assert_eq!(s.average.num, 7);
    assert_eq!(s.average.den, 3);
}

#[test]
fn summarize_equal_samples() {
    let samples = vec![Bandwidth { num: 5, den: 2 }; 4];
    let s = summarize(&samples).unwrap();
    assert_eq!(s.minimum, Bandwidth { num: 5, den: 2 });
    assert_eq!(s.maximum, Bandwidth { num: 5, den: 2 });
    // The mean of four copies of 5/2 is exactly 5/2.
    assert_eq!(s.average.num * 2, 5 * s.average.den);
}

#[test]
fn summarize_overflowing_mean_is_refused() {
    // Denominators so large that the exact common denominator cannot fit.
    let samples = vec![
        Bandwidth { num: 1, den: u64::MAX },
        Bandwidth { num: 1, den: u64::MAX - 1 },
        Bandwidth { num: 1, den: u64::MAX - 2 },
    ];
    assert_eq!(summarize(&samples), None);
}
