use angler::attribute::Attribute;
use angler::depth::Depth;
use angler::error::ReelError;

fn attr(min: u64, max: u64, average: u64) -> Attribute {
    Attribute { min, max, average }
}

#[test]
fn samples_stay_within_range() {
    let a = attr(100, 1000, 400);
    for u in 0..=900 {
        let v = a.sample_at(0, u);
        assert!(100 <= v && v <= 1000);
    }
    for _ in 0..500 {
        let v = a.triangular_rand().unwrap();
        assert!(100 <= v && v <= 1000);
    }
}

#[test]
fn biased_samples_stay_within_range() {
    let a = attr(100, 1000, 400);
    for _ in 0..500 {
        let hi = a.triangular_rand_biased(100).unwrap();
        assert!(100 <= hi && hi <= 1000);
        let lo = a.triangular_rand_biased(-100).unwrap();
        assert!(100 <= lo && lo <= 1000);
    }
}

#[test]
fn bias_shifts_every_sample_monotonically() {
    let a = attr(100, 1000, 400);
    let mut sum_lo: u64 = 0;
    let mut sum_mid: u64 = 0;
    let mut sum_hi: u64 = 0;
    for u in 0..=900 {
        let lo = a.sample_at(-100, u);
        let mid = a.sample_at(0, u);
        let hi = a.sample_at(100, u);
        assert!(lo <= mid && mid <= hi);
        sum_lo += lo;
        sum_mid += mid;
        sum_hi += hi;
    }
    // The sampled mean moves strictly toward max under +1.0 and strictly
    // toward min under -1.0.
    assert!(sum_hi > sum_mid);
    assert!(sum_lo < sum_mid);
}

#[test]
fn zero_bias_changes_nothing() {
    let a = attr(0, 500, 250);
    for u in 0..=500 {
        assert_eq!(a.sample_at(0, u), a.sample_at(0, u));
    }
}

#[test]
fn extreme_draws_pin_the_endpoints() {
    let a = attr(100, 1000, 400);
    assert_eq!(a.sample_at(0, 0), 100);
    assert_eq!(a.sample_at(100, 900), 1000);
    assert_eq!(a.sample_at(-100, 0), 100);
}

#[test]
fn degenerate_attribute_is_rejected() {
    let bad = attr(500, 100, 300);
    assert_eq!(bad.triangular_rand(), Err(ReelError::MathError));
    let bad2 = attr(100, 500, 900);
    assert_eq!(bad2.triangular_rand(), Err(ReelError::MathError));
}

#[test]
fn depth_bands_classify_depths() {
    // 30 ft is shallow, 60 ft starts mid-water, 10,000 ft is hadal.
    assert_eq!(Depth::from_depth(3000), Depth::Shallow);
    assert_eq!(Depth::from_depth(6000), Depth::MidWater);
    assert_eq!(Depth::from_depth(19999), Depth::MidWater);
    assert_eq!(Depth::from_depth(20000), Depth::Deep);
    assert_eq!(Depth::from_depth(100000), Depth::Abyssal);
    assert_eq!(Depth::from_depth(400000), Depth::Hadal);
    assert_eq!(Depth::from_depth(1000000), Depth::Hadal);
}

#[test]
fn depth_band_ranges_and_order() {
    let bands = Depth::iter();
    assert_eq!(
        bands,
        vec![Depth::Shallow, Depth::MidWater, Depth::Deep, Depth::Abyssal, Depth::Hadal]
    );
    assert_eq!(Depth::Shallow.get_range(), (0, 6000));
    assert_eq!(Depth::Hadal.get_range(), (400000, 1000000));
    for _ in 0..100 {
        let d = Depth::Deep.random_depth();
        assert!(20000 <= d && d <= 100000);
    }
}
