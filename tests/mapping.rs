use starplug::bounds::{validate_bounds, Bounds, BoundsError, DEFAULT_MAX, DEFAULT_MIN};
use starplug::intensity::{intensity, Level};

fn as_fraction(l: Level) -> f64 {
    l.num as f64 / l.den as f64
}

#[test]
fn intensities_for_a_sample_sequence() {
    let got: Vec<f64> = [0, 40, 70, 100, 150]
        .iter()
        .map(|s| as_fraction(intensity(*s, 40, 100)))
        .collect();
    assert_eq!(got, vec![0.0, 0.0, 0.5, 1.0, 1.0]);
}

#[test]
fn intensity_bounds_are_zero_and_one() {
    assert_eq!(intensity(7, 7, 19), Level { num: 0, den: 12 });
    assert_eq!(intensity(19, 7, 19), Level { num: 12, den: 12 });
    assert_eq!(intensity(0, 0, 1), Level { num: 0, den: 1 });
    assert_eq!(intensity(1, 0, 1), Level { num: 1, den: 1 });
}

#[test]
fn intensity_exact_fraction() {
    assert_eq!(intensity(55, 40, 100), Level { num: 15, den: 60 });
    assert_eq!(as_fraction(intensity(55, 40, 100)), 0.25);
}

#[test]
fn intensity_is_monotone_on_a_range() {
    let mut prev = 0u32;
    for s in -50..200 {
        let l = intensity(s, 40, 100);
        assert!(l.num >= prev);
        assert!(l.num <= l.den);
        prev = l.num;
    }
}

#[test]
fn intensity_extreme_samples() {
    assert_eq!(intensity(i32::MIN, 0, i32::MAX), Level { num: 0, den: i32::MAX as u32 });
    assert_eq!(intensity(i32::MAX, 0, i32::MAX), Level { num: i32::MAX as u32, den: i32::MAX as u32 });
}

#[test]
fn bounds_defaults_are_valid() {
    assert_eq!(
        validate_bounds(DEFAULT_MIN, DEFAULT_MAX),
        Ok(Bounds { min: 40, max: 100 })
    );
}

#[test]
fn bounds_max_not_above_min() {
    assert_eq!(validate_bounds(50, 50), Err(BoundsError::MaxNotAboveMin));
    assert_eq!(validate_bounds(60, 50), Err(BoundsError::MaxNotAboveMin));
    assert_eq!(validate_bounds(-1, -5), Err(BoundsError::MaxNotAboveMin));
    assert_eq!(
        BoundsError::MaxNotAboveMin.message(),
        "Max APM must be strictly greater than min APM!"
    );
}

#[test]
fn bounds_negative_min() {
    assert_eq!(validate_bounds(-1, 10), Err(BoundsError::NegativeMin));
    assert_eq!(
        BoundsError::NegativeMin.message(),
        "APM values cannot be negative!"
    );
}
