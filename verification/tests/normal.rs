use drag_normal::normal::{clamp, NormalParam, NormalizedValue, FULL_SCALE};

#[test]
fn clamp_keeps_values_in_range() {
    assert_eq!(clamp(0).steps(), 0);
    assert_eq!(clamp(1).steps(), 1);
    assert_eq!(clamp(596_250_000).steps(), 596_250_000);
    assert_eq!(clamp(FULL_SCALE as i64 - 1).steps(), FULL_SCALE - 1);
    assert_eq!(clamp(FULL_SCALE as i64).steps(), FULL_SCALE);
}

#[test]
fn clamp_sends_negative_to_zero() {
    assert_eq!(clamp(-1).steps(), 0);
    assert_eq!(clamp(-200_000_000).steps(), 0);
    assert_eq!(clamp(i64::MIN).steps(), 0);
}

#[test]
fn clamp_sends_large_to_full_scale() {
    assert_eq!(clamp(FULL_SCALE as i64 + 1).steps(), FULL_SCALE);
    assert_eq!(clamp(1_200_000_000).steps(), FULL_SCALE);
    assert_eq!(clamp(u32::MAX as i64 + 5).steps(), FULL_SCALE);
    assert_eq!(clamp(i64::MAX).steps(), FULL_SCALE);
}

#[test]
fn new_clamps_like_clamp() {
    for x in [i64::MIN, -7, 0, 3, 999_999_999, 1_000_000_000, 1_000_000_001, i64::MAX] {
        assert_eq!(NormalizedValue::new(x), clamp(x));
    }
}

#[test]
fn named_values() {
    assert_eq!(FULL_SCALE, 1_000_000_000);
    assert_eq!(NormalizedValue::min().steps(), 0);
    assert_eq!(NormalizedValue::max().steps(), 1_000_000_000);
    assert_eq!(NormalizedValue::center().steps(), 500_000_000);
}

#[test]
fn values_at_the_same_step_are_equal() {
    assert_eq!(NormalizedValue::new(42), NormalizedValue::new(42));
    assert_ne!(NormalizedValue::new(42), NormalizedValue::new(43));
    assert_eq!(NormalizedValue::new(-5), NormalizedValue::min());
}

#[test]
fn normal_param_holds_value_and_default() {
    let p = NormalParam { value: clamp(500_000_000), default: clamp(300_000_000) };
    assert_eq!(p.value.steps(), 500_000_000);
    assert_eq!(p.default.steps(), 300_000_000);
}
