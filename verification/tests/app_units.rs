use servo::app_unit::Au;

fn reference(v: i32) -> app_units::Au {
    app_units::Au(v)
}

#[test]
fn sums_saturate_like_app_units() {
    let half = Au::max_au().half();
    let mut s = half;
    let mut r = app_units::MAX_AU / 2;
    for _ in 0..4 {
        s = s.plus(half);
        r = r + app_units::MAX_AU / 2;
    }
    assert_eq!(s.0, r.0);
    assert_eq!(s, Au::max_au());
    assert_eq!(Au::min_au().minus(Au(1)), Au::min_au());
    assert_eq!(Au(7).plus(Au(5)), Au(12));
    assert_eq!(Au(7).minus(Au(5)), Au(2));
}

#[test]
fn halves_round_toward_zero_like_app_units() {
    for v in [-7, -6, -1, 0, 1, 5, 14] {
        assert_eq!(Au(v).half().0, (reference(v) / 2).0);
    }
}

#[test]
fn new_clamps() {
    assert_eq!(Au::new(i32::MAX), Au::max_au());
    assert_eq!(Au::new(i32::MIN), Au::min_au());
    assert_eq!(Au::new(7).0, app_units::Au::new(7).0);
    assert_eq!(Au(3).max(Au(-4)), Au(3));
    assert_eq!(Au(3).min(Au(-4)), Au(-4));
    assert!(Au::zero().is_zero());
}
