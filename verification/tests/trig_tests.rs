use particlez::trig::{cos_mdeg, sin_mdeg, FULL_TURN_MDEG, TRIG_ONE};

#[test]
fn sine_cardinal_angles_exact() {
    assert_eq!(sin_mdeg(0), 0);
    assert_eq!(sin_mdeg(90_000), TRIG_ONE);
    assert_eq!(sin_mdeg(180_000), 0);
    assert_eq!(sin_mdeg(270_000), -TRIG_ONE);
    assert_eq!(sin_mdeg(-90_000), -TRIG_ONE);
}

#[test]
fn cosine_cardinal_angles_exact() {
    assert_eq!(cos_mdeg(0), TRIG_ONE);
    assert_eq!(cos_mdeg(90_000), 0);
    assert_eq!(cos_mdeg(180_000), -TRIG_ONE);
    assert_eq!(cos_mdeg(270_000), 0);
}

#[test]
fn sine_thirty_degrees_is_half() {
    // the rational approximation is exact at thirty degrees
    assert_eq!(sin_mdeg(30_000), TRIG_ONE / 2);
    assert_eq!(cos_mdeg(60_000), TRIG_ONE / 2);
}

#[test]
fn sine_is_periodic() {
    for &m in &[0i64, 12_345, 200_000, -77_000] {
        assert_eq!(sin_mdeg(m), sin_mdeg(m + FULL_TURN_MDEG));
        assert_eq!(sin_mdeg(m), sin_mdeg(m - FULL_TURN_MDEG));
        assert_eq!(cos_mdeg(m), cos_mdeg(m + FULL_TURN_MDEG));
    }
}

#[test]
fn sine_stays_in_scale() {
    let mut m: i64 = -400_000;
    while m <= 400_000 {
        let s = sin_mdeg(m);
        let c = cos_mdeg(m);
        assert!(-TRIG_ONE <= s && s <= TRIG_ONE);
        assert!(-TRIG_ONE <= c && c <= TRIG_ONE);
        m += 1_733;
    }
}
