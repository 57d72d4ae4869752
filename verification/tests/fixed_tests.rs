use ems::fixed::Milli;

#[test]
fn from_units_scales_by_a_thousand() {
    assert_eq!(Milli::from_units(12), Milli { thousandths: 12_000 });
    assert_eq!(Milli::from_units(-3), Milli { thousandths: -3_000 });
    assert_eq!(Milli::from_units(i32::MAX).thousandths, 2_147_483_647_000);
    assert_eq!(Milli::from_thousandths(10_800), Milli { thousandths: 10_800 });
}

#[test]
fn whole_rounds_toward_zero() {
    assert_eq!(Milli { thousandths: 1_999 }.whole(), 1);
    assert_eq!(Milli { thousandths: -1_999 }.whole(), -1);
    assert_eq!(Milli { thousandths: 999 }.whole(), 0);
    assert_eq!(Milli { thousandths: -999 }.whole(), 0);
    assert_eq!(Milli { thousandths: 5_000 }.whole(), 5);
    assert_eq!(Milli { thousandths: i64::MIN }.whole(), -9_223_372_036_854_775);
    assert_eq!(Milli { thousandths: i64::MAX }.whole(), 9_223_372_036_854_775);
}

#[test]
fn truncated_i32_matches_a_float_cast() {
    let samples: Vec<f64> = vec![0.0, 0.9, -0.9, 1234.567, -1234.567, 2147483647.0, 2147483648.5, -2147483648.0, -2147483649.5, 9.0e12, -9.0e12];
    for x in samples {
        let m = Milli { thousandths: (x * 1000.0).round() as i64 };
        assert_eq!(m.truncated_i32(), x as i32);
    }
}

#[test]
fn default_quantity_is_zero() {
    assert_eq!(Milli::default(), Milli { thousandths: 0 });
}

#[test]
fn nearest_rounds_a_half_away_from_zero() {
    assert_eq!(Milli { thousandths: 1_499 }.nearest(), 1);
    assert_eq!(Milli { thousandths: 1_500 }.nearest(), 2);
    assert_eq!(Milli { thousandths: -1_499 }.nearest(), -1);
    assert_eq!(Milli { thousandths: -1_500 }.nearest(), -2);
    assert_eq!(Milli { thousandths: 0 }.nearest(), 0);
    assert_eq!(Milli { thousandths: 499 }.nearest(), 0);
    assert_eq!(Milli { thousandths: -499 }.nearest(), 0);
    let samples: Vec<i64> = vec![0, 1, 499, 500, 501, 999, 1000, 123_456, -1, -500, -501, -123_456];
    for t in samples {
        assert_eq!(Milli { thousandths: t }.nearest(), (t as f64 / 1000.0).round() as i64);
    }
}
