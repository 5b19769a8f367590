use lease_core::percent::{Percent, Rational, Units};

#[test]
fn percent_safe_mul() {
    assert_eq!(
        Percent::from_permille(410 * 222222 / 1000),
        Percent::from_percent(41).safe_mul(&Percent::from_permille(222222))
    );

    let p_units: Units = 410;
    let p64: u64 = p_units.into();
    let p64_res: u64 = p64 * u64::from(Units::MAX) / 1000;
    let p_units_res: Units = p64_res.try_into().expect("u64 -> Units overflow");
    assert_eq!(
        Percent::from_permille(p_units_res),
        Percent::from_percent(41).safe_mul(&Percent::from_permille(Units::MAX))
    );
}

#[test]
fn safe_mul_hundred_percent() {
    assert_eq!(
        Percent::from_permille(Units::MAX),
        Percent::from_percent(100).safe_mul(&Percent::from_permille(Units::MAX))
    );
    assert_eq!(
        Percent::from_percent(u16::MAX),
        Percent::from_percent(100).safe_mul(&Percent::from_percent(u16::MAX))
    );
}

#[test]
fn rational_safe_mul() {
    let ratio_one = Rational::new(u128::MAX, u128::MAX);
    assert_eq!(
        Percent::from_permille(Units::MAX),
        Percent::from_permille(Units::MAX).safe_mul_fraction(&ratio_one)
    );
}

#[test]
fn safe_mul_overflow_is_refused() {
    assert_eq!(
        None,
        Percent::from_permille(1001).checked_mul(&Percent::from_permille(Units::MAX))
    );
}
