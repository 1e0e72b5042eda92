use metering::calendar::CalendarDate;
use metering::decimal::Dec;
use metering::gas_slp::{
    allocation_temperature, checked_allocation_temperature, checked_kundenwert, gas_daily_quantity, kundenwert,
    WeekdayFactors,
};
use metering::holiday::Bundesland;

fn d(num: i64, scale: u32) -> Dec {
    Dec::new(num, scale)
}

fn date(y: i32, m: u8, day: u8) -> CalendarDate {
    CalendarDate::new(y, m, day).unwrap()
}

/// The DE_HEF34 profile function, evaluated in floating point as the
/// Leitfaden's sigmoid needs, and brought back as a decimal of six places.
fn h_value_de_hef34(theta: Dec) -> Dec {
    let (a, b, c, dd, theta0) = (1.381_966_3_f64, -37.412_415_5_f64, 6.172_317_9_f64, 0.039_628_4_f64, 40.0_f64);
    let (m_h, b_h, m_w, b_w) = (-0.067_215_9_f64, 1.116_713_8_f64, -0.001_998_2_f64, 0.135_507_0_f64);
    let t = theta.mantissa() as f64 / 10f64.powi(theta.scale() as i32);
    let sigmoid = if t < theta0 {
        let ratio = b / (t - theta0);
        if ratio > 0.0 && ratio.is_finite() { a / (1.0 + ratio.powf(c)) + dd } else { dd }
    } else {
        dd
    };
    let linear = (m_h * t + b_h).max(m_w * t + b_w);
    let h = (sigmoid + linear).max(0.0);
    let v = rust_decimal::Decimal::try_from(h).unwrap().round_dp(6);
    Dec::from_i128_with_scale(v.mantissa(), v.scale())
}

fn sum(xs: &[Dec]) -> Dec {
    Dec::checked_sum(xs).unwrap()
}

fn gewerbe() -> WeekdayFactors {
    WeekdayFactors::new([d(10203, 4), d(10253, 4), d(10303, 4), d(10253, 4), d(10253, 4), d(9500, 4), d(9235, 4)])
        .unwrap()
}

#[test]
fn the_allocation_temperature_is_the_geometric_series() {
    // Constant weather is a fixed point.
    assert_eq!(allocation_temperature(d(5, 0), d(5, 0), d(5, 0), d(5, 0)), d(5, 0));
    // (8·5 + 4·2.5 + 2·2.5 + 5) / 15 = 60 / 15 = 4 exactly.
    assert_eq!(allocation_temperature(d(5, 0), d(25, 1), d(25, 1), d(5, 0)), d(4, 0));
    // The delivery day dominates: more than half the weight is D and D−1.
    let cold_snap = allocation_temperature(d(-10, 0), d(0, 0), d(10, 0), d(10, 0));
    assert!(cold_snap.lt(&d(-2, 0)), "got {cold_snap:?}");
}

#[test]
fn weekday_factors_must_sum_to_seven() {
    assert!(WeekdayFactors::new([Dec::one(); 7]).is_some());
    assert!(
        WeekdayFactors::new([d(10203, 4), d(10253, 4), d(10303, 4), d(10253, 4), d(10253, 4), d(9500, 4), d(9235, 4)])
            .is_some(),
        "a realistic Gewerbe set summing to 7.0000"
    );
    assert!(WeekdayFactors::new([d(11, 1); 7]).is_none(), "7.7 is not a standard week");
}

#[test]
fn holidays_take_the_sunday_factor() {
    let factors = gewerbe();

    // An ordinary Thursday.
    assert_eq!(factors.for_date(date(2026, 6, 11), None), d(10253, 4));

    // Christi Himmelfahrt 2026 is a Thursday and nationwide.
    assert_eq!(factors.for_date(date(2026, 5, 14), None), d(9235, 4));

    // Fronleichnam is not nationwide: the default calendar leaves it a
    // Thursday, the Bavarian calendar makes it a Sunday.
    let fronleichnam = date(2026, 6, 4);
    assert_eq!(factors.for_date(fronleichnam, None), d(10253, 4));
    assert_eq!(factors.for_date(fronleichnam, Some(Bundesland::By)), d(9235, 4));

    // Households carry no weekday dependence at all.
    assert_eq!(WeekdayFactors::NONE().for_date(fronleichnam, Some(Bundesland::By)), Dec::one());
}

#[test]
fn kundenwert_follows_the_leitfaden_definition() {
    // 8 500 kWh over a reference period whose h·F sum is 140.8654.
    let kw = kundenwert(d(8500, 0), d(1408654, 4)).unwrap();
    assert_eq!(kw, d(603413, 4), "8500 / 140.8654 to four places");
    assert_eq!(kundenwert(d(8500, 0), Dec::zero()), None);
    assert_eq!(kundenwert(d(8500, 0), d(-1, 0)), None);
}

#[test]
fn the_daily_quantity_reconstructs_the_reference_consumption() {
    let temps = [d(-2, 0), d(15, 1), d(4, 0), d(9, 0), d(135, 1)];

    let hs: Vec<Dec> = temps.iter().map(|&t| h_value_de_hef34(t)).collect();
    let hf_sum = sum(&hs);
    let measured = d(500, 0);
    let kw = kundenwert(measured, hf_sum).unwrap();

    let reallocated: Vec<Dec> = hs.iter().map(|&h| gas_daily_quantity(kw, h, Dec::one())).collect();
    let total = sum(&reallocated);
    let error = total.checked_sub(&measured).unwrap().abs();
    assert!(error.lt(&d(1, 2)), "round trip must close to within rounding: {total:?} vs {measured:?}");
}

// ── further cases ─────────────────────────────────────────────────────────────

#[test]
fn a_weekday_factor_is_looked_up_by_day() {
    let factors = gewerbe();
    // 2026-06-06 is a Saturday, 2026-06-07 a Sunday.
    assert_eq!(factors.for_date(date(2026, 6, 6), None), d(9500, 4));
    assert_eq!(factors.for_date(date(2026, 6, 7), None), d(9235, 4));
    // Christi Himmelfahrt is a holiday in every Land too.
    assert_eq!(factors.for_date(date(2026, 5, 14), Some(Bundesland::Be)), d(9235, 4));
}

#[test]
fn overflows_are_reported_by_the_checked_forms() {
    let huge = Dec::from_i128_with_scale(79_228_162_514_264_337_593_543_950_335, 0);
    assert_eq!(checked_allocation_temperature(huge, d(0, 0), d(0, 0), d(0, 0)), None);
    assert_eq!(checked_allocation_temperature(d(5, 0), d(5, 0), d(5, 0), d(5, 0)), Some(d(5, 0)));
    assert_eq!(checked_kundenwert(huge, d(1, 28)), None);
    assert_eq!(checked_kundenwert(d(8500, 0), Dec::zero()), Some(None));
    assert_eq!(WeekdayFactors::checked_new([huge; 7]), None);
}
