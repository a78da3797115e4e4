//! Scenarios for the piecewise-linear rate curve and its validation.

use calma::rate_curve::{
    validate_rate_points, PiecewiseLinearModel, RatePoint, RatePointError, MAX_POINTS, MAX_RATE_BPS, MIN_POINTS,
};

fn model(pts: &[(u16, u32)]) -> PiecewiseLinearModel {
    assert!(pts.len() >= MIN_POINTS && pts.len() <= MAX_POINTS);
    let mut points = [RatePoint::new(0, 0); MAX_POINTS];
    for (i, (u, r)) in pts.iter().enumerate() {
        points[i] = RatePoint::new(*u, *r);
    }
    PiecewiseLinearModel { points, len: pts.len() as u8 }
}

#[test]
fn zero_utilization_returns_first_rate() {
    assert_eq!(model(&[(0, 250), (10_000, 750)]).get_fee_bps(0), 250);
}

#[test]
fn two_point_linear_interpolation() {
    let m = model(&[(0, 0), (10_000, 1_000)]);
    assert_eq!(m.get_fee_bps(0), 0);
    assert_eq!(m.get_fee_bps(2_500), 250);
    assert_eq!(m.get_fee_bps(5_000), 500);
    assert_eq!(m.get_fee_bps(10_000), 1_000);
}

#[test]
fn three_point_default_curve() {
    let m = model(&[(0, 0), (9_500, 428), (10_000, 828)]);
    assert_eq!(m.get_fee_bps(0), 0);
    // half-way to kink: 428 * 4750 / 9500 = 214
    assert_eq!(m.get_fee_bps(4_750), 214);
    assert_eq!(m.get_fee_bps(9_500), 428);
    // half-way between kink and 100%: (428 + 828) / 2 = 628
    assert_eq!(m.get_fee_bps(9_750), 628);
    assert_eq!(m.get_fee_bps(10_000), 828);
}

#[test]
fn four_point_curve() {
    let m = model(&[(0, 100), (2_500, 300), (7_500, 500), (10_000, 1_200)]);
    assert_eq!(m.get_fee_bps(0), 100);
    assert_eq!(m.get_fee_bps(2_500), 300);
    assert_eq!(m.get_fee_bps(7_500), 500);
    assert_eq!(m.get_fee_bps(10_000), 1_200);
    // midpoint of last segment: (500 + 1_200) / 2 = 850
    assert_eq!(m.get_fee_bps(8_750), 850);
}

#[test]
fn extrapolates_above_last_point() {
    let m = model(&[(0, 0), (9_500, 428), (10_000, 828)]);
    // slope of last segment: (828 - 428) / 500 = 0.8 bps per bp of util
    assert_eq!(m.get_fee_bps(10_500), 1_228);
    assert_eq!(m.get_fee_bps(11_000), 1_628);
}

#[test]
fn never_exceeds_max_rate_however_steep_the_curve() {
    // A curve whose points are individually within the cap but whose last
    // segment is near-vertical: 5_000 bps of rate across 1 bp of utilization.
    // Both points validate, so this is a curve an IRM authority can actually
    // set — the clamp is what stops it reaching 50_000_000 bps at full
    // utilization.
    let steep = model(&[(0, 0), (1, MAX_RATE_BPS)]);
    assert_eq!(validate_rate_points(&[(0, 0), (1, MAX_RATE_BPS)]), Ok(()));
    assert_eq!(steep.get_fee_bps(10_000), MAX_RATE_BPS);
    assert_eq!(steep.get_fee_bps(1_000_000), MAX_RATE_BPS);

    // Points beyond the cap can't be written by the program, but the reader
    // must stay bounded even if one somehow existed.
    let m = model(&[(0, u32::MAX - 10), (10_000, u32::MAX)]);
    assert_eq!(m.get_fee_bps(100_000), MAX_RATE_BPS);
}


#[test]
fn accepts_a_well_formed_curve() {
    assert_eq!(validate_rate_points(&[(0, 0), (10_000, 500)]), Ok(()));
}

#[test]
fn rejects_wrong_point_count() {
    assert_eq!(
        validate_rate_points(&[(0, 0)]),
        Err(RatePointError::InvalidPointList)
    );
    assert_eq!(
        validate_rate_points(&[(0, 0), (1, 1), (2, 2), (3, 3), (4, 4)]),
        Err(RatePointError::InvalidPointList)
    );
}

#[test]
fn rejects_curve_not_anchored_at_zero_utilization() {
    assert_eq!(
        validate_rate_points(&[(1, 0), (10_000, 500)]),
        Err(RatePointError::InvalidPointList)
    );
}

#[test]
fn rejects_non_increasing_utilization() {
    assert_eq!(
        validate_rate_points(&[(0, 0), (5_000, 100), (5_000, 200)]),
        Err(RatePointError::InvalidPointList)
    );
}

#[test]
fn rejects_a_rate_above_the_ceiling() {
    assert_eq!(
        validate_rate_points(&[(0, 0), (10_000, MAX_RATE_BPS + 1)]),
        Err(RatePointError::RateTooHigh)
    );
    assert_eq!(validate_rate_points(&[(0, 0), (10_000, MAX_RATE_BPS)]), Ok(()));
}
