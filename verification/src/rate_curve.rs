//! The reference interest-rate model: a piecewise-linear curve through 2–4
//! `(utilization, rate)` points, validated before it is written and clamped
//! to [`MAX_RATE_BPS`] when read.
use vstd::prelude::*;

use crate::traits::FeeModel;
use crate::wire::Pubkey;

verus! {

/// Maximum number of rate points a curve may hold.
pub const MAX_POINTS: usize = 4;

/// Minimum number of rate points a curve must hold.
pub const MIN_POINTS: usize = 2;

/// Maximum borrow rate any single curve point may specify, and the ceiling
/// of every rate the curve reports: 50% APY.
pub const MAX_RATE_BPS: u32 = 5_000;

/// Why a proposed rate curve was rejected.
#[derive(Debug, PartialEq, Eq, Structural, Clone, Copy)]
pub enum RatePointError {
    /// Wrong number of points, first point not at zero utilization, or
    /// utilizations not strictly increasing.
    InvalidPointList,
    /// A point's rate exceeds [`MAX_RATE_BPS`].
    RateTooHigh,
}

/// Utilizations strictly increase along `points`.
pub open spec fn strictly_increasing(points: Seq<(u16, u32)>) -> bool {
    forall|i: int| 1 <= i < points.len() ==> points[i - 1].0 < #[trigger] points[i].0
}

/// The verdict on a proposed curve, checks taken in order: shape first, then rates.
pub open spec fn rate_points_verdict(points: Seq<(u16, u32)>) -> Result<(), RatePointError> {
    if points.len() < MIN_POINTS || points.len() > MAX_POINTS {
        Err(RatePointError::InvalidPointList)
    } else if points[0].0 != 0 {
        Err(RatePointError::InvalidPointList)
    } else if !strictly_increasing(points) {
        Err(RatePointError::InvalidPointList)
    } else if exists|i: int| 0 <= i < points.len() && #[trigger] points[i].1 > MAX_RATE_BPS {
        Err(RatePointError::RateTooHigh)
    } else {
        Ok(())
    }
}

/// Validate a proposed curve before it is written.
pub fn validate_rate_points(points: &[(u16, u32)]) -> (r: Result<(), RatePointError>)
    ensures
        r == rate_points_verdict(points@),
{
    if points.len() < MIN_POINTS || points.len() > MAX_POINTS {
        return Err(RatePointError::InvalidPointList);
    }
    if points[0].0 != 0 {
        return Err(RatePointError::InvalidPointList);
    }
    let mut i: usize = 1;
    while i < points.len()
        invariant
            1 <= i <= points@.len(),
            forall|j: int| 1 <= j < i ==> points@[j - 1].0 < #[trigger] points@[j].0,
        decreases points@.len() - i,
    {
        if points[i].0 <= points[i - 1].0 {
            return Err(RatePointError::InvalidPointList);
        }
        i = i + 1;
    }
    let mut k: usize = 0;
    while k < points.len()
        invariant
            k <= points@.len(),
            MIN_POINTS <= points@.len() <= MAX_POINTS,
            points@[0].0 == 0,
            strictly_increasing(points@),
            forall|j: int| 0 <= j < k ==> #[trigger] points@[j].1 <= MAX_RATE_BPS,
        decreases points@.len() - k,
    {
        if points[k].1 > MAX_RATE_BPS {
            assert(points@[k as int].1 > MAX_RATE_BPS);
            return Err(RatePointError::RateTooHigh);
        }
        k = k + 1;
    }
    Ok(())
}

/// One `(utilization, rate)` corner of the piecewise-linear curve.
#[derive(Clone, Copy)]
pub struct RatePoint {
    pub rate_bps: u32,
    pub util_bps: u16,
}

impl RatePoint {
    pub fn new(util_bps: u16, rate_bps: u32) -> (r: Self)
        ensures
            r.util_bps == util_bps,
            r.rate_bps == rate_bps,
    {
        RatePoint { rate_bps, util_bps }
    }
}

/// Piecewise-linear IRM defined by 2–4 rate points.
#[derive(Clone, Copy)]
pub struct PiecewiseLinearModel {
    pub points: [RatePoint; MAX_POINTS],
    pub len: u8,
}

/// Integer division truncating toward zero, as `i128` division does.
pub open spec fn trunc_div(a: int, b: int) -> int {
    if a >= 0 {
        a / b
    } else {
        -((-a) / b)
    }
}

/// `v` clamped into `0..=MAX_RATE_BPS`.
pub open spec fn clamp_rate_spec(v: int) -> int {
    if v <= 0 {
        0
    } else if v >= MAX_RATE_BPS {
        MAX_RATE_BPS as int
    } else {
        v
    }
}

impl PiecewiseLinearModel {
    /// The reader's trusted shape: 2–4 points with strictly increasing utilization.
    pub open spec fn well_formed(&self) -> bool {
        &&& MIN_POINTS <= self.len <= MAX_POINTS
        &&& forall|i: int| 1 <= i < self.len ==> self.points@[i - 1].util_bps < #[trigger] self.points@[i].util_bps
    }

    /// Whether the curve has the shape [`Self::get_fee_bps`] trusts.
    pub fn is_well_formed(&self) -> (r: bool)
        ensures
            r == self.well_formed(),
    {
        let len = self.len as usize;
        if len < MIN_POINTS || len > MAX_POINTS {
            return false;
        }
        let mut i: usize = 1;
        while i < len
            invariant
                1 <= i <= len <= MAX_POINTS,
                len == self.len,
                forall|j: int| 1 <= j < i ==> self.points@[j - 1].util_bps < #[trigger] self.points@[j].util_bps,
            decreases len - i,
        {
            if self.points[i - 1].util_bps >= self.points[i].util_bps {
                return false;
            }
            i = i + 1;
        }
        true
    }

    /// The line through points `lo` and `hi`, evaluated at `u`.
    pub open spec fn line_at(&self, lo: int, hi: int, anchor: int, u: int) -> int {
        let u_lo = self.points@[lo].util_bps as int;
        let u_hi = self.points@[hi].util_bps as int;
        let r_lo = self.points@[lo].rate_bps as int;
        let r_hi = self.points@[hi].rate_bps as int;
        let anchor_u = self.points@[anchor].util_bps as int;
        let anchor_r = self.points@[anchor].rate_bps as int;
        anchor_r + trunc_div((r_hi - r_lo) * (u - anchor_u), u_hi - u_lo)
    }

    /// Unclamped rate at `u`, scanning segments from `i`: the first segment
    /// whose upper point lies above `u` is interpolated; past the last point
    /// the final segment is extrapolated.
    pub open spec fn raw_rate_from(&self, u: int, i: int) -> int
        decreases self.len - i,
    {
        if i >= self.len {
            self.line_at(self.len - 2, self.len - 1, self.len - 1, u)
        } else if u < self.points@[i].util_bps {
            self.line_at(i - 1, i, i - 1, u)
        } else {
            self.raw_rate_from(u, i + 1)
        }
    }

    /// Borrow rate at `utilization_bps`, never above [`MAX_RATE_BPS`].
    pub open spec fn rate_at(&self, utilization_bps: u64) -> u32 {
        clamp_rate_spec(self.raw_rate_from(utilization_bps as int, 1)) as u32
    }

    /// Borrow rate at `utilization_bps`: interpolated between the points,
    /// extrapolated past the last one, clamped into `0..=MAX_RATE_BPS`.
    pub fn get_fee_bps(&self, utilization_bps: u64) -> (r: u32)
        requires
            self.well_formed(),
        ensures
            r == self.rate_at(utilization_bps),
            r <= MAX_RATE_BPS,
    {
        let u = utilization_bps as i128;
        let len = self.len as usize;
        let mut i: usize = 1;
        while i < len
            invariant
                self.well_formed(),
                len == self.len,
                u == utilization_bps as i128,
                1 <= i <= len,
                self.raw_rate_from(u as int, 1) == self.raw_rate_from(u as int, i as int),
            decreases len - i,
        {
            let u_hi = self.points[i].util_bps as i128;
            if u < u_hi {
                let u_lo = self.points[i - 1].util_bps as i128;
                let r_lo = self.points[i - 1].rate_bps as i128;
                let r_hi = self.points[i].rate_bps as i128;
                proof {
                    lemma_line_fits(r_hi as int - r_lo as int, u as int - u_lo as int);
                }
                return clamp_rate(r_lo + (r_hi - r_lo) * (u - u_lo) / (u_hi - u_lo));
            }
            i = i + 1;
        }
        let u_hi = self.points[len - 1].util_bps as i128;
        let u_lo = self.points[len - 2].util_bps as i128;
        let r_hi = self.points[len - 1].rate_bps as i128;
        let r_lo = self.points[len - 2].rate_bps as i128;
        proof {
            lemma_line_fits(r_hi as int - r_lo as int, u as int - u_hi as int);
        }
        clamp_rate(r_hi + (r_hi - r_lo) * (u - u_hi) / (u_hi - u_lo))
    }
}

/// A market's rate-curve account: the pool it serves, its curve, and the
/// authority allowed to change the curve.
#[derive(Clone, Copy)]
pub struct IrmConfig {
    pub pool: Pubkey,
    pub model: PiecewiseLinearModel,
    pub authority: Pubkey,
    pub bump: u8,
}

/// The products a curve evaluation forms stay far inside `i128`.
proof fn lemma_line_fits(dr: int, du: int)
    requires
        -0x1_0000_0000 < dr < 0x1_0000_0000,
        -0x1_0000_0000_0000_0000 < du < 0x1_0000_0000_0000_0000,
    ensures
        -0x1_0000_0000_0000_0000_0000_0000 < dr * du < 0x1_0000_0000_0000_0000_0000_0000,
{
    assert(-0x1_0000_0000_0000_0000_0000_0000 < dr * du < 0x1_0000_0000_0000_0000_0000_0000) by (nonlinear_arith)
        requires
            -0x1_0000_0000 < dr < 0x1_0000_0000,
            -0x1_0000_0000_0000_0000 < du < 0x1_0000_0000_0000_0000,
    ;
}

impl FeeModel for PiecewiseLinearModel {
    open spec fn fee_of(&self, utilization_bps: u64) -> u32 {
        self.rate_at(utilization_bps)
    }

    open spec fn model_ok(&self) -> bool {
        self.well_formed()
    }

    fn fee_bps(&self, utilization_bps: u64) -> (r: u32) {
        self.get_fee_bps(utilization_bps)
    }
}

/// Clamp an interpolated rate into `0..=MAX_RATE_BPS`.
fn clamp_rate(v: i128) -> (r: u32)
    ensures
        r == clamp_rate_spec(v as int),
        r <= MAX_RATE_BPS,
{
    if v <= 0 {
        0
    } else if v >= MAX_RATE_BPS as i128 {
        MAX_RATE_BPS
    } else {
        v as u32
    }
}

} // verus!
