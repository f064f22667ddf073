//! Pose bookkeeping around the external perspective-n-point solve: the
//! object-frame model of the square marker, the per-frame tagged outcome,
//! and the distance of the recovered translation.

use vstd::prelude::*;
use crate::fixed::{is_sqrt_floor, isqrt};
use crate::geom::{Mat3, Point3};
use crate::marker::MarkerCandidate;

verus! {

/// A recovered pose: the marker's rotation and translation in the camera
/// frame, in micro-units.
#[derive(Clone, Copy, Debug, PartialEq, Eq, Structural)]
pub struct Pose {
    pub rotation: Mat3,
    pub translation: Point3,
}

/// The verdict of one run of the external pose solver.
#[derive(Clone, Copy, Debug, PartialEq, Eq, Structural)]
pub enum Estimation {
    /// The solver converged on this pose.
    Converged(Pose),
    /// The solver failed or the input was degenerate.
    Diverged,
}

/// The three terminal outcomes of one frame.
#[derive(Clone, Copy, Debug, PartialEq, Eq, Structural)]
pub enum FrameOutcome {
    /// No candidate was offered this frame; a normal outcome, not an error.
    NoMarker,
    /// A marker was selected but its pose could not be estimated. No stale
    /// or default pose stands in.
    EstimationFailed,
    /// The selected marker's pose, exactly as the solver recovered it.
    Tracking(Pose),
}

/// Folds one frame's stages into its outcome. The estimator runs exactly
/// when a candidate was offered, so an empty frame short-circuits to
/// `NoMarker` before any estimation; a diverged estimation yields
/// `EstimationFailed`, never a substitute pose; and a converged estimation
/// is passed through unchanged.
pub fn frame_outcome(cands: &Vec<MarkerCandidate>, est: &Option<Estimation>) -> (r: FrameOutcome)
    requires
        est is Some <==> cands@.len() > 0,
    ensures
        cands@.len() == 0 ==> r == FrameOutcome::NoMarker,
        est matches Some(Estimation::Converged(p)) ==> r == FrameOutcome::Tracking(*p),
        (est matches Some(e) && e == Estimation::Diverged) ==> r == FrameOutcome::EstimationFailed,
{
    match est {
        None => FrameOutcome::NoMarker,
        Some(Estimation::Diverged) => FrameOutcome::EstimationFailed,
        Some(Estimation::Converged(p)) => FrameOutcome::Tracking(*p),
    }
}

/// The four object-frame corners of the square marker, in the winding that
/// matches detector corner order.
#[derive(Clone, Copy, Debug, PartialEq, Eq, Structural)]
pub struct SquareModel {
    pub p0: Point3,
    pub p1: Point3,
    pub p2: Point3,
    pub p3: Point3,
}

/// Builds the object-frame model of a square marker of the given edge
/// length (micro-meters): the four corners at (+-half, +-half, 0), centered
/// on the marker's own origin, in the order that corresponds corner for
/// corner with the detector's image corners. The correspondence of this
/// order with the image order is what makes the recovered pose meaningful.
pub fn square_model(tag_size: i64) -> (s: SquareModel)
    requires
        2 <= tag_size,
    ensures
        s.p0.x == -(tag_size / 2) && s.p0.y == -(tag_size / 2) && s.p0.z == 0,
        s.p1.x == tag_size / 2 && s.p1.y == -(tag_size / 2) && s.p1.z == 0,
        s.p2.x == tag_size / 2 && s.p2.y == tag_size / 2 && s.p2.z == 0,
        s.p3.x == -(tag_size / 2) && s.p3.y == tag_size / 2 && s.p3.z == 0,
{
    let half: i64 = tag_size / 2;
    SquareModel {
        p0: Point3 { x: -half, y: -half, z: 0 },
        p1: Point3 { x: half, y: -half, z: 0 },
        p2: Point3 { x: half, y: half, z: 0 },
        p3: Point3 { x: -half, y: half, z: 0 },
    }
}

/// The distance from the camera to the marker center: the integer square
/// root of the squared norm of the translation, in micro-meters.
pub fn translation_norm(t: &Point3) -> (r: u64)
    ensures
        is_sqrt_floor(r as int, t.x * t.x + t.y * t.y + t.z * t.z),
{
    proof {
        lemma_square_i64_bound(t.x as int);
        lemma_square_i64_bound(t.y as int);
        lemma_square_i64_bound(t.z as int);
    }
    let xx: i128 = (t.x as i128) * (t.x as i128);
    let yy: i128 = (t.y as i128) * (t.y as i128);
    let zz: i128 = (t.z as i128) * (t.z as i128);
    let s: u128 = (xx as u128) + (yy as u128) + (zz as u128);
    let r_wide: u128 = isqrt(s);
    proof {
        assert((r_wide as int) * (r_wide as int) <= s as int);
        assert(r_wide as int <= u64::MAX as int) by (nonlinear_arith)
            requires
                (r_wide as int) * (r_wide as int) <= 3 * 0x8000000000000000i128
                    * 0x8000000000000000i128,
                r_wide >= 0,
        ;
    }
    r_wide as u64
}

/// The square of any `i64` is nonnegative and bounded by the square of the
/// type's magnitude limit.
proof fn lemma_square_i64_bound(a: int)
    by (nonlinear_arith)
    requires
        -0x8000000000000000i128 <= a <= 0x7FFFFFFFFFFFFFFFi128,
    ensures
        0 <= a * a <= 0x8000000000000000i128 * 0x8000000000000000i128,
{
}

} // verus!
