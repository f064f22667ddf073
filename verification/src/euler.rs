//! Orientation decomposition: from a rotation matrix to the arctangent
//! arguments of the intrinsic Euler angles, with the gimbal-lock singularity
//! resolved exactly.
//!
//! Each angle of the triple is `atan2(y, x)` of the returned argument pair;
//! evaluating the arctangents (a transcendental step) is left to the caller.
//! The branch decision and every argument are computed and proved exactly.

use vstd::prelude::*;
use crate::fixed::{is_sqrt_floor, isqrt, MICRO};
use crate::geom::Mat3;

verus! {

/// The argument pair of one `atan2(y, x)` evaluation.
#[derive(Clone, Copy, Debug, PartialEq, Eq, Structural)]
pub struct Atan2Args {
    pub y: i64,
    pub x: i64,
}

/// The decomposed orientation: one arctangent argument pair per Euler angle
/// (pitch, yaw, roll), and whether the gimbal-lock branch was taken.
#[derive(Clone, Copy, Debug, PartialEq, Eq, Structural)]
pub struct EulerPlan {
    pub singular: bool,
    pub pitch: Atan2Args,
    pub yaw: Atan2Args,
    pub roll: Atan2Args,
}

/// Decomposes a rotation matrix into intrinsic Euler angle arguments.
///
/// With `sy = sqrt(R00^2 + R20^2)`, the configuration is singular when
/// `sy` falls below one micro-unit, which at this resolution is exactly
/// `R00 == 0 && R20 == 0`. Away from the singularity the angles are
/// `pitch = atan2(R21, R22)`, `yaw = atan2(-R20, sy)`,
/// `roll = atan2(R10, R00)`. At the singularity
/// `pitch = atan2(-R12, R11)`, `yaw = atan2(0, 0)` (zero), and roll is
/// indeterminate: it is fixed to exactly zero by convention, returned as
/// `atan2(0, MICRO)`.
pub fn decompose_rotation(m: &Mat3) -> (p: EulerPlan)
    requires
        m.unit_range(),
    ensures
        p.singular <==> (m.m00 == 0 && m.m20 == 0),
        !p.singular ==> {
            &&& p.pitch == (Atan2Args { y: m.m21, x: m.m22 })
            &&& p.yaw.y == -m.m20
            &&& is_sqrt_floor(p.yaw.x as int, m.m00 * m.m00 + m.m20 * m.m20)
            &&& p.roll == (Atan2Args { y: m.m10, x: m.m00 })
        },
        p.singular ==> {
            &&& p.pitch.y == -m.m12
            &&& p.pitch.x == m.m11
            &&& p.yaw == (Atan2Args { y: 0, x: 0 })
            &&& p.roll == (Atan2Args { y: 0, x: MICRO })
        },
{
    proof {
        lemma_unit_square_bound(m.m00 as int);
        lemma_unit_square_bound(m.m20 as int);
    }
    let s2: i64 = m.m00 * m.m00 + m.m20 * m.m20;
    if s2 == 0 {
        proof {
            lemma_zero_sum_of_squares(m.m00 as int, m.m20 as int);
        }
        EulerPlan {
            singular: true,
            pitch: Atan2Args { y: -m.m12, x: m.m11 },
            yaw: Atan2Args { y: 0, x: 0 },
            roll: Atan2Args { y: 0, x: MICRO },
        }
    } else {
        let sy_wide: u128 = isqrt(s2 as u128);
        proof {
            assert((sy_wide as int) * (sy_wide as int) <= s2 as int);
            assert(sy_wide as int <= 1_500_000) by (nonlinear_arith)
                requires
                    (sy_wide as int) * (sy_wide as int) <= 2_000_000_000_000,
                    sy_wide >= 0,
            ;
        }
        let sy: i64 = sy_wide as i64;
        EulerPlan {
            singular: false,
            pitch: Atan2Args { y: m.m21, x: m.m22 },
            yaw: Atan2Args { y: -m.m20, x: sy },
            roll: Atan2Args { y: m.m10, x: m.m00 },
        }
    }
}

/// The square of a unit-range entry stays within one squared unit.
proof fn lemma_unit_square_bound(a: int)
    by (nonlinear_arith)
    requires
        -1_000_000 <= a <= 1_000_000,
    ensures
        0 <= a * a <= 1_000_000_000_000,
{
}

/// A sum of two squares vanishes only when both squares do.
proof fn lemma_zero_sum_of_squares(a: int, b: int)
    by (nonlinear_arith)
    requires
        a * a + b * b == 0,
    ensures
        a == 0 && b == 0,
{
}

} // verus!
