//! Plain geometric value types: image-plane points in micro-pixels, pixel
//! points, object-space points and vectors in micro-meters, and a 3x3 matrix
//! of micro-unit entries.

use vstd::prelude::*;
use crate::fixed::{in_coord_range, MICRO};

verus! {

/// A 2-D image-plane point in micro-pixels.
#[derive(Clone, Copy, Debug, PartialEq, Eq, Structural)]
pub struct ImagePoint {
    pub x: i64,
    pub y: i64,
}

impl ImagePoint {
    /// Both coordinates lie within the range the pipeline accepts.
    pub open spec fn wf(self) -> bool {
        in_coord_range(self.x) && in_coord_range(self.y)
    }
}

/// A 2-D point in whole pixels, ready for rasterization.
#[derive(Clone, Copy, Debug, PartialEq, Eq, Structural)]
pub struct PixelPoint {
    pub x: i64,
    pub y: i64,
}

/// A 3-D point or vector in micro-meters.
#[derive(Clone, Copy, Debug, PartialEq, Eq, Structural)]
pub struct Point3 {
    pub x: i64,
    pub y: i64,
    pub z: i64,
}

/// A 3x3 matrix with micro-unit entries, row major.
#[derive(Clone, Copy, Debug, PartialEq, Eq, Structural)]
pub struct Mat3 {
    pub m00: i64,
    pub m01: i64,
    pub m02: i64,
    pub m10: i64,
    pub m11: i64,
    pub m12: i64,
    pub m20: i64,
    pub m21: i64,
    pub m22: i64,
}

impl Mat3 {
    /// Every entry is a cosine-scale value: at most one whole unit in
    /// magnitude. Rotation matrices satisfy this.
    pub open spec fn unit_range(self) -> bool {
        &&& -MICRO <= self.m00 <= MICRO
        &&& -MICRO <= self.m01 <= MICRO
        &&& -MICRO <= self.m02 <= MICRO
        &&& -MICRO <= self.m10 <= MICRO
        &&& -MICRO <= self.m11 <= MICRO
        &&& -MICRO <= self.m12 <= MICRO
        &&& -MICRO <= self.m20 <= MICRO
        &&& -MICRO <= self.m21 <= MICRO
        &&& -MICRO <= self.m22 <= MICRO
    }

    /// Shape of a well-formed intrinsic matrix: positive diagonal focal
    /// terms and a bottom-right entry of exactly one whole unit.
    pub open spec fn is_intrinsic(self) -> bool {
        &&& self.m00 > 0
        &&& self.m11 > 0
        &&& self.m22 == MICRO
    }
}

} // verus!
