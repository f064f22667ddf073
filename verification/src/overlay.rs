//! Overlay geometry: the reference tripod projected for visual feedback,
//! the pixel rounding of outline corners, and the marker's image centroid.
//! Rasterization itself is an external collaborator; this module computes
//! exactly which pixels it is handed.

use vstd::prelude::*;
use crate::fixed::{round_div_half_away, round_to_unit, MICRO};
use crate::geom::{ImagePoint, PixelPoint, Point3};
use crate::marker::CornerQuad;

verus! {

/// The four object-frame points of the reference tripod: the origin and the
/// tip of each unit axis.
#[derive(Clone, Copy, Debug, PartialEq, Eq, Structural)]
pub struct Tripod {
    pub origin: Point3,
    pub x_tip: Point3,
    pub y_tip: Point3,
    pub z_tip: Point3,
}

/// Builds the reference tripod for an axis of the given length
/// (micro-meters): the object-frame origin and one tip per axis.
pub fn axis_tripod(axis_len: i64) -> (t: Tripod)
    requires
        axis_len >= 1,
    ensures
        t.origin == (Point3 { x: 0, y: 0, z: 0 }),
        t.x_tip == (Point3 { x: axis_len, y: 0, z: 0 }),
        t.y_tip == (Point3 { x: 0, y: axis_len, z: 0 }),
        t.z_tip == (Point3 { x: 0, y: 0, z: axis_len }),
{
    Tripod {
        origin: Point3 { x: 0, y: 0, z: 0 },
        x_tip: Point3 { x: axis_len, y: 0, z: 0 },
        y_tip: Point3 { x: 0, y: axis_len, z: 0 },
        z_tip: Point3 { x: 0, y: 0, z: axis_len },
    }
}

/// The projected tripod, rounded to whole pixels for drawing.
#[derive(Clone, Copy, Debug, PartialEq, Eq, Structural)]
pub struct TripodPixels {
    pub origin: PixelPoint,
    pub x_tip: PixelPoint,
    pub y_tip: PixelPoint,
    pub z_tip: PixelPoint,
}

/// The pixel a micro-pixel image point is drawn at: each coordinate rounded
/// to the nearest whole pixel, halves away from zero.
pub open spec fn pixel_of(p: ImagePoint) -> PixelPoint {
    PixelPoint {
        x: round_div_half_away(p.x as int, MICRO as int) as i64,
        y: round_div_half_away(p.y as int, MICRO as int) as i64,
    }
}

/// Rounds one image point to the pixel it is drawn at.
pub fn round_point(p: &ImagePoint) -> (r: PixelPoint)
    requires
        p.wf(),
    ensures
        r == pixel_of(*p),
{
    let x: i64 = round_to_unit(p.x);
    let y: i64 = round_to_unit(p.y);
    PixelPoint { x, y }
}

/// Accepts a projection of the tripod only when it yielded exactly four
/// image points, and rounds them for drawing; a projection of any other
/// length (a malformed model gave no points) is skipped silently, never
/// indexed.
pub fn tripod_pixels(projected: &Vec<ImagePoint>) -> (r: Option<TripodPixels>)
    requires
        forall|j: int| 0 <= j < projected@.len() ==> (#[trigger] projected@[j]).wf(),
    ensures
        r is None <==> projected@.len() != 4,
        r matches Some(g) ==> {
            &&& g.origin == pixel_of(projected@[0])
            &&& g.x_tip == pixel_of(projected@[1])
            &&& g.y_tip == pixel_of(projected@[2])
            &&& g.z_tip == pixel_of(projected@[3])
        },
{
    if projected.len() != 4 {
        return None;
    }
    Some(TripodPixels {
        origin: round_point(&projected[0]),
        x_tip: round_point(&projected[1]),
        y_tip: round_point(&projected[2]),
        z_tip: round_point(&projected[3]),
    })
}

/// A candidate outline rounded to whole pixels for drawing.
#[derive(Clone, Copy, Debug, PartialEq, Eq, Structural)]
pub struct QuadPixels {
    pub p0: PixelPoint,
    pub p1: PixelPoint,
    pub p2: PixelPoint,
    pub p3: PixelPoint,
}

/// Rounds the selected candidate's outline to the pixels its box is drawn
/// through.
pub fn outline_pixels(q: &CornerQuad) -> (r: QuadPixels)
    requires
        q.wf(),
    ensures
        r.p0 == pixel_of(q.p0),
        r.p1 == pixel_of(q.p1),
        r.p2 == pixel_of(q.p2),
        r.p3 == pixel_of(q.p3),
{
    QuadPixels {
        p0: round_point(&q.p0),
        p1: round_point(&q.p1),
        p2: round_point(&q.p2),
        p3: round_point(&q.p3),
    }
}

/// The pixel at the arithmetic mean of the four corners: each coordinate is
/// the corner sum rounded over four whole units, halves away from zero.
pub open spec fn centroid_pixel_of(q: CornerQuad) -> PixelPoint {
    PixelPoint {
        x: round_div_half_away(
            q.p0.x + q.p1.x + q.p2.x + q.p3.x,
            4 * MICRO as int,
        ) as i64,
        y: round_div_half_away(
            q.p0.y + q.p1.y + q.p2.y + q.p3.y,
            4 * MICRO as int,
        ) as i64,
    }
}

/// Computes the marker's image centroid, rounded to the pixel it is marked
/// at: the arithmetic mean of the four selected corners.
pub fn centroid_pixel(q: &CornerQuad) -> (c: PixelPoint)
    requires
        q.wf(),
    ensures
        c == centroid_pixel_of(*q),
{
    let sx: i64 = q.p0.x + q.p1.x + q.p2.x + q.p3.x;
    let sy: i64 = q.p0.y + q.p1.y + q.p2.y + q.p3.y;
    let x: i64 = round_sum_to_pixel(sx);
    let y: i64 = round_sum_to_pixel(sy);
    PixelPoint { x, y }
}

/// Rounds a four-corner coordinate sum in micro-pixels to the nearest whole
/// pixel of its mean, halves away from zero.
fn round_sum_to_pixel(s: i64) -> (r: i64)
    requires
        -4_000_000_000_000 <= s <= 4_000_000_000_000,
    ensures
        r == round_div_half_away(s as int, 4 * MICRO as int),
{
    if s >= 0 {
        (s + 2_000_000) / 4_000_000
    } else {
        -((-s + 2_000_000) / 4_000_000)
    }
}

} // verus!
