//! Marker candidates and the per-frame selection: of all candidate
//! quadrilaterals the one with the strictly largest image area is tracked,
//! the first of them on a tie.

use vstd::prelude::*;
use crate::geom::ImagePoint;

verus! {

/// The four corners of a candidate quadrilateral, in detector order
/// (consistent winding around the outline).
#[derive(Clone, Copy, Debug, PartialEq, Eq, Structural)]
pub struct CornerQuad {
    pub p0: ImagePoint,
    pub p1: ImagePoint,
    pub p2: ImagePoint,
    pub p3: ImagePoint,
}

impl CornerQuad {
    /// Every corner lies within the coordinate range the pipeline accepts.
    pub open spec fn wf(self) -> bool {
        self.p0.wf() && self.p1.wf() && self.p2.wf() && self.p3.wf()
    }

    /// The signed shoelace sum of the corner cycle: twice the signed area of
    /// the quadrilateral.
    pub open spec fn shoelace2(self) -> int {
        (self.p0.x * self.p1.y - self.p1.x * self.p0.y)
            + (self.p1.x * self.p2.y - self.p2.x * self.p1.y)
            + (self.p2.x * self.p3.y - self.p3.x * self.p2.y)
            + (self.p3.x * self.p0.y - self.p0.x * self.p3.y)
    }

    /// Twice the unsigned polygon area of the corner cycle, in squared
    /// micro-pixels.
    pub open spec fn area2(self) -> int {
        if self.shoelace2() >= 0 {
            self.shoelace2()
        } else {
            -self.shoelace2()
        }
    }

    /// Computes twice the unsigned polygon area by the shoelace formula.
    pub fn doubled_area(&self) -> (a: u128)
        requires
            self.wf(),
        ensures
            a == self.area2(),
    {
        proof {
            lemma_product_bound(self.p0.x as int, self.p1.y as int);
            lemma_product_bound(self.p1.x as int, self.p0.y as int);
            lemma_product_bound(self.p1.x as int, self.p2.y as int);
            lemma_product_bound(self.p2.x as int, self.p1.y as int);
            lemma_product_bound(self.p2.x as int, self.p3.y as int);
            lemma_product_bound(self.p3.x as int, self.p2.y as int);
            lemma_product_bound(self.p3.x as int, self.p0.y as int);
            lemma_product_bound(self.p0.x as int, self.p3.y as int);
        }
        let t0: i128 = (self.p0.x as i128) * (self.p1.y as i128)
            - (self.p1.x as i128) * (self.p0.y as i128);
        let t1: i128 = (self.p1.x as i128) * (self.p2.y as i128)
            - (self.p2.x as i128) * (self.p1.y as i128);
        let t2: i128 = (self.p2.x as i128) * (self.p3.y as i128)
            - (self.p3.x as i128) * (self.p2.y as i128);
        let t3: i128 = (self.p3.x as i128) * (self.p0.y as i128)
            - (self.p0.x as i128) * (self.p3.y as i128);
        let s: i128 = t0 + t1 + t2 + t3;
        if s >= 0 {
            s as u128
        } else {
            (-s) as u128
        }
    }
}

/// The magnitude of a product of two in-range coordinates.
proof fn lemma_product_bound(a: int, b: int)
    by (nonlinear_arith)
    requires
        -1_000_000_000_000 <= a <= 1_000_000_000_000,
        -1_000_000_000_000 <= b <= 1_000_000_000_000,
    ensures
        -1_000_000_000_000_000_000_000_000 <= a * b <= 1_000_000_000_000_000_000_000_000,
{
}

/// A detected marker candidate: its dictionary identifier and its four
/// image-plane corners.
#[derive(Clone, Copy, Debug, PartialEq, Eq, Structural)]
pub struct MarkerCandidate {
    pub id: i32,
    pub corners: CornerQuad,
}

impl MarkerCandidate {
    /// The corners lie within the coordinate range the pipeline accepts.
    pub open spec fn wf(self) -> bool {
        self.corners.wf()
    }
}

/// Selects the candidate to track this frame: none when the frame offers
/// none (a normal outcome, not an error), otherwise the candidate of
/// strictly largest area, the earliest in detector order among ties.
pub fn select_candidate(cands: &Vec<MarkerCandidate>) -> (r: Option<usize>)
    requires
        forall|j: int| 0 <= j < cands@.len() ==> cands@[j].wf(),
    ensures
        r is None <==> cands@.len() == 0,
        r matches Some(i) ==> {
            &&& 0 <= i < cands@.len()
            &&& forall|j: int|
                0 <= j < cands@.len() ==> cands@[j].corners.area2()
                    <= cands@[i as int].corners.area2()
            &&& forall|j: int|
                0 <= j < i ==> cands@[j].corners.area2() < cands@[i as int].corners.area2()
        },
{
    if cands.len() == 0 {
        return None;
    }
    let mut best_i: usize = 0;
    let mut best_area: u128 = cands[0].corners.doubled_area();
    let mut k: usize = 1;
    while k < cands.len()
        invariant
            forall|j: int| 0 <= j < cands@.len() ==> cands@[j].wf(),
            1 <= k <= cands@.len(),
            0 <= best_i < k,
            best_area == cands@[best_i as int].corners.area2(),
            forall|j: int| 0 <= j < k ==> cands@[j].corners.area2() <= best_area,
            forall|j: int| 0 <= j < best_i ==> cands@[j].corners.area2() < best_area,
        decreases cands@.len() - k,
    {
        let area: u128 = cands[k].corners.doubled_area();
        if area > best_area {
            best_area = area;
            best_i = k;
        }
        k = k + 1;
    }
    Some(best_i)
}

} // verus!
