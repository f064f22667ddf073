//! Camera model resolution: validation of a supplied calibration, synthesis
//! of approximate intrinsics from the frame size, and the per-resolution
//! cache that hands every frame the model it must use.

use vstd::prelude::*;
use crate::fixed::MICRO;
use crate::geom::Mat3;

verus! {

/// The conditions under which the pipeline cannot start.
#[derive(Clone, Copy, Debug, PartialEq, Eq, Structural)]
pub enum FatalError {
    /// No capture device opened on any fallback index.
    DeviceUnavailable,
    /// A calibration source was present but not a well-formed camera matrix
    /// with a coefficient sequence.
    MalformedCalibration,
}

/// A parsed calibration source: the camera matrix as rows of micro-unit
/// entries, and the distortion coefficients in micro-units.
#[derive(Debug)]
pub struct CalibrationInput {
    pub rows: Vec<Vec<i64>>,
    pub coeffs: Vec<i64>,
}

impl CalibrationInput {
    /// The matrix has exactly 3 rows of exactly 3 entries.
    pub open spec fn shape_ok(self) -> bool {
        &&& self.rows@.len() == 3
        &&& self.rows@[0]@.len() == 3
        &&& self.rows@[1]@.len() == 3
        &&& self.rows@[2]@.len() == 3
    }

    /// The matrix is 3x3 and well formed as an intrinsic matrix: positive
    /// diagonal focal terms and a bottom-right entry of one whole unit.
    pub open spec fn wf(self) -> bool {
        &&& self.shape_ok()
        &&& self.rows@[0]@[0] > 0
        &&& self.rows@[1]@[1] > 0
        &&& self.rows@[2]@[2] == MICRO
    }

    /// The matrix the rows spell, row major.
    pub open spec fn intrinsic(self) -> Mat3
        recommends
            self.shape_ok(),
    {
        Mat3 {
            m00: self.rows@[0]@[0],
            m01: self.rows@[0]@[1],
            m02: self.rows@[0]@[2],
            m10: self.rows@[1]@[0],
            m11: self.rows@[1]@[1],
            m12: self.rows@[1]@[2],
            m20: self.rows@[2]@[0],
            m21: self.rows@[2]@[1],
            m22: self.rows@[2]@[2],
        }
    }
}

/// The camera model every geometric computation of a frame uses.
#[derive(Debug)]
pub struct CameraModel {
    pub intrinsic: Mat3,
    pub distortion: Vec<i64>,
    pub calibrated: bool,
}

impl CameraModel {
    /// The intrinsic matrix is well formed.
    pub open spec fn wf(self) -> bool {
        self.intrinsic.is_intrinsic()
    }

    /// The model that a well-formed calibration yields: the calibration
    /// matrix and coefficients verbatim, marked calibrated.
    pub open spec fn is_from_calibration(self, c: CalibrationInput) -> bool {
        &&& self.intrinsic == c.intrinsic()
        &&& self.distortion@ == c.coeffs@
        &&& self.calibrated == true
    }

    /// The approximate model synthesized for a frame of the given size:
    /// focal length 0.9 of the frame width on both axes, principal point at
    /// the image center, five zero distortion coefficients, marked
    /// uncalibrated.
    pub open spec fn is_approximate_for(self, width: int, height: int) -> bool {
        &&& self.intrinsic.m00 == 900_000 * width
        &&& self.intrinsic.m11 == 900_000 * width
        &&& self.intrinsic.m02 == 500_000 * width
        &&& self.intrinsic.m12 == 500_000 * height
        &&& self.intrinsic.m22 == MICRO
        &&& self.intrinsic.m01 == 0
        &&& self.intrinsic.m10 == 0
        &&& self.intrinsic.m20 == 0
        &&& self.intrinsic.m21 == 0
        &&& self.distortion@ == seq![0i64, 0i64, 0i64, 0i64, 0i64]
        &&& self.calibrated == false
    }

    /// Builds the model a calibration source dictates, verbatim, or reports
    /// the calibration malformed. Exactly the well-formed calibrations are
    /// accepted; in particular any matrix that is not exactly 3x3 is
    /// rejected, never truncated or padded.
    pub fn from_calibration(c: &CalibrationInput) -> (r: Result<CameraModel, FatalError>)
        ensures
            r is Ok <==> c.wf(),
            r matches Ok(m) ==> m.is_from_calibration(*c) && m.wf(),
            r matches Err(e) ==> e == FatalError::MalformedCalibration,
    {
        if c.rows.len() != 3 {
            return Err(FatalError::MalformedCalibration);
        }
        if c.rows[0].len() != 3 || c.rows[1].len() != 3 || c.rows[2].len() != 3 {
            return Err(FatalError::MalformedCalibration);
        }
        let intrinsic = Mat3 {
            m00: c.rows[0][0],
            m01: c.rows[0][1],
            m02: c.rows[0][2],
            m10: c.rows[1][0],
            m11: c.rows[1][1],
            m12: c.rows[1][2],
            m20: c.rows[2][0],
            m21: c.rows[2][1],
            m22: c.rows[2][2],
        };
        if intrinsic.m00 <= 0 || intrinsic.m11 <= 0 || intrinsic.m22 != MICRO {
            return Err(FatalError::MalformedCalibration);
        }
        let distortion = copy_coeffs(&c.coeffs);
        Ok(CameraModel { intrinsic, distortion, calibrated: true })
    }

    /// Synthesizes the approximate model for a frame of the given size.
    pub fn approximate(width: u32, height: u32) -> (m: CameraModel)
        requires
            width >= 1,
            height >= 1,
        ensures
            m.is_approximate_for(width as int, height as int),
            m.wf(),
    {
        let w: i64 = width as i64;
        let h: i64 = height as i64;
        let intrinsic = Mat3 {
            m00: 900_000 * w,
            m01: 0,
            m02: 500_000 * w,
            m10: 0,
            m11: 900_000 * w,
            m12: 500_000 * h,
            m20: 0,
            m21: 0,
            m22: MICRO,
        };
        let mut distortion: Vec<i64> = Vec::new();
        distortion.push(0);
        distortion.push(0);
        distortion.push(0);
        distortion.push(0);
        distortion.push(0);
        proof {
            assert(distortion@ =~= seq![0i64, 0i64, 0i64, 0i64, 0i64]);
        }
        CameraModel { intrinsic, distortion, calibrated: false }
    }
}

/// An element-for-element copy of a coefficient vector.
fn copy_coeffs(v: &Vec<i64>) -> (r: Vec<i64>)
    ensures
        r@ == v@,
{
    let mut r: Vec<i64> = Vec::new();
    let mut i: usize = 0;
    while i < v.len()
        invariant
            i <= v.len(),
            r@ == v@.subrange(0, i as int),
        decreases v.len() - i,
    {
        r.push(v[i]);
        i = i + 1;
    }
    proof {
        assert(r@ =~= v@);
    }
    r
}

/// A model cached for one frame size.
pub struct CachedModel {
    pub width: u32,
    pub height: u32,
    pub model: CameraModel,
}

/// The per-resolution cache of the camera model. The model is computed once
/// for a frame size and reused verbatim until the size changes.
pub struct CameraCache {
    pub entry: Option<CachedModel>,
}

impl CameraCache {
    /// The cached model, if any, is well formed and belongs to a real frame
    /// size.
    pub open spec fn wf(self) -> bool {
        self.entry matches Some(e) ==> e.model.wf() && e.width >= 1 && e.height >= 1
    }

    /// The cache holds a model for the given frame size.
    pub open spec fn holds(self, width: u32, height: u32) -> bool {
        self.entry matches Some(e) && e.width == width && e.height == height
    }

    /// An empty cache: no frame has been seen.
    pub fn new() -> (r: CameraCache)
        ensures
            r.entry is None,
            r.wf(),
    {
        CameraCache { entry: None }
    }

    /// Resolves the model for a frame of the given size: a cached model for
    /// the same size is reused untouched; otherwise the calibration, when one
    /// is present, is validated and used verbatim, and when none is, the
    /// approximate model is synthesized. A malformed calibration leaves the
    /// cache unchanged and is fatal.
    pub fn resolve(
        &mut self,
        width: u32,
        height: u32,
        calib: Option<&CalibrationInput>,
    ) -> (r: Result<(), FatalError>)
        requires
            old(self).wf(),
            width >= 1,
            height >= 1,
        ensures
            final(self).wf(),
            old(self).holds(width, height) ==> r is Ok && *final(self) == *old(self),
            !old(self).holds(width, height) ==> match calib {
                None => {
                    &&& r is Ok
                    &&& final(self).holds(width, height)
                    &&& (final(self).entry matches Some(e)
                        ==> e.model.is_approximate_for(width as int, height as int))
                },
                Some(c) => {
                    &&& (r is Ok <==> c.wf())
                    &&& (r matches Err(e) ==> e == FatalError::MalformedCalibration
                        && *final(self) == *old(self))
                    &&& (r is Ok ==> final(self).holds(width, height)
                        && (final(self).entry matches Some(e) ==> e.model.is_from_calibration(*c)))
                },
            },
            r is Ok ==> final(self).holds(width, height),
    {
        match &self.entry {
            Some(e) => {
                if e.width == width && e.height == height {
                    return Ok(());
                }
            },
            None => {},
        }
        let model = match calib {
            Some(c) => match CameraModel::from_calibration(c) {
                Ok(m) => m,
                Err(e) => {
                    return Err(e);
                },
            },
            None => CameraModel::approximate(width, height),
        };
        self.entry = Some(CachedModel { width, height, model });
        Ok(())
    }

    /// The resolved model for the current frame size.
    pub fn model(&self) -> (m: &CameraModel)
        requires
            self.entry is Some,
        ensures
            self.entry matches Some(e) && *m == e.model,
    {
        match &self.entry {
            Some(e) => &e.model,
            None => unreached(),
        }
    }
}

/// The capture-device indices to try, in order: the preferred index, then
/// index 1. The device that opens first wins; when none opens the pipeline
/// reports `FatalError::DeviceUnavailable`.
pub fn camera_fallback_order(primary: i32) -> (r: Vec<i32>)
    ensures
        r@ == seq![primary, 1i32],
{
    let mut r: Vec<i32> = Vec::new();
    r.push(primary);
    r.push(1);
    proof {
        assert(r@ =~= seq![primary, 1i32]);
    }
    r
}

} // verus!
