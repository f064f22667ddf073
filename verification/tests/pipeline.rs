use pose_detector::camera::{CalibrationInput, CameraModel};
use pose_detector::euler::decompose_rotation;
use pose_detector::geom::{ImagePoint, Mat3, Point3};
use pose_detector::marker::{select_candidate, CornerQuad, MarkerCandidate};
use pose_detector::pose::{
    frame_outcome, square_model, translation_norm, Estimation, FrameOutcome, Pose,
};

fn identity_micro() -> Mat3 {
    Mat3 {
        m00: 1_000_000,
        m01: 0,
        m02: 0,
        m10: 0,
        m11: 1_000_000,
        m12: 0,
        m20: 0,
        m21: 0,
        m22: 1_000_000,
    }
}

/// Forward-projects an object point under identity rotation and the given
/// translation through a pinhole model, all in exact micro-units
/// (fx, fy, cx, cy in micro-pixels; point and translation in micro-meters
/// with the depth a whole meter).
fn project_identity(p: Point3, t: Point3, fx: i64, cx: i64, fy: i64, cy: i64) -> ImagePoint {
    let z_m = (p.z + t.z) / 1_000_000;
    ImagePoint {
        x: fx * (p.x + t.x) / 1_000_000 / z_m + cx,
        y: fy * (p.y + t.y) / 1_000_000 / z_m + cy,
    }
}

#[test]
fn marker_square_scenario_recovers_exact_state() {
    // 4 object points at (+-0.05, +-0.05, 0) meters.
    let square = square_model(100_000);
    assert_eq!(square.p0, Point3 { x: -50_000, y: -50_000, z: 0 });
    assert_eq!(square.p1, Point3 { x: 50_000, y: -50_000, z: 0 });
    assert_eq!(square.p2, Point3 { x: 50_000, y: 50_000, z: 0 });
    assert_eq!(square.p3, Point3 { x: -50_000, y: 50_000, z: 0 });

    // Camera with fx = fy = 1000 pixels, principal point (320, 240), no
    // distortion, supplied as a calibration.
    let calib = CalibrationInput {
        rows: vec![
            vec![1_000_000_000, 0, 320_000_000],
            vec![0, 1_000_000_000, 240_000_000],
            vec![0, 0, 1_000_000],
        ],
        coeffs: vec![0, 0, 0, 0, 0],
    };
    let model = CameraModel::from_calibration(&calib).unwrap();
    assert!(model.calibrated);

    // Image correspondences of the square under rotation 0 and translation
    // (0, 0, 1.0 m), exact in micro-pixels.
    let t = Point3 { x: 0, y: 0, z: 1_000_000 };
    let fx = model.intrinsic.m00;
    let fy = model.intrinsic.m11;
    let cx = model.intrinsic.m02;
    let cy = model.intrinsic.m12;
    let corners = CornerQuad {
        p0: project_identity(square.p0, t, fx, cx, fy, cy),
        p1: project_identity(square.p1, t, fx, cx, fy, cy),
        p2: project_identity(square.p2, t, fx, cx, fy, cy),
        p3: project_identity(square.p3, t, fx, cx, fy, cy),
    };
    assert_eq!(corners.p0, ImagePoint { x: 270_000_000, y: 190_000_000 });
    assert_eq!(corners.p2, ImagePoint { x: 370_000_000, y: 290_000_000 });

    // The single candidate is selected.
    let cands = vec![MarkerCandidate { id: 7, corners }];
    assert_eq!(select_candidate(&cands), Some(0));

    // A converged estimation with the true pose flows through untouched.
    let pose = Pose { rotation: identity_micro(), translation: t };
    let outcome = frame_outcome(&cands, &Some(Estimation::Converged(pose)));
    assert_eq!(outcome, FrameOutcome::Tracking(pose));

    // Euler angles of the identity rotation are (0, 0, 0) exactly.
    let plan = decompose_rotation(&identity_micro());
    assert!(!plan.singular);
    assert_eq!((plan.pitch.y, plan.pitch.x), (0, 1_000_000));
    assert_eq!((plan.yaw.y, plan.yaw.x), (0, 1_000_000));
    assert_eq!((plan.roll.y, plan.roll.x), (0, 1_000_000));

    // The distance to the marker center is exactly one meter.
    assert_eq!(translation_norm(&t), 1_000_000);
}

#[test]
fn diverged_estimation_reports_failure_not_a_pose() {
    let corners = CornerQuad {
        p0: ImagePoint { x: 0, y: 0 },
        p1: ImagePoint { x: 1_000_000, y: 0 },
        p2: ImagePoint { x: 1_000_000, y: 1_000_000 },
        p3: ImagePoint { x: 0, y: 1_000_000 },
    };
    let cands = vec![MarkerCandidate { id: 1, corners }];
    let outcome = frame_outcome(&cands, &Some(Estimation::Diverged));
    assert_eq!(outcome, FrameOutcome::EstimationFailed);
}

#[test]
fn empty_frame_short_circuits_before_estimation() {
    let cands: Vec<MarkerCandidate> = Vec::new();
    assert_eq!(select_candidate(&cands), None);
    let outcome = frame_outcome(&cands, &None);
    assert_eq!(outcome, FrameOutcome::NoMarker);
}

#[test]
fn translation_norm_of_a_skew_vector() {
    // (3, 4, 12) micro-meters has norm exactly 13.
    let t = Point3 { x: 3, y: 4, z: 12 };
    assert_eq!(translation_norm(&t), 13);
    // The norm is even in each component's sign.
    let u = Point3 { x: 0, y: 0, z: -5 };
    assert_eq!(translation_norm(&u), 5);
}
