use pose_detector::geom::{ImagePoint, PixelPoint, Point3};
use pose_detector::marker::CornerQuad;
use pose_detector::overlay::{
    axis_tripod, centroid_pixel, outline_pixels, round_point, tripod_pixels,
};

#[test]
fn rounding_halves_away_from_zero() {
    let p = round_point(&ImagePoint { x: 1_499_999, y: 1_500_000 });
    assert_eq!(p, PixelPoint { x: 1, y: 2 });
    let n = round_point(&ImagePoint { x: -1_499_999, y: -1_500_000 });
    assert_eq!(n, PixelPoint { x: -1, y: -2 });
    let z = round_point(&ImagePoint { x: 0, y: 499_999 });
    assert_eq!(z, PixelPoint { x: 0, y: 0 });
}

#[test]
fn axis_tripod_spans_the_three_axes() {
    let t = axis_tripod(50_000);
    assert_eq!(t.origin, Point3 { x: 0, y: 0, z: 0 });
    assert_eq!(t.x_tip, Point3 { x: 50_000, y: 0, z: 0 });
    assert_eq!(t.y_tip, Point3 { x: 0, y: 50_000, z: 0 });
    assert_eq!(t.z_tip, Point3 { x: 0, y: 0, z: 50_000 });
}

#[test]
fn tripod_projection_of_wrong_length_is_skipped() {
    let empty: Vec<ImagePoint> = Vec::new();
    assert!(tripod_pixels(&empty).is_none());
    let three = vec![
        ImagePoint { x: 0, y: 0 },
        ImagePoint { x: 1_000_000, y: 0 },
        ImagePoint { x: 0, y: 1_000_000 },
    ];
    assert!(tripod_pixels(&three).is_none());
}

#[test]
fn tripod_projection_of_four_points_is_rounded() {
    let four = vec![
        ImagePoint { x: 320_400_000, y: 240_600_000 },
        ImagePoint { x: 370_000_000, y: 240_000_000 },
        ImagePoint { x: 320_000_000, y: 290_000_000 },
        ImagePoint { x: 319_500_000, y: 239_499_999 },
    ];
    let g = tripod_pixels(&four).unwrap();
    assert_eq!(g.origin, PixelPoint { x: 320, y: 241 });
    assert_eq!(g.x_tip, PixelPoint { x: 370, y: 240 });
    assert_eq!(g.y_tip, PixelPoint { x: 320, y: 290 });
    assert_eq!(g.z_tip, PixelPoint { x: 320, y: 239 });
}

#[test]
fn outline_rounds_each_corner() {
    let q = CornerQuad {
        p0: ImagePoint { x: 100_500_000, y: 0 },
        p1: ImagePoint { x: 200_499_999, y: 0 },
        p2: ImagePoint { x: 200_000_000, y: 300_000_001 },
        p3: ImagePoint { x: 100_000_000, y: 300_000_000 },
    };
    let r = outline_pixels(&q);
    assert_eq!(r.p0, PixelPoint { x: 101, y: 0 });
    assert_eq!(r.p1, PixelPoint { x: 200, y: 0 });
    assert_eq!(r.p2, PixelPoint { x: 200, y: 300 });
    assert_eq!(r.p3, PixelPoint { x: 100, y: 300 });
}

#[test]
fn centroid_is_mean_of_corners() {
    let q = CornerQuad {
        p0: ImagePoint { x: 270_000_000, y: 190_000_000 },
        p1: ImagePoint { x: 370_000_000, y: 190_000_000 },
        p2: ImagePoint { x: 370_000_000, y: 290_000_000 },
        p3: ImagePoint { x: 270_000_000, y: 290_000_000 },
    };
    assert_eq!(centroid_pixel(&q), PixelPoint { x: 320, y: 240 });
}

#[test]
fn centroid_rounds_to_nearest_pixel() {
    // Mean x is 0.5 pixels: rounded away from zero to 1. Mean y is 0.25
    // pixels: rounded down to 0.
    let q = CornerQuad {
        p0: ImagePoint { x: 2_000_000, y: 1_000_000 },
        p1: ImagePoint { x: 0, y: 0 },
        p2: ImagePoint { x: 0, y: 0 },
        p3: ImagePoint { x: 0, y: 0 },
    };
    assert_eq!(centroid_pixel(&q), PixelPoint { x: 1, y: 0 });
}
