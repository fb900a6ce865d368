use camera::raster::{PlanePoint, Raster, RasterPoint};
use cgmath::{Matrix4, Point3, Transform, Vector3};

fn float_map(width: usize, height: usize) -> Matrix4<f32> {
    let aspect = width as f32 / height as f32;
    Matrix4::from_nonuniform_scale(1.0, -1.0 / aspect, 1.0)
        * Matrix4::from_translation(Vector3::new(-1.0, -1.0, 0.0))
        * Matrix4::from_nonuniform_scale(2.0 / width as f32, 2.0 / height as f32, 1.0)
}

#[test]
fn dimensions_are_kept() {
    let r = Raster::new(640, 480);
    assert_eq!(r.width(), 640);
    assert_eq!(r.height(), 480);
}

#[test]
fn top_left_corner_maps_to_minus_one_and_inverse_aspect() {
    let r = Raster::new(640, 480);
    let q = r.to_camera(RasterPoint { x: 0, y: 0, steps: 1 });
    assert_eq!(q, PlanePoint { x: -640, y: 480, den: 640 });
    assert_eq!(q.x as f32 / q.den as f32, -1.0);
    assert_eq!(q.y as f32 / q.den as f32, 0.75);
}

#[test]
fn bottom_right_corner_maps_to_one_and_minus_inverse_aspect() {
    let r = Raster::new(640, 480);
    let q = r.to_camera(RasterPoint { x: 640, y: 480, steps: 1 });
    assert_eq!(q, PlanePoint { x: 640, y: -480, den: 640 });
    assert_eq!(q.x as f32 / q.den as f32, 1.0);
    assert_eq!(q.y as f32 / q.den as f32, -0.75);
}

#[test]
fn corners_of_a_tall_raster() {
    let r = Raster::new(3, 7);
    let a = r.to_camera(RasterPoint { x: 0, y: 0, steps: 5 });
    assert_eq!(a, PlanePoint { x: -15, y: 35, den: 15 });
    let b = r.to_camera(RasterPoint { x: 15, y: 35, steps: 5 });
    assert_eq!(b, PlanePoint { x: 15, y: -35, den: 15 });
    assert_eq!(a.y * 3, 7 * a.den);
    assert_eq!(b.y * 3, -7 * b.den);
}

#[test]
fn centre_maps_to_the_axis() {
    let r = Raster::new(640, 480);
    let q = r.to_camera(RasterPoint { x: 320, y: 240, steps: 1 });
    assert_eq!(q, PlanePoint { x: 0, y: 0, den: 640 });
}

#[test]
fn centre_of_odd_raster_in_half_pixels() {
    let r = Raster::new(5, 3);
    let q = r.to_camera(RasterPoint { x: 5, y: 3, steps: 2 });
    assert_eq!(q, PlanePoint { x: 0, y: 0, den: 10 });
}

#[test]
fn single_pixel_raster() {
    let r = Raster::new(1, 1);
    assert_eq!(
        r.to_camera(RasterPoint { x: 0, y: 0, steps: 1 }),
        PlanePoint { x: -1, y: 1, den: 1 }
    );
    assert_eq!(
        r.to_camera(RasterPoint { x: 1, y: 1, steps: 1 }),
        PlanePoint { x: 1, y: -1, den: 1 }
    );
}

#[test]
fn sub_pixel_point() {
    let r = Raster::new(4, 2);
    let q = r.to_camera(RasterPoint { x: 3, y: 1, steps: 4 });
    assert_eq!(q, PlanePoint { x: -10, y: 6, den: 16 });
    assert_eq!(q.x as f32 / q.den as f32, -0.625);
    assert_eq!(q.y as f32 / q.den as f32, 0.375);
}

#[test]
fn points_outside_the_extent() {
    let r = Raster::new(4, 2);
    let q = r.to_camera(RasterPoint { x: -1, y: 5, steps: 1 });
    assert_eq!(q, PlanePoint { x: -6, y: -8, den: 4 });
}

#[test]
fn mirrored_points_have_mirrored_images() {
    let r = Raster::new(800, 600);
    let steps: u32 = 8;
    for &(x, y) in &[(0i64, 0i64), (17, 4001), (3200, 2400), (6399, 1), (-5, 4807)] {
        let p = r.to_camera(RasterPoint { x, y, steps });
        let m = r.to_camera(RasterPoint { x: 800 * 8 - x, y: 600 * 8 - y, steps });
        assert_eq!(m.x, -p.x);
        assert_eq!(m.y, -p.y);
        assert_eq!(m.den, p.den);
    }
}

#[test]
fn x_grows_and_y_falls() {
    let r = Raster::new(16, 9);
    let a = r.to_camera(RasterPoint { x: 3, y: 3, steps: 1 });
    let b = r.to_camera(RasterPoint { x: 4, y: 4, steps: 1 });
    assert!(a.x < b.x);
    assert!(a.y > b.y);
}

#[test]
fn finer_steps_give_the_same_point() {
    let r = Raster::new(12, 8);
    let a = r.to_camera(RasterPoint { x: 5, y: 7, steps: 1 });
    let b = r.to_camera(RasterPoint { x: 50, y: 70, steps: 10 });
    assert_eq!(a.x * b.den, b.x * a.den);
    assert_eq!(a.y * b.den, b.y * a.den);
}

#[test]
fn largest_inputs_do_not_overflow() {
    let r = Raster::new(usize::MAX, usize::MAX);
    let q = r.to_camera(RasterPoint { x: i64::MIN, y: i64::MIN, steps: u32::MAX });
    let side = usize::MAX as i128 * u32::MAX as i128;
    assert_eq!(q.den, side);
    assert_eq!(q.x, 2 * i64::MIN as i128 - side);
    assert_eq!(q.y, side - 2 * i64::MIN as i128);
    let p = r.to_camera(RasterPoint { x: i64::MAX, y: i64::MAX, steps: u32::MAX });
    assert_eq!(p.x, 2 * i64::MAX as i128 - side);
    assert_eq!(p.y, side - 2 * i64::MAX as i128);
}

#[test]
fn agrees_with_the_single_precision_matrix() {
    for &(w, h) in &[(640usize, 480usize), (1920, 1080), (3, 7), (1, 1), (1000, 10)] {
        let r = Raster::new(w, h);
        let m = float_map(w, h);
        let steps: u32 = 4;
        for i in 0..=8i64 {
            for j in 0..=8i64 {
                let x = i * w as i64 * steps as i64 / 8;
                let y = j * h as i64 * steps as i64 / 8;
                let q = r.to_camera(RasterPoint { x, y, steps });
                let f = m.transform_point(Point3::new(
                    x as f32 / steps as f32,
                    y as f32 / steps as f32,
                    -1.0,
                ));
                let ex = q.x as f64 / q.den as f64;
                let ey = q.y as f64 / q.den as f64;
                assert!((f.x as f64 - ex).abs() <= 1e-5 * (1.0 + ex.abs()));
                assert!((f.y as f64 - ey).abs() <= 1e-5 * (1.0 + ey.abs()));
                assert_eq!(f.z, -1.0);
            }
        }
    }
}
