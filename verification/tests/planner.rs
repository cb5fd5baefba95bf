use pngshrink::plan;

#[test]
fn no_bounds_keeps_dimensions() {
    assert_eq!(plan(100, 50, None, None), (100, 50));
}

#[test]
fn width_bound_scales_height() {
    assert_eq!(plan(1000, 500, Some(500), None), (500, 250));
}

#[test]
fn height_bound_scales_width() {
    assert_eq!(plan(100, 50, None, Some(25)), (50, 25));
}

#[test]
fn both_bounds_use_smaller_ratio() {
    assert_eq!(plan(1000, 500, Some(500), Some(100)), (200, 100));
}

#[test]
fn both_bounds_never_upscale() {
    assert_eq!(plan(100, 50, Some(200), Some(100)), (100, 50));
}

#[test]
fn scaled_dimension_truncates_toward_zero() {
    assert_eq!(plan(3, 2, None, Some(1)), (1, 1));
}

#[test]
fn scaled_dimension_clamps_to_one() {
    assert_eq!(plan(1, 1000, None, Some(10)), (1, 10));
}

#[test]
fn single_bound_equal_keeps_dimensions() {
    assert_eq!(plan(100, 50, None, Some(50)), (100, 50));
}

#[test]
fn single_bound_can_upscale() {
    assert_eq!(plan(100, 50, None, Some(100)), (200, 100));
}

#[test]
fn aspect_ratio_within_one_pixel() {
    let (nw, nh) = plan(640, 480, None, Some(100));
    assert_eq!(nh, 100);
    assert!((nw as i64) * 480 <= 640 * (nh as i64) + 480);
    assert!(640 * (nh as i64) < (nw as i64) * 480 + 480);
}
