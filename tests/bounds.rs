use framesense::bounds::{clamp_to_displays, intersect, CaptureBounds};
use framesense::error::ErrorKind;

fn screen() -> Vec<CaptureBounds> {
    vec![CaptureBounds::new(0, 0, 1920, 1080)]
}

#[test]
fn region_inside_display_is_unchanged() {
    let b = CaptureBounds::new(10, 10, 100, 100);
    assert_eq!(clamp_to_displays(b, &screen()).unwrap(), b);
}

#[test]
fn region_filling_display_is_unchanged() {
    let b = CaptureBounds::new(0, 0, 1920, 1080);
    assert_eq!(clamp_to_displays(b, &screen()).unwrap(), b);
}

#[test]
fn region_past_right_edge_is_clamped() {
    let b = CaptureBounds::new(1900, 1000, 100, 200);
    let c = clamp_to_displays(b, &screen()).unwrap();
    assert_eq!(c, CaptureBounds::new(1900, 1000, 20, 80));
    assert_ne!(c, b);
}

#[test]
fn region_past_left_edge_is_clamped() {
    let b = CaptureBounds::new(-50, -20, 100, 100);
    assert_eq!(clamp_to_displays(b, &screen()).unwrap(), CaptureBounds::new(0, 0, 50, 80));
}

#[test]
fn region_outside_every_display_is_refused() {
    let b = CaptureBounds::new(5000, 5000, 10, 10);
    let e = clamp_to_displays(b, &screen()).unwrap_err();
    assert_eq!(e.kind, ErrorKind::InvalidBounds);
}

#[test]
fn region_touching_edge_only_is_refused() {
    let b = CaptureBounds::new(1920, 0, 10, 10);
    assert!(clamp_to_displays(b, &screen()).is_err());
}

#[test]
fn empty_region_is_refused() {
    let b = CaptureBounds::new(10, 10, 0, 100);
    assert_eq!(clamp_to_displays(b, &screen()).unwrap_err().kind, ErrorKind::InvalidBounds);
}

#[test]
fn no_display_refuses_everything() {
    let b = CaptureBounds::new(0, 0, 10, 10);
    assert!(clamp_to_displays(b, &Vec::new()).is_err());
}

#[test]
fn second_monitor_with_negative_origin() {
    let displays = vec![CaptureBounds::new(0, 0, 1920, 1080), CaptureBounds::new(-1280, 0, 1280, 1024)];
    let b = CaptureBounds::new(-300, 100, 200, 200);
    assert_eq!(clamp_to_displays(b, &displays).unwrap(), b);
}

#[test]
fn region_inside_later_display_is_not_clamped_by_earlier_one() {
    let displays = vec![CaptureBounds::new(0, 0, 100, 100), CaptureBounds::new(0, 0, 1000, 1000)];
    let b = CaptureBounds::new(50, 50, 200, 200);
    assert_eq!(clamp_to_displays(b, &displays).unwrap(), b);
}

#[test]
fn straddling_region_is_clamped_to_first_display_touched() {
    let displays = vec![CaptureBounds::new(0, 0, 1920, 1080), CaptureBounds::new(1920, 0, 1920, 1080)];
    let b = CaptureBounds::new(1800, 100, 300, 100);
    assert_eq!(clamp_to_displays(b, &displays).unwrap(), CaptureBounds::new(1800, 100, 120, 100));
}

#[test]
fn intersect_at_coordinate_extremes() {
    let b = CaptureBounds::new(i32::MAX - 10, i32::MAX - 10, u32::MAX, u32::MAX);
    let d = CaptureBounds::new(i32::MIN, i32::MIN, u32::MAX, u32::MAX);
    assert_eq!(intersect(b, d), Some(CaptureBounds::new(i32::MAX - 10, i32::MAX - 10, 10, 10)));
    let far = CaptureBounds::new(i32::MAX, i32::MAX, u32::MAX, u32::MAX);
    assert_eq!(intersect(far, d), None);
}
