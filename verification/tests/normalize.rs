use gaze_tracker::region::{
    normalize, target_from_detections, DetectedRegion, NormalizedPosition, UNIT,
};
use gaze_tracker::smoother::{target_orientation, Orientation};

fn region(x: i32, y: i32, width: u32, height: u32) -> DetectedRegion {
    DetectedRegion { x, y, width, height }
}

#[test]
fn region_at_frame_centre_is_the_origin() {
    let p = normalize(&region(40, 40, 20, 20), 100, 100);
    assert_eq!(p, NormalizedPosition { x: 0, y: 0 });
    let q = normalize(&region(300, 220, 40, 40), 640, 480);
    assert_eq!(q, NormalizedPosition { x: 0, y: 0 });
}

#[test]
fn centre_at_top_left_corner_is_left_and_up() {
    let p = normalize(&region(-10, -10, 20, 20), 100, 100);
    assert_eq!(p, NormalizedPosition { x: -UNIT, y: UNIT });
    let q = normalize(&region(0, 0, 0, 0), 640, 480);
    assert_eq!(q, NormalizedPosition { x: -UNIT, y: UNIT });
}

#[test]
fn centre_at_bottom_right_corner_is_right_and_down() {
    let p = normalize(&region(90, 90, 20, 20), 100, 100);
    assert_eq!(p, NormalizedPosition { x: UNIT, y: -UNIT });
}

#[test]
fn centre_half_a_pixel_from_the_corner() {
    let p = normalize(&region(0, 0, 1, 1), 640, 480);
    assert_eq!(p, NormalizedPosition { x: -998_438, y: 997_917 });
}

#[test]
fn centre_near_bottom_right_corner_is_right_and_down() {
    let p = normalize(&region(999, 999, 1, 1), 1000, 1000);
    assert_eq!(p, NormalizedPosition { x: 999_000, y: -999_000 });
    assert!(p.is_in_range());
}

#[test]
fn vertical_axis_is_inverted() {
    let upper = normalize(&region(40, 0, 20, 20), 100, 100);
    let lower = normalize(&region(40, 80, 20, 20), 100, 100);
    assert_eq!(upper, NormalizedPosition { x: 0, y: 800_000 });
    assert_eq!(lower, NormalizedPosition { x: 0, y: -800_000 });
}

#[test]
fn odd_sizes_keep_their_half_pixel() {
    // centre (2.5, 2.5) in a frame of 10 by 10
    let p = normalize(&region(0, 0, 5, 5), 10, 10);
    assert_eq!(p, NormalizedPosition { x: -500_000, y: 500_000 });
    // centre (12.5, 1.5) in a frame of 30 by 7
    let q = normalize(&region(10, 0, 5, 3), 30, 7);
    assert_eq!(q, NormalizedPosition { x: -166_667, y: 571_429 });
}

#[test]
fn only_the_centre_counts() {
    let listed = normalize(&region(40, 30, 20, 20), 100, 100);
    assert_eq!(listed, NormalizedPosition { x: 0, y: 200_000 });
    assert_eq!(normalize(&region(45, 35, 10, 10), 100, 100), listed);
    assert_eq!(normalize(&region(-10, 30, 120, 20), 100, 100), listed);
    assert_eq!(normalize(&region(50, 40, 0, 0), 100, 100), listed);
}

#[test]
fn centre_beyond_the_frame_is_held_at_the_nearest_edge() {
    assert_eq!(
        normalize(&region(95, 30, 20, 20), 100, 100),
        NormalizedPosition { x: UNIT, y: 200_000 }
    );
    assert_eq!(
        normalize(&region(-30, 30, 20, 20), 100, 100),
        NormalizedPosition { x: -UNIT, y: 200_000 }
    );
    assert_eq!(
        normalize(&region(40, -50, 20, 20), 100, 100),
        NormalizedPosition { x: 0, y: UNIT }
    );
    assert_eq!(
        normalize(&region(40, 100, 20, 20), 100, 100),
        NormalizedPosition { x: 0, y: -UNIT }
    );
    assert_eq!(
        normalize(&region(i32::MIN, i32::MAX, u32::MAX, u32::MAX), 1, 1000),
        NormalizedPosition { x: -UNIT, y: -UNIT }
    );
}

#[test]
fn regions_inside_the_frame_stay_in_range() {
    let (fw, fh) = (17u32, 13u32);
    for x in 0..fw {
        for y in 0..fh {
            for w in 1..=(fw - x) {
                for h in 1..=(fh - y) {
                    let r = region(x as i32, y as i32, w, h);
                    assert!(r.is_inside(fw, fh));
                    assert!(normalize(&r, fw, fh).is_in_range());
                }
            }
        }
    }
}

#[test]
fn whole_frame_of_largest_size_is_centred() {
    let r = region(0, 0, u32::MAX, u32::MAX);
    let p = normalize(&r, u32::MAX, u32::MAX);
    assert!(p.is_in_range());
    assert_eq!(p, NormalizedPosition { x: 0, y: 0 });
}

#[test]
fn region_bounds_are_checked() {
    assert!(region(0, 0, 100, 100).is_inside(100, 100));
    assert!(!region(0, 0, 101, 100).is_inside(100, 100));
    assert!(!region(1, 0, 100, 100).is_inside(100, 100));
    assert!(!region(-1, 0, 10, 10).is_inside(100, 100));
    assert!(!region(0, -1, 10, 10).is_inside(100, 100));
    assert!(!region(0, 0, 0, 10).is_inside(100, 100));
    assert!(!region(0, 0, 10, 0).is_inside(100, 100));
    assert!(!region(i32::MAX, 0, u32::MAX, 1).is_inside(u32::MAX, 100));
}

#[test]
fn range_check_of_positions() {
    assert!(NormalizedPosition { x: UNIT, y: -UNIT }.is_in_range());
    assert!(!NormalizedPosition { x: UNIT + 1, y: 0 }.is_in_range());
    assert!(!NormalizedPosition { x: 0, y: -UNIT - 1 }.is_in_range());
}

#[test]
fn no_detection_is_no_target() {
    assert_eq!(target_from_detections(&vec![], 100, 100), None);
}

#[test]
fn only_the_first_detection_counts() {
    let found = vec![region(40, 30, 20, 20), region(0, 0, 10, 10)];
    assert_eq!(
        target_from_detections(&found, 100, 100),
        Some(NormalizedPosition { x: 0, y: 200_000 })
    );
    let swapped = vec![region(0, 0, 10, 10), region(40, 30, 20, 20)];
    assert_eq!(
        target_from_detections(&swapped, 100, 100),
        Some(NormalizedPosition { x: -900_000, y: 900_000 })
    );
}

#[test]
fn first_detection_reaching_beyond_the_frame_is_still_the_target() {
    let found = vec![region(-10, -10, 20, 20), region(40, 30, 20, 20)];
    assert_eq!(
        target_from_detections(&found, 100, 100),
        Some(NormalizedPosition { x: -UNIT, y: UNIT })
    );
    let edge = vec![region(90, 90, 20, 20)];
    assert_eq!(
        target_from_detections(&edge, 100, 100),
        Some(NormalizedPosition { x: UNIT, y: -UNIT })
    );
    let wide = vec![region(-10, 30, 120, 20)];
    assert_eq!(
        target_from_detections(&wide, 100, 100),
        Some(NormalizedPosition { x: 0, y: 200_000 })
    );
}

#[test]
fn empty_frame_has_no_target() {
    assert_eq!(target_from_detections(&vec![region(0, 0, 1, 1)], 0, 0), None);
    assert_eq!(target_from_detections(&vec![region(0, 0, 1, 1)], 0, 10), None);
    assert_eq!(target_from_detections(&vec![region(0, 0, 1, 1)], 10, 0), None);
}

#[test]
fn region_to_target_angles_end_to_end() {
    let r = region(40, 30, 20, 20);
    let p = normalize(&r, 100, 100);
    assert_eq!(p, NormalizedPosition { x: 0, y: 200_000 });
    let target = target_orientation(Some(p));
    // a fifth of a sixth of pi is 0.104719... radians
    assert_eq!(target, Orientation { yaw: 0, pitch: 104_719 });
    let pitch = target.pitch as f64 / 1_000_000.0;
    assert!((pitch - 0.2 * (std::f64::consts::PI / 6.0)).abs() < 2e-6);
}
