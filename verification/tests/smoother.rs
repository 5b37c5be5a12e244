use gaze_tracker::region::{NormalizedPosition, UNIT};
use gaze_tracker::smoother::{
    blend, target_orientation, GazeSmoother, Orientation, BLEND_PERCENT, MAX_PITCH, MAX_YAW,
};

const REST: Orientation = Orientation { yaw: 0, pitch: 0 };

#[test]
fn limits_are_a_quarter_and_a_sixth_of_pi() {
    assert_eq!(MAX_YAW, (std::f64::consts::FRAC_PI_4 * 1e6).round() as i32);
    assert_eq!(MAX_PITCH, (std::f64::consts::FRAC_PI_6 * 1e6).round() as i32);
    assert_eq!(BLEND_PERCENT, 15);
}

#[test]
fn no_target_asks_for_the_centre() {
    assert_eq!(target_orientation(None), REST);
    assert_eq!(target_orientation(Some(NormalizedPosition { x: 0, y: 0 })), REST);
}

#[test]
fn yaw_mirrors_and_pitch_follows() {
    let right_up = NormalizedPosition { x: UNIT, y: UNIT };
    assert_eq!(target_orientation(Some(right_up)), Orientation { yaw: -MAX_YAW, pitch: MAX_PITCH });
    let left_down = NormalizedPosition { x: -UNIT, y: -UNIT };
    assert_eq!(
        target_orientation(Some(left_down)),
        Orientation { yaw: MAX_YAW, pitch: -MAX_PITCH }
    );
    let half = NormalizedPosition { x: 500_000, y: -500_000 };
    assert_eq!(target_orientation(Some(half)), Orientation { yaw: -392_699, pitch: -261_799 });
}

#[test]
fn one_step_covers_fifteen_hundredths_rounded_up() {
    assert_eq!(blend(0, 100), 15);
    assert_eq!(blend(0, 1_000_000), 150_000);
    assert_eq!(blend(100, 0), 85);
    assert_eq!(blend(0, -100), -15);
    assert_eq!(blend(0, 1), 1);
    assert_eq!(blend(0, -1), -1);
    assert_eq!(blend(0, 7), 2);
    assert_eq!(blend(42, 42), 42);
    assert_eq!(blend(i32::MIN, i32::MAX), i32::MIN + 644_245_095);
    assert_eq!(blend(i32::MAX, i32::MIN), i32::MAX - 644_245_095);
}

#[test]
fn first_tick_from_rest() {
    let mut smoother = GazeSmoother::new();
    assert_eq!(smoother.orientation(), REST);
    let after = smoother.tick(Some(NormalizedPosition { x: -UNIT, y: UNIT }));
    assert_eq!(after, Orientation { yaw: 117_810, pitch: 78_540 });
    assert_eq!(smoother.orientation(), after);
}

#[test]
fn constant_target_is_approached_and_reached() {
    let gaze = Some(NormalizedPosition { x: -UNIT, y: UNIT });
    let target = target_orientation(gaze);
    let mut smoother = GazeSmoother::new();
    let mut last = smoother.orientation();
    let mut ticks = 0;
    while smoother.orientation() != target {
        let now = smoother.tick(gaze);
        assert!(last.yaw < now.yaw || now.yaw == target.yaw);
        assert!(last.pitch < now.pitch || now.pitch == target.pitch);
        assert!(now.yaw <= target.yaw);
        assert!(now.pitch <= target.pitch);
        assert!((target.yaw - now.yaw) * 100 <= (target.yaw - last.yaw) * 85);
        assert!((target.pitch - now.pitch) * 100 <= (target.pitch - last.pitch) * 85);
        last = now;
        ticks += 1;
        assert!(ticks <= 200);
    }
    assert_eq!(smoother.tick(gaze), target);
}

#[test]
fn distance_shrinks_geometrically() {
    let gaze = Some(NormalizedPosition { x: -UNIT, y: 0 });
    let mut smoother = GazeSmoother::new();
    for _ in 0..20 {
        smoother.tick(gaze);
    }
    let left = (MAX_YAW - smoother.orientation().yaw) as f64;
    assert!(left <= 0.85f64.powi(20) * MAX_YAW as f64);
    assert!(left > 0.0);
}

#[test]
fn no_face_returns_the_eye_to_the_centre() {
    let starts = [
        Orientation { yaw: MAX_YAW, pitch: -MAX_PITCH },
        Orientation { yaw: -MAX_YAW, pitch: MAX_PITCH },
        Orientation { yaw: 3, pitch: -1 },
        Orientation { yaw: 2_000_000_000, pitch: -2_000_000_000 },
    ];
    for start in starts {
        let mut smoother = GazeSmoother::starting_at(start);
        let mut last = start;
        for _ in 0..400 {
            let now = smoother.tick(None);
            assert!(now.yaw.abs() <= last.yaw.abs());
            assert!(now.pitch.abs() <= last.pitch.abs());
            assert!(now.yaw.signum() * start.yaw.signum() >= 0);
            assert!(now.pitch.signum() * start.pitch.signum() >= 0);
            last = now;
        }
        assert_eq!(smoother.orientation(), REST);
    }
}

#[test]
fn orientation_stays_within_limits() {
    let corners = [(UNIT, UNIT), (-UNIT, UNIT), (UNIT, -UNIT), (-UNIT, -UNIT), (0, 0)];
    let mut smoother = GazeSmoother::new();
    for round in 0..50usize {
        let (x, y) = corners[round % corners.len()];
        for _ in 0..(round % 7 + 1) {
            let now = smoother.tick(Some(NormalizedPosition { x, y }));
            assert!(-MAX_YAW <= now.yaw && now.yaw <= MAX_YAW);
            assert!(-MAX_PITCH <= now.pitch && now.pitch <= MAX_PITCH);
        }
    }
}

#[test]
fn target_change_redirects_the_eye() {
    let mut smoother = GazeSmoother::new();
    smoother.tick(Some(NormalizedPosition { x: -UNIT, y: 0 }));
    assert_eq!(smoother.orientation(), Orientation { yaw: 117_810, pitch: 0 });
    smoother.tick(None);
    assert_eq!(smoother.orientation(), Orientation { yaw: 100_138, pitch: 0 });
}
