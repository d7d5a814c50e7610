use raycast_core::pose::Pose;
use raycast_core::trig::{cos_fp, sin_fp, TRIG_ONE};
use raycast_core::vec2::Vec2;

#[test]
fn sine_exact_points() {
    assert_eq!(sin_fp(0), 0);
    assert_eq!(sin_fp(30), TRIG_ONE / 2);
    assert_eq!(sin_fp(90), TRIG_ONE);
    assert_eq!(sin_fp(150), TRIG_ONE / 2);
    assert_eq!(sin_fp(180), 0);
    assert_eq!(sin_fp(210), -TRIG_ONE / 2);
    assert_eq!(sin_fp(270), -TRIG_ONE);
    assert_eq!(sin_fp(330), -TRIG_ONE / 2);
}

#[test]
fn cosine_exact_points() {
    assert_eq!(cos_fp(0), TRIG_ONE);
    assert_eq!(cos_fp(60), TRIG_ONE / 2);
    assert_eq!(cos_fp(90), 0);
    assert_eq!(cos_fp(120), -TRIG_ONE / 2);
    assert_eq!(cos_fp(180), -TRIG_ONE);
    assert_eq!(cos_fp(270), 0);
}

#[test]
fn sine_stays_in_range() {
    for d in 0..360 {
        let s = sin_fp(d);
        let c = cos_fp(d);
        assert!(-TRIG_ONE <= s && s <= TRIG_ONE);
        assert!(-TRIG_ONE <= c && c <= TRIG_ONE);
    }
}

#[test]
fn turns_normalize() {
    let mut pose = Pose::new(Vec2::new(0, 0), 10);
    pose.turn_left(30);
    assert_eq!(pose.angle, 340);
    pose.turn_right(30);
    assert_eq!(pose.angle, 10);
    let mut pose = Pose::new(Vec2::new(0, 0), 350);
    pose.turn_right(30);
    assert_eq!(pose.angle, 20);
}

#[test]
fn turn_keeps_position() {
    let mut pose = Pose::new(Vec2::new(123, 456), 0);
    pose.turn_left(90);
    assert_eq!(pose.position, Vec2::new(123, 456));
}

#[test]
fn forward_along_facing() {
    let pose = Pose::new(Vec2::new(0, 0), 0);
    assert_eq!(pose.move_forward(1024), Vec2::new(1024, 0));
    let pose = Pose::new(Vec2::new(0, 0), 90);
    assert_eq!(pose.move_forward(1024), Vec2::new(0, 1024));
    let pose = Pose::new(Vec2::new(0, 0), 180);
    assert_eq!(pose.move_forward(512), Vec2::new(-512, 0));
}

#[test]
fn back_is_negated_forward() {
    for angle in [0u32, 33, 90, 137, 251, 359] {
        let pose = Pose::new(Vec2::new(0, 0), angle);
        let f = pose.move_forward(700);
        let b = pose.move_back(700);
        assert_eq!(b, Vec2::new(-f.x, -f.y));
    }
}

#[test]
fn strafes_are_perpendicular() {
    let pose = Pose::new(Vec2::new(0, 0), 0);
    assert_eq!(pose.strafe_right(1024), Vec2::new(0, 1024));
    assert_eq!(pose.strafe_left(1024), Vec2::new(0, -1024));
    let pose = Pose::new(Vec2::new(0, 0), 90);
    assert_eq!(pose.strafe_right(1024), Vec2::new(-1024, 0));
    assert_eq!(pose.strafe_left(1024), Vec2::new(1024, 0));
}

#[test]
fn default_pose_is_origin_facing_east() {
    let pose = Pose::default();
    assert_eq!(pose.position, Vec2::new(0, 0));
    assert_eq!(pose.angle, 0);
}
