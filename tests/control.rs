use hug_rig::control::{
    elbow_angle, lerp, shoulder_angle, HandControl, HandVec, JointAngles, ELBOW_Y_MAX,
    FRACTION_UNIT, HAND_UNIT, SHOULDER_Y_MAX, SHOULDER_Z_MAX, SHOULDER_Z_MIN,
};
use hug_rig::player::{Character, Side};
use hug_rig::state::AppState;

fn in_unit(h: HandVec) -> bool {
    (0..=HAND_UNIT).contains(&h.x) && (0..=HAND_UNIT).contains(&h.y)
}

#[test]
fn shoulder_at_pulled_in_right_hand() {
    let r = shoulder_angle(HandVec { x: HAND_UNIT, y: 0 }, Side::Right, Character::Player1);
    assert_eq!(r.y, 0);
    assert_eq!(r.z, SHOULDER_Z_MIN * FRACTION_UNIT);
}

#[test]
fn elbow_at_left_origin() {
    let r = elbow_angle(HandVec { x: 0, y: 0 }, Side::Left);
    assert_eq!(r, JointAngles { x: 0, y: 0, z: 0 });
}

#[test]
fn lerp_values() {
    assert_eq!(lerp(0, 180, FRACTION_UNIT / 2), 90 * FRACTION_UNIT);
    assert_eq!(lerp(-140, 140, 0), -140 * FRACTION_UNIT);
    assert_eq!(lerp(-140, 140, FRACTION_UNIT), 140 * FRACTION_UNIT);
    assert_eq!(lerp(140, -140, FRACTION_UNIT / 4), 70 * FRACTION_UNIT);
}

#[test]
fn shoulder_exact_values() {
    let h = HandVec { x: 250_000, y: 750_000 };
    let r = shoulder_angle(h, Side::Right, Character::Player1);
    assert_eq!(r.x, 0);
    assert_eq!(r.y, SHOULDER_Y_MAX * 3 * FRACTION_UNIT / 4);
    assert_eq!(r.z, 70 * FRACTION_UNIT);
    let r2 = shoulder_angle(h, Side::Right, Character::Player2);
    assert_eq!(r2.y, r.y);
    assert_eq!(r2.z, -70 * FRACTION_UNIT);
    let l = shoulder_angle(h, Side::Left, Character::Player1);
    assert_eq!(l.y, -SHOULDER_Y_MAX * FRACTION_UNIT / 4);
    assert_eq!(l.z, -70 * FRACTION_UNIT);
    let l2 = shoulder_angle(h, Side::Left, Character::Player2);
    assert_eq!(l2.z, 70 * FRACTION_UNIT);
}

#[test]
fn elbow_bends_quadratically() {
    let r = elbow_angle(HandVec { x: 500_000, y: 0 }, Side::Right);
    assert_eq!(r.y, ELBOW_Y_MAX * FRACTION_UNIT / 4);
    let l = elbow_angle(HandVec { x: HAND_UNIT, y: 0 }, Side::Left);
    assert_eq!(l.y, -ELBOW_Y_MAX * FRACTION_UNIT);
    let l = elbow_angle(HandVec { x: 100_000, y: 0 }, Side::Left);
    assert_eq!(l.y, -ELBOW_Y_MAX * FRACTION_UNIT / 100);
}

#[test]
fn defaults() {
    let c = HandControl::new(Character::Player1);
    assert_eq!(c.left(), HandVec { x: 90_000, y: 100_000 });
    assert_eq!(c.right(), HandVec { x: 910_000, y: 100_000 });
    assert_eq!(c.character(), Character::Player1);
    let a = HandControl::default_absent(Character::Player2);
    assert_eq!(a.left(), HandVec { x: 0, y: 500_000 });
    assert_eq!(a.right(), HandVec { x: HAND_UNIT, y: 500_000 });
    assert_eq!(a.character(), Character::Player2);
}

#[test]
fn clamped_moves_stay_in_unit() {
    let mut c = HandControl::new(Character::Player1);
    let moves = [
        HandVec { x: 5_000_000, y: -3 },
        HandVec { x: -123_456, y: 2_000_000 },
        HandVec { x: i32::MAX, y: i32::MIN },
        HandVec { x: i32::MIN, y: i32::MAX },
        HandVec { x: 400_000, y: -400_000 },
    ];
    for m in moves.iter() {
        c.add_left(*m);
        c.add_right(*m);
        assert!(in_unit(c.left()));
        assert!(in_unit(c.right()));
    }
    assert_eq!(c.left(), HandVec { x: 400_000, y: 600_000 });
}

#[test]
fn add_clamps_each_coordinate() {
    let mut c = HandControl::new(Character::Player1);
    c.add_left(HandVec { x: -100_000, y: 50_000 });
    assert_eq!(c.left(), HandVec { x: 0, y: 150_000 });
    assert_eq!(c.right(), HandVec { x: 910_000, y: 100_000 });
    c.add_right(HandVec { x: 100_000, y: -50_000 });
    assert_eq!(c.right(), HandVec { x: HAND_UNIT, y: 50_000 });
}

#[test]
fn set_overwrites() {
    let mut c = HandControl::new(Character::Player2);
    c.set_left(HandVec { x: 1, y: 2 });
    c.set_right(HandVec { x: 3, y: 4 });
    assert_eq!(c.left(), HandVec { x: 1, y: 2 });
    assert_eq!(c.right(), HandVec { x: 3, y: 4 });
}

#[test]
fn control_methods_use_own_character() {
    let c = HandControl::default_absent(Character::Player2);
    let expected = shoulder_angle(c.right(), Side::Right, Character::Player2);
    assert_eq!(c.right_sholder(), expected);
    assert_eq!(c.right_sholder().z, 0);
    assert_eq!(c.left_sholder(), shoulder_angle(c.left(), Side::Left, Character::Player2));
    assert_eq!(c.right_elbow(), elbow_angle(c.right(), Side::Right));
    assert_eq!(c.left_elbow().y, 0);
    assert_eq!(c.right_sholder().y, 0);
    assert_eq!(SHOULDER_Z_MAX, -SHOULDER_Z_MIN);
}

#[test]
fn buttons_schedule_states() {
    assert_eq!(AppState::Alone.after_buttons(true, true), Some(AppState::MatchingRandom));
    assert_eq!(AppState::Alone.after_buttons(false, true), Some(AppState::CreatingRoom));
    assert_eq!(AppState::MatchingRandom.after_buttons(true, true), Some(AppState::CreatingRoom));
    assert_eq!(AppState::CreatingRoom.after_buttons(false, true), None);
    assert_eq!(AppState::Connected.after_buttons(false, false), None);
    assert!(AppState::Connected.is_connected());
    assert!(!AppState::Alone.is_connected());
}
