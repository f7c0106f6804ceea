//! Hand controls and the shoulder and elbow angles they map to, in exact units.
use crate::player::{Character, Side};
use vstd::prelude::*;

verus! {

/// The value 1 of a hand coordinate: coordinates are millionths.
pub const HAND_UNIT: i32 = 1_000_000;

/// An interpolation fraction of 1, in units of a millionth of a millionth:
/// `HAND_UNIT * HAND_UNIT`.
pub const FRACTION_UNIT: i64 = 1_000_000_000_000;

/// Angles are whole multiples of `pi / ANGLE_UNITS_PER_PI`.
pub const ANGLE_UNITS_PER_PI: i64 = 630_000_000_000_000;

/// Largest shoulder raise, `2 pi / 7`, in units of `pi / 630`.
pub const SHOULDER_Y_MAX: i64 = 180;
/// Largest elbow bend, `1.9 pi / 7`, in units of `pi / 630`.
pub const ELBOW_Y_MAX: i64 = 171;
/// Lower bound of the shoulder twist, `-2 pi / 9`, in units of `pi / 630`.
pub const SHOULDER_Z_MIN: i64 = -140;
/// Upper bound of the shoulder twist, `2 pi / 9`, in units of `pi / 630`.
pub const SHOULDER_Z_MAX: i64 = 140;

/// A normalized hand position or a change of it, in millionths.
#[derive(Clone, Copy, Debug, PartialEq, Eq, Structural)]
pub struct HandVec {
    pub x: i32,
    pub y: i32,
}

/// Target angles of a joint about its three axes, in units of
/// `pi / ANGLE_UNITS_PER_PI` radians.
#[derive(Clone, Copy, Debug, PartialEq, Eq, Structural)]
pub struct JointAngles {
    pub x: i64,
    pub y: i64,
    pub z: i64,
}

/// A coordinate lies in `[0, 1]`.
pub open spec fn in_unit(v: int) -> bool {
    0 <= v <= HAND_UNIT
}

/// Both coordinates lie in `[0, 1]`.
pub open spec fn hand_in_unit(h: HandVec) -> bool {
    in_unit(h.x as int) && in_unit(h.y as int)
}

/// `v` clamped to `[0, 1]`.
pub open spec fn clamp_unit(v: int) -> int {
    if v < 0 {
        0
    } else if v > HAND_UNIT {
        HAND_UNIT as int
    } else {
        v
    }
}

/// `h + d`, each coordinate clamped to `[0, 1]`.
pub open spec fn add_clamped(h: HandVec, d: HandVec) -> HandVec {
    HandVec {
        x: clamp_unit(h.x + d.x) as i32,
        y: clamp_unit(h.y + d.y) as i32,
    }
}

/// `min + (max - min) * t`, with `min` and `max` in units of `pi / 630` and
/// `t` a fraction of `FRACTION_UNIT`; the result is in angle units.
pub open spec fn lerp_spec(min: int, max: int, t: int) -> int {
    min * FRACTION_UNIT + (max - min) * t
}

/// The fraction given by a hand coordinate, taken once.
pub open spec fn linear(v: int) -> int {
    v * HAND_UNIT
}

/// The fraction given by a hand coordinate, squared.
pub open spec fn squared(v: int) -> int {
    v * v
}

/// How far the arm is raised, from the horizontal hand coordinate: `1 - x`
/// for the right hand and `x` for the left one, whose input is mirrored.
pub open spec fn reach(x: int, side: Side) -> int {
    match side {
        Side::Right => HAND_UNIT - x,
        Side::Left => x,
    }
}

/// Bounds of the shoulder twist, swapped for the second character, which
/// faces the other way, and negated for the left arm.
pub open spec fn twist_bounds(side: Side, c: Character) -> (int, int) {
    match (side, c) {
        (Side::Right, Character::Player1) => (SHOULDER_Z_MIN as int, SHOULDER_Z_MAX as int),
        (Side::Right, Character::Player2) => (SHOULDER_Z_MAX as int, SHOULDER_Z_MIN as int),
        (Side::Left, Character::Player1) => (-SHOULDER_Z_MIN, -SHOULDER_Z_MAX),
        (Side::Left, Character::Player2) => (-SHOULDER_Z_MAX, -SHOULDER_Z_MIN),
    }
}

/// `max` for the right arm and `-max` for the left one.
pub open spec fn side_bound(max: int, side: Side) -> int {
    match side {
        Side::Right => max,
        Side::Left => -max,
    }
}

/// Target angles of a shoulder: raised by `lerp(0, Y_MAX, reach)` and
/// twisted by `lerp(Z_MIN, Z_MAX, y)`, with bounds mirrored per side and per
/// character.
pub open spec fn shoulder_spec(hand: HandVec, side: Side, c: Character) -> JointAngles {
    JointAngles {
        x: 0,
        y: lerp_spec(0, side_bound(SHOULDER_Y_MAX as int, side), linear(reach(hand.x as int, side))) as i64,
        z: lerp_spec(twist_bounds(side, c).0, twist_bounds(side, c).1, linear(hand.y as int)) as i64,
    }
}

/// Target angles of an elbow: bent by `lerp(0, ELBOW_Y_MAX, reach^2)`, so the
/// arm stays nearly straight near rest and bends faster towards the extreme.
pub open spec fn elbow_spec(hand: HandVec, side: Side) -> JointAngles {
    JointAngles {
        x: 0,
        y: lerp_spec(0, side_bound(ELBOW_Y_MAX as int, side), squared(reach(hand.x as int, side))) as i64,
        z: 0,
    }
}

/// `min + (max - min) * t`, with bounds in units of `pi / 630` and `t` a
/// fraction of `FRACTION_UNIT`, in angle units.
pub fn lerp(min: i64, max: i64, t: i64) -> (r: i64)
    requires
        -1000 <= min <= 1000,
        -1000 <= max <= 1000,
        0 <= t <= FRACTION_UNIT,
    ensures
        r == lerp_spec(min as int, max as int, t as int),
{
    assert(-2000 * FRACTION_UNIT <= (max - min) * t <= 2000 * FRACTION_UNIT) by (nonlinear_arith)
        requires
            -2000 <= max - min <= 2000,
            0 <= t <= FRACTION_UNIT,
    ;
    min * FRACTION_UNIT + (max - min) * t
}

fn reach_of(x: i32, side: Side) -> (r: i64)
    requires
        in_unit(x as int),
    ensures
        r == reach(x as int, side),
        in_unit(r as int),
{
    match side {
        Side::Right => HAND_UNIT as i64 - x as i64,
        Side::Left => x as i64,
    }
}

fn linear_of(v: i64) -> (r: i64)
    requires
        in_unit(v as int),
    ensures
        r == linear(v as int),
        0 <= r <= FRACTION_UNIT,
{
    assert(0 <= v * HAND_UNIT <= FRACTION_UNIT) by (nonlinear_arith)
        requires
            0 <= v <= HAND_UNIT,
    ;
    v * HAND_UNIT as i64
}

fn squared_of(v: i64) -> (r: i64)
    requires
        in_unit(v as int),
    ensures
        r == squared(v as int),
        0 <= r <= FRACTION_UNIT,
{
    assert(0 <= v * v <= FRACTION_UNIT) by (nonlinear_arith)
        requires
            0 <= v <= HAND_UNIT,
    ;
    v * v
}

fn side_bound_of(max: i64, side: Side) -> (r: i64)
    requires
        0 <= max <= 1000,
    ensures
        r == side_bound(max as int, side),
{
    match side {
        Side::Right => max,
        Side::Left => -max,
    }
}

fn twist_bounds_of(side: Side, c: Character) -> (r: (i64, i64))
    ensures
        r.0 == twist_bounds(side, c).0,
        r.1 == twist_bounds(side, c).1,
{
    match (side, c) {
        (Side::Right, Character::Player1) => (SHOULDER_Z_MIN, SHOULDER_Z_MAX),
        (Side::Right, Character::Player2) => (SHOULDER_Z_MAX, SHOULDER_Z_MIN),
        (Side::Left, Character::Player1) => (-SHOULDER_Z_MIN, -SHOULDER_Z_MAX),
        (Side::Left, Character::Player2) => (-SHOULDER_Z_MAX, -SHOULDER_Z_MIN),
    }
}

/// Shoulder target angles for a hand position in `[0, 1]^2`.
pub fn shoulder_angle(hand: HandVec, side: Side, c: Character) -> (r: JointAngles)
    requires
        hand_in_unit(hand),
    ensures
        r == shoulder_spec(hand, side, c),
{
    let raise = linear_of(reach_of(hand.x, side));
    let y = lerp(0, side_bound_of(SHOULDER_Y_MAX, side), raise);
    let (z_min, z_max) = twist_bounds_of(side, c);
    let z = lerp(z_min, z_max, linear_of(hand.y as i64));
    JointAngles { x: 0, y, z }
}

/// Elbow target angles for a hand position in `[0, 1]^2`.
pub fn elbow_angle(hand: HandVec, side: Side) -> (r: JointAngles)
    requires
        hand_in_unit(hand),
    ensures
        r == elbow_spec(hand, side),
{
    let bend = squared_of(reach_of(hand.x, side));
    let y = lerp(0, side_bound_of(ELBOW_Y_MAX, side), bend);
    JointAngles { x: 0, y, z: 0 }
}

fn clamp_coordinate(v: i32, d: i32) -> (r: i32)
    ensures
        r == clamp_unit(v + d),
{
    let sum = v as i64 + d as i64;
    if sum < 0 {
        0
    } else if sum > HAND_UNIT as i64 {
        HAND_UNIT
    } else {
        sum as i32
    }
}

/// The two hand positions of one character, each coordinate in `[0, 1]`.
pub struct HandControl {
    character: Character,
    left: HandVec,
    right: HandVec,
}

impl HandControl {
    /// Both hands lie in `[0, 1]^2`.
    pub closed spec fn wf(&self) -> bool {
        hand_in_unit(self.left) && hand_in_unit(self.right)
    }

    pub closed spec fn spec_character(&self) -> Character {
        self.character
    }

    pub closed spec fn spec_left(&self) -> HandVec {
        self.left
    }

    pub closed spec fn spec_right(&self) -> HandVec {
        self.right
    }

    /// The neutral pose: hands slightly in from the sides, slightly raised.
    pub fn new(character: Character) -> (r: HandControl)
        ensures
            r.wf(),
            r.spec_character() == character,
            r.spec_left() == (HandVec { x: 90_000, y: 100_000 }),
            r.spec_right() == (HandVec { x: 910_000, y: 100_000 }),
    {
        HandControl {
            character,
            left: HandVec { x: 90_000, y: 100_000 },
            right: HandVec { x: 910_000, y: 100_000 },
        }
    }

    /// The pose of a character with no one behind it: arms at the extremes,
    /// twist halfway.
    pub fn default_absent(character: Character) -> (r: HandControl)
        ensures
            r.wf(),
            r.spec_character() == character,
            r.spec_left() == (HandVec { x: 0, y: 500_000 }),
            r.spec_right() == (HandVec { x: HAND_UNIT, y: 500_000 }),
    {
        HandControl {
            character,
            left: HandVec { x: 0, y: 500_000 },
            right: HandVec { x: HAND_UNIT, y: 500_000 },
        }
    }

    pub fn character(&self) -> (r: Character)
        ensures
            r == self.spec_character(),
    {
        self.character
    }

    pub fn left(&self) -> (r: HandVec)
        requires
            self.wf(),
        ensures
            r == self.spec_left(),
            hand_in_unit(r),
    {
        self.left
    }

    pub fn right(&self) -> (r: HandVec)
        requires
            self.wf(),
        ensures
            r == self.spec_right(),
            hand_in_unit(r),
    {
        self.right
    }

    /// Overwrites the left hand with a position received as it is.
    pub fn set_left(&mut self, left: HandVec)
        requires
            old(self).wf(),
            hand_in_unit(left),
        ensures
            final(self).wf(),
            final(self).spec_left() == left,
            final(self).spec_right() == old(self).spec_right(),
            final(self).spec_character() == old(self).spec_character(),
    {
        self.left = left;
    }

    /// Overwrites the right hand with a position received as it is.
    pub fn set_right(&mut self, right: HandVec)
        requires
            old(self).wf(),
            hand_in_unit(right),
        ensures
            final(self).wf(),
            final(self).spec_right() == right,
            final(self).spec_left() == old(self).spec_left(),
            final(self).spec_character() == old(self).spec_character(),
    {
        self.right = right;
    }

    /// Moves the left hand by `other`, then clamps each coordinate to
    /// `[0, 1]`.
    pub fn add_left(&mut self, other: HandVec)
        requires
            old(self).wf(),
        ensures
            final(self).wf(),
            final(self).spec_left() == add_clamped(old(self).spec_left(), other),
            final(self).spec_right() == old(self).spec_right(),
            final(self).spec_character() == old(self).spec_character(),
    {
        let x = clamp_coordinate(self.left.x, other.x);
        let y = clamp_coordinate(self.left.y, other.y);
        self.left = HandVec { x, y };
    }

    /// Moves the right hand by `other`, then clamps each coordinate to
    /// `[0, 1]`.
    pub fn add_right(&mut self, other: HandVec)
        requires
            old(self).wf(),
        ensures
            final(self).wf(),
            final(self).spec_right() == add_clamped(old(self).spec_right(), other),
            final(self).spec_left() == old(self).spec_left(),
            final(self).spec_character() == old(self).spec_character(),
    {
        let x = clamp_coordinate(self.right.x, other.x);
        let y = clamp_coordinate(self.right.y, other.y);
        self.right = HandVec { x, y };
    }

    /// Target angles of the right shoulder.
    pub fn right_sholder(&self) -> (r: JointAngles)
        requires
            self.wf(),
        ensures
            r == shoulder_spec(self.spec_right(), Side::Right, self.spec_character()),
    {
        shoulder_angle(self.right, Side::Right, self.character)
    }

    /// Target angles of the left shoulder.
    pub fn left_sholder(&self) -> (r: JointAngles)
        requires
            self.wf(),
        ensures
            r == shoulder_spec(self.spec_left(), Side::Left, self.spec_character()),
    {
        shoulder_angle(self.left, Side::Left, self.character)
    }

    /// Target angles of the right elbow.
    pub fn right_elbow(&self) -> (r: JointAngles)
        requires
            self.wf(),
        ensures
            r == elbow_spec(self.spec_right(), Side::Right),
    {
        elbow_angle(self.right, Side::Right)
    }

    /// Target angles of the left elbow.
    pub fn left_elbow(&self) -> (r: JointAngles)
        requires
            self.wf(),
        ensures
            r == elbow_spec(self.spec_left(), Side::Left),
    {
        elbow_angle(self.left, Side::Left)
    }
}

/// The hand position after applying `moves` in order, each by `add_clamped`.
pub open spec fn after_moves(start: HandVec, moves: Seq<HandVec>) -> HandVec
    decreases moves.len(),
{
    if moves.len() == 0 {
        start
    } else {
        add_clamped(after_moves(start, moves.drop_last()), moves.last())
    }
}

/// Whatever sequence of moves is applied to a hand, as `add_left` and
/// `add_right` apply them, every coordinate stays in `[0, 1]`.
pub proof fn lemma_moves_stay_in_unit(start: HandVec, moves: Seq<HandVec>)
    requires
        hand_in_unit(start),
    ensures
        hand_in_unit(after_moves(start, moves)),
    decreases moves.len(),
{
    if moves.len() > 0 {
        lemma_moves_stay_in_unit(start, moves.drop_last());
    }
}

} // verus!
