//! The rest pose of each character, in exact length units.
use crate::body::Body;
use crate::player::{lateral_sign, Character};
use crate::skeleton::{lemma_index_bijection, part_at, Part, PART_COUNT};
use vstd::prelude::*;

verus! {

/// Number of rest-pose length units in one body unit: offsets are whole
/// tenths of the body unit, itself one fifteenth of the character's height.
pub const UNITS_PER_BODY_UNIT: i32 = 10;

/// Translation of a part from its parent at rest, in tenths of a body unit.
/// The rest pose has no rotation: each local rotation is the identity.
#[derive(Clone, Copy, Debug, PartialEq, Eq, Structural)]
pub struct RestOffset {
    pub x: i32,
    pub y: i32,
    pub z: i32,
}

/// Height of the hip above the ground.
pub const HIP_HEIGHT: i32 = 70;
/// Length of the spine, and of the chest segment above it.
pub const SPINE_LENGTH: i32 = 25;
/// Length of the neck.
pub const NECK_LENGTH: i32 = 8;
/// Height of the head.
pub const HEAD_HEIGHT: i32 = 28;
/// Distance from the chest to a shoulder.
pub const SHOULDER_LENGTH: i32 = 21;
/// Length of an upper arm.
pub const UPPER_ARM_LENGTH: i32 = 30;
/// Length of a forearm.
pub const FOREARM_LENGTH: i32 = 30;
/// Distance from the hip to a thigh joint.
pub const PELVIS_LENGTH: i32 = 15;
/// Length of a thigh.
pub const THIGH_LENGTH: i32 = 35;
/// Length of a shin.
pub const SHIN_LENGTH: i32 = 35;

pub open spec fn offset(x: int, y: int, z: int) -> RestOffset {
    RestOffset { x: x as i32, y: y as i32, z: z as i32 }
}

/// The rest-pose local offset of part `p` for a character whose lateral
/// offsets are multiplied by `s`.
pub open spec fn rest_offset(p: Part, s: int) -> RestOffset {
    match p {
        Part::Hip => offset(0, HIP_HEIGHT as int, 0),
        Part::Spine => offset(0, SPINE_LENGTH as int, 0),
        Part::Chest => offset(0, SPINE_LENGTH as int, 0),
        Part::Neck => offset(0, NECK_LENGTH as int, 0),
        Part::Head => offset(0, HEAD_HEIGHT as int, 0),
        Part::UpperArmLeft => offset(-s * SHOULDER_LENGTH, 0, 0),
        Part::ForearmLeft => offset(-s * UPPER_ARM_LENGTH, 0, 0),
        Part::HandLeft => offset(-s * FOREARM_LENGTH, 0, 0),
        Part::UpperArmRight => offset(s * SHOULDER_LENGTH, 0, 0),
        Part::ForearmRight => offset(s * UPPER_ARM_LENGTH, 0, 0),
        Part::HandRight => offset(s * FOREARM_LENGTH, 0, 0),
        Part::ThighLeft => offset(-s * PELVIS_LENGTH, 0, 0),
        Part::ShinLeft => offset(0, -THIGH_LENGTH, 0),
        Part::FootLeft => offset(0, -SHIN_LENGTH, 0),
        Part::ThighRight => offset(s * PELVIS_LENGTH, 0, 0),
        Part::ShinRight => offset(0, -THIGH_LENGTH, 0),
        Part::FootRight => offset(0, -SHIN_LENGTH, 0),
    }
}

/// The rest pose of a character as a list in propagation order.
pub open spec fn is_rest_pose(parts: Seq<RestOffset>, c: Character) -> bool {
    &&& parts.len() == PART_COUNT
    &&& forall|i: int|
        0 <= i < PART_COUNT ==> #[trigger] parts[i] == rest_offset(part_at(i), lateral_sign(c))
}

fn rest_part(p: Part, s: i32) -> (r: RestOffset)
    requires
        s == 1 || s == -1,
    ensures
        r == rest_offset(p, s as int),
{
    match p {
        Part::Hip => RestOffset { x: 0, y: HIP_HEIGHT, z: 0 },
        Part::Spine => RestOffset { x: 0, y: SPINE_LENGTH, z: 0 },
        Part::Chest => RestOffset { x: 0, y: SPINE_LENGTH, z: 0 },
        Part::Neck => RestOffset { x: 0, y: NECK_LENGTH, z: 0 },
        Part::Head => RestOffset { x: 0, y: HEAD_HEIGHT, z: 0 },
        Part::UpperArmLeft => RestOffset { x: -s * SHOULDER_LENGTH, y: 0, z: 0 },
        Part::ForearmLeft => RestOffset { x: -s * UPPER_ARM_LENGTH, y: 0, z: 0 },
        Part::HandLeft => RestOffset { x: -s * FOREARM_LENGTH, y: 0, z: 0 },
        Part::UpperArmRight => RestOffset { x: s * SHOULDER_LENGTH, y: 0, z: 0 },
        Part::ForearmRight => RestOffset { x: s * UPPER_ARM_LENGTH, y: 0, z: 0 },
        Part::HandRight => RestOffset { x: s * FOREARM_LENGTH, y: 0, z: 0 },
        Part::ThighLeft => RestOffset { x: -s * PELVIS_LENGTH, y: 0, z: 0 },
        Part::ShinLeft => RestOffset { x: 0, y: -THIGH_LENGTH, z: 0 },
        Part::FootLeft => RestOffset { x: 0, y: -SHIN_LENGTH, z: 0 },
        Part::ThighRight => RestOffset { x: s * PELVIS_LENGTH, y: 0, z: 0 },
        Part::ShinRight => RestOffset { x: 0, y: -THIGH_LENGTH, z: 0 },
        Part::FootRight => RestOffset { x: 0, y: -SHIN_LENGTH, z: 0 },
    }
}

impl Body<RestOffset> {
    /// The rest pose of the first character.
    pub fn player1() -> (r: Body<RestOffset>)
        ensures
            r.wf(),
            is_rest_pose(r@, Character::Player1),
    {
        Self::player(Character::Player1)
    }

    /// The rest pose of the second character: the first one mirrored.
    pub fn player2() -> (r: Body<RestOffset>)
        ensures
            r.wf(),
            is_rest_pose(r@, Character::Player2),
    {
        Self::player(Character::Player2)
    }

    /// The rest pose of character `c`: every part at its rest offset, lateral
    /// offsets multiplied by the character's sign.
    pub fn player(c: Character) -> (r: Body<RestOffset>)
        ensures
            r.wf(),
            is_rest_pose(r@, c),
    {
        let s = c.sign();
        let mut parts: Vec<RestOffset> = Vec::new();
        let mut i: usize = 0;
        while i < PART_COUNT
            invariant
                i <= PART_COUNT,
                s == lateral_sign(c),
                parts@.len() == i,
                forall|j: int|
                    0 <= j < i ==> #[trigger] parts@[j] == rest_offset(part_at(j), s as int),
            decreases PART_COUNT - i,
        {
            parts.push(rest_part(Part::from_index(i), s));
            i = i + 1;
        }
        Body::from_complete(parts)
    }
}

/// The two characters' rest poses agree on every vertical and depth offset
/// and have every lateral offset negated.
pub proof fn lemma_rest_pose_mirrored(first: Seq<RestOffset>, second: Seq<RestOffset>)
    requires
        is_rest_pose(first, Character::Player1),
        is_rest_pose(second, Character::Player2),
    ensures
        forall|i: int|
            0 <= i < PART_COUNT ==> {
                &&& #[trigger] second[i].x == -first[i].x
                &&& second[i].y == first[i].y
                &&& second[i].z == first[i].z
            },
{
    lemma_index_bijection();
    assert forall|i: int| 0 <= i < PART_COUNT implies {
        &&& #[trigger] second[i].x == -first[i].x
        &&& second[i].y == first[i].y
        &&& second[i].z == first[i].z
    } by {
        assert(first[i] == rest_offset(part_at(i), 1));
        assert(second[i] == rest_offset(part_at(i), -1));
    }
}

} // verus!