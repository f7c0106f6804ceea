//! The two characters and the two sides of a body.
use vstd::prelude::*;

verus! {

/// Which of the two characters a rig or a control belongs to. The two face
/// each other, so the second one is the mirror image of the first.
#[derive(Clone, Copy, Debug, PartialEq, Eq, Structural, Hash)]
pub enum Character {
    Player1,
    Player2,
}

/// Which hand or arm.
#[derive(Clone, Copy, Debug, PartialEq, Eq, Structural, Hash)]
pub enum Side {
    Left,
    Right,
}

/// `+1` for the first character, `-1` for the second: the factor applied to
/// every lateral offset of the rest pose.
pub open spec fn lateral_sign(c: Character) -> int {
    match c {
        Character::Player1 => 1,
        Character::Player2 => -1,
    }
}

impl Character {
    /// The factor applied to lateral offsets of this character's rest pose.
    pub fn sign(self) -> (r: i32)
        ensures
            r == lateral_sign(self),
    {
        match self {
            Character::Player1 => 1,
            Character::Player2 => -1,
        }
    }
}

} // verus!