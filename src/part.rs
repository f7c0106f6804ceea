//! One marker type per part, for reading a rig by type.
use crate::skeleton::Part;
use vstd::prelude::*;

verus! {

/// A type that names one part of the skeleton, so that a rig can be read by
/// type (`body.get::<HandLeft>()`).
pub trait BodyPart {
    spec fn spec_part() -> Part;

    fn part() -> (r: Part)
        ensures
            r == Self::spec_part(),
    ;
}

#[derive(Clone, Copy, Debug, Default, PartialEq, Eq, Structural)]
pub struct Hip;

#[derive(Clone, Copy, Debug, Default, PartialEq, Eq, Structural)]
pub struct Spine;

#[derive(Clone, Copy, Debug, Default, PartialEq, Eq, Structural)]
pub struct Chest;

#[derive(Clone, Copy, Debug, Default, PartialEq, Eq, Structural)]
pub struct Neck;

#[derive(Clone, Copy, Debug, Default, PartialEq, Eq, Structural)]
pub struct Head;

#[derive(Clone, Copy, Debug, Default, PartialEq, Eq, Structural)]
pub struct UpperArmLeft;

#[derive(Clone, Copy, Debug, Default, PartialEq, Eq, Structural)]
pub struct ForearmLeft;

#[derive(Clone, Copy, Debug, Default, PartialEq, Eq, Structural)]
pub struct HandLeft;

#[derive(Clone, Copy, Debug, Default, PartialEq, Eq, Structural)]
pub struct UpperArmRight;

#[derive(Clone, Copy, Debug, Default, PartialEq, Eq, Structural)]
pub struct ForearmRight;

#[derive(Clone, Copy, Debug, Default, PartialEq, Eq, Structural)]
pub struct HandRight;

#[derive(Clone, Copy, Debug, Default, PartialEq, Eq, Structural)]
pub struct ThighLeft;

#[derive(Clone, Copy, Debug, Default, PartialEq, Eq, Structural)]
pub struct ShinLeft;

#[derive(Clone, Copy, Debug, Default, PartialEq, Eq, Structural)]
pub struct FootLeft;

#[derive(Clone, Copy, Debug, Default, PartialEq, Eq, Structural)]
pub struct ThighRight;

#[derive(Clone, Copy, Debug, Default, PartialEq, Eq, Structural)]
pub struct ShinRight;

#[derive(Clone, Copy, Debug, Default, PartialEq, Eq, Structural)]
pub struct FootRight;

impl BodyPart for Hip {
    open spec fn spec_part() -> Part {
        Part::Hip
    }

    fn part() -> (r: Part) {
        Part::Hip
    }
}

impl BodyPart for Spine {
    open spec fn spec_part() -> Part {
        Part::Spine
    }

    fn part() -> (r: Part) {
        Part::Spine
    }
}

impl BodyPart for Chest {
    open spec fn spec_part() -> Part {
        Part::Chest
    }

    fn part() -> (r: Part) {
        Part::Chest
    }
}

impl BodyPart for Neck {
    open spec fn spec_part() -> Part {
        Part::Neck
    }

    fn part() -> (r: Part) {
        Part::Neck
    }
}

impl BodyPart for Head {
    open spec fn spec_part() -> Part {
        Part::Head
    }

    fn part() -> (r: Part) {
        Part::Head
    }
}

impl BodyPart for UpperArmLeft {
    open spec fn spec_part() -> Part {
        Part::UpperArmLeft
    }

    fn part() -> (r: Part) {
        Part::UpperArmLeft
    }
}

impl BodyPart for ForearmLeft {
    open spec fn spec_part() -> Part {
        Part::ForearmLeft
    }

    fn part() -> (r: Part) {
        Part::ForearmLeft
    }
}

impl BodyPart for HandLeft {
    open spec fn spec_part() -> Part {
        Part::HandLeft
    }

    fn part() -> (r: Part) {
        Part::HandLeft
    }
}

impl BodyPart for UpperArmRight {
    open spec fn spec_part() -> Part {
        Part::UpperArmRight
    }

    fn part() -> (r: Part) {
        Part::UpperArmRight
    }
}

impl BodyPart for ForearmRight {
    open spec fn spec_part() -> Part {
        Part::ForearmRight
    }

    fn part() -> (r: Part) {
        Part::ForearmRight
    }
}

impl BodyPart for HandRight {
    open spec fn spec_part() -> Part {
        Part::HandRight
    }

    fn part() -> (r: Part) {
        Part::HandRight
    }
}

impl BodyPart for ThighLeft {
    open spec fn spec_part() -> Part {
        Part::ThighLeft
    }

    fn part() -> (r: Part) {
        Part::ThighLeft
    }
}

impl BodyPart for ShinLeft {
    open spec fn spec_part() -> Part {
        Part::ShinLeft
    }

    fn part() -> (r: Part) {
        Part::ShinLeft
    }
}

impl BodyPart for FootLeft {
    open spec fn spec_part() -> Part {
        Part::FootLeft
    }

    fn part() -> (r: Part) {
        Part::FootLeft
    }
}

impl BodyPart for ThighRight {
    open spec fn spec_part() -> Part {
        Part::ThighRight
    }

    fn part() -> (r: Part) {
        Part::ThighRight
    }
}

impl BodyPart for ShinRight {
    open spec fn spec_part() -> Part {
        Part::ShinRight
    }

    fn part() -> (r: Part) {
        Part::ShinRight
    }
}

impl BodyPart for FootRight {
    open spec fn spec_part() -> Part {
        Part::FootRight
    }

    fn part() -> (r: Part) {
        Part::FootRight
    }
}

} // verus!