//! The fixed skeleton: its parts, their parent edges and propagation order.
use vstd::prelude::*;

verus! {

/// Number of parts in the rig.
pub const PART_COUNT: usize = 17;

/// One of the fixed skeletal points of a character.
///
/// The variants are listed in propagation order: every part comes after its
/// parent, so `index` doubles as a topological position.
#[derive(Clone, Copy, Debug, PartialEq, Eq, Structural, Hash)]
pub enum Part {
    Hip,
    Spine,
    Chest,
    Neck,
    Head,
    UpperArmLeft,
    ForearmLeft,
    HandLeft,
    UpperArmRight,
    ForearmRight,
    HandRight,
    ThighLeft,
    ShinLeft,
    FootLeft,
    ThighRight,
    ShinRight,
    FootRight,
}

/// The position of a part in propagation order.
pub open spec fn part_index(p: Part) -> int {
    match p {
        Part::Hip => 0,
        Part::Spine => 1,
        Part::Chest => 2,
        Part::Neck => 3,
        Part::Head => 4,
        Part::UpperArmLeft => 5,
        Part::ForearmLeft => 6,
        Part::HandLeft => 7,
        Part::UpperArmRight => 8,
        Part::ForearmRight => 9,
        Part::HandRight => 10,
        Part::ThighLeft => 11,
        Part::ShinLeft => 12,
        Part::FootLeft => 13,
        Part::ThighRight => 14,
        Part::ShinRight => 15,
        Part::FootRight => 16,
    }
}

/// The part at a position of propagation order.
pub open spec fn part_at(i: int) -> Part
    recommends
        0 <= i < PART_COUNT,
{
    if i == 0 {
        Part::Hip
    } else if i == 1 {
        Part::Spine
    } else if i == 2 {
        Part::Chest
    } else if i == 3 {
        Part::Neck
    } else if i == 4 {
        Part::Head
    } else if i == 5 {
        Part::UpperArmLeft
    } else if i == 6 {
        Part::ForearmLeft
    } else if i == 7 {
        Part::HandLeft
    } else if i == 8 {
        Part::UpperArmRight
    } else if i == 9 {
        Part::ForearmRight
    } else if i == 10 {
        Part::HandRight
    } else if i == 11 {
        Part::ThighLeft
    } else if i == 12 {
        Part::ShinLeft
    } else if i == 13 {
        Part::FootLeft
    } else if i == 14 {
        Part::ThighRight
    } else if i == 15 {
        Part::ShinRight
    } else {
        Part::FootRight
    }
}

/// The parent of each part; the hip is the root and has none.
pub open spec fn parent_of(p: Part) -> Option<Part> {
    match p {
        Part::Hip => None,
        Part::Spine => Some(Part::Hip),
        Part::Chest => Some(Part::Spine),
        Part::Neck => Some(Part::Chest),
        Part::Head => Some(Part::Neck),
        Part::UpperArmLeft => Some(Part::Chest),
        Part::ForearmLeft => Some(Part::UpperArmLeft),
        Part::HandLeft => Some(Part::ForearmLeft),
        Part::UpperArmRight => Some(Part::Chest),
        Part::ForearmRight => Some(Part::UpperArmRight),
        Part::HandRight => Some(Part::ForearmRight),
        Part::ThighLeft => Some(Part::Hip),
        Part::ShinLeft => Some(Part::ThighLeft),
        Part::FootLeft => Some(Part::ShinLeft),
        Part::ThighRight => Some(Part::Hip),
        Part::ShinRight => Some(Part::ThighRight),
        Part::FootRight => Some(Part::ShinRight),
    }
}

/// Position of the parent of the part at position `i` (meaningful for `i > 0`).
pub open spec fn parent_index(i: int) -> int {
    part_index(parent_of(part_at(i)).unwrap())
}

/// Whether `(p, c)` is an edge of the skeleton.
pub open spec fn is_edge(p: Part, c: Part) -> bool {
    parent_of(c) == Some(p)
}

/// Positions and parts are in one-to-one correspondence.
pub proof fn lemma_index_bijection()
    ensures
        forall|p: Part| 0 <= #[trigger] part_index(p) < PART_COUNT && part_at(part_index(p)) == p,
        forall|i: int| 0 <= i < PART_COUNT ==> part_index(#[trigger] part_at(i)) == i,
{
}

/// The skeleton is a tree rooted at the hip: the hip alone has no parent,
/// and every other part has exactly one, which comes before it in
/// propagation order (so following parents always ends at the hip).
pub proof fn lemma_tree_rooted_at_hip()
    ensures
        forall|p: Part| #[trigger] parent_of(p) is None <==> p == Part::Hip,
        forall|p: Part|
            p != Part::Hip ==> part_index(#[trigger] parent_of(p).unwrap()) < part_index(p),
        forall|i: int| 0 < i < PART_COUNT ==> 0 <= #[trigger] parent_index(i) < i,
{
}

/// The parent and child of each joint driven by an angular motor: the elbow
/// and wrist of each arm, the knee and ankle of each leg.
pub open spec fn motor_edge_list() -> Seq<(Part, Part)> {
    seq![
        (Part::UpperArmLeft, Part::ForearmLeft),
        (Part::ForearmLeft, Part::HandLeft),
        (Part::UpperArmRight, Part::ForearmRight),
        (Part::ForearmRight, Part::HandRight),
        (Part::ThighLeft, Part::ShinLeft),
        (Part::ShinLeft, Part::FootLeft),
        (Part::ThighRight, Part::ShinRight),
        (Part::ShinRight, Part::FootRight),
    ]
}

/// The joints driven by an angular motor, each an edge of the skeleton.
pub fn motor_edges() -> (r: Vec<(Part, Part)>)
    ensures
        r@ == motor_edge_list(),
        forall|i: int| 0 <= i < r@.len() ==> is_edge(#[trigger] r@[i].0, r@[i].1),
{
    let r = vec![
        (Part::UpperArmLeft, Part::ForearmLeft),
        (Part::ForearmLeft, Part::HandLeft),
        (Part::UpperArmRight, Part::ForearmRight),
        (Part::ForearmRight, Part::HandRight),
        (Part::ThighLeft, Part::ShinLeft),
        (Part::ShinLeft, Part::FootLeft),
        (Part::ThighRight, Part::ShinRight),
        (Part::ShinRight, Part::FootRight),
    ];
    assert(r@ =~= motor_edge_list());
    r
}

impl Part {
    /// The position of this part in propagation order.
    pub fn index(self) -> (r: usize)
        ensures
            r as int == part_index(self),
            r < PART_COUNT,
    {
        match self {
            Part::Hip => 0,
            Part::Spine => 1,
            Part::Chest => 2,
            Part::Neck => 3,
            Part::Head => 4,
            Part::UpperArmLeft => 5,
            Part::ForearmLeft => 6,
            Part::HandLeft => 7,
            Part::UpperArmRight => 8,
            Part::ForearmRight => 9,
            Part::HandRight => 10,
            Part::ThighLeft => 11,
            Part::ShinLeft => 12,
            Part::FootLeft => 13,
            Part::ThighRight => 14,
            Part::ShinRight => 15,
            Part::FootRight => 16,
        }
    }

    /// The part at position `i` of propagation order.
    pub fn from_index(i: usize) -> (r: Part)
        requires
            i < PART_COUNT,
        ensures
            r == part_at(i as int),
            part_index(r) == i,
    {
        if i == 0 {
            Part::Hip
        } else if i == 1 {
            Part::Spine
        } else if i == 2 {
            Part::Chest
        } else if i == 3 {
            Part::Neck
        } else if i == 4 {
            Part::Head
        } else if i == 5 {
            Part::UpperArmLeft
        } else if i == 6 {
            Part::ForearmLeft
        } else if i == 7 {
            Part::HandLeft
        } else if i == 8 {
            Part::UpperArmRight
        } else if i == 9 {
            Part::ForearmRight
        } else if i == 10 {
            Part::HandRight
        } else if i == 11 {
            Part::ThighLeft
        } else if i == 12 {
            Part::ShinLeft
        } else if i == 13 {
            Part::FootLeft
        } else if i == 14 {
            Part::ThighRight
        } else if i == 15 {
            Part::ShinRight
        } else {
            Part::FootRight
        }
    }

    /// The parent of this part, `None` for the hip.
    pub fn parent(self) -> (r: Option<Part>)
        ensures
            r == parent_of(self),
    {
        match self {
            Part::Hip => None,
            Part::Spine => Some(Part::Hip),
            Part::Chest => Some(Part::Spine),
            Part::Neck => Some(Part::Chest),
            Part::Head => Some(Part::Neck),
            Part::UpperArmLeft => Some(Part::Chest),
            Part::ForearmLeft => Some(Part::UpperArmLeft),
            Part::HandLeft => Some(Part::ForearmLeft),
            Part::UpperArmRight => Some(Part::Chest),
            Part::ForearmRight => Some(Part::UpperArmRight),
            Part::HandRight => Some(Part::ForearmRight),
            Part::ThighLeft => Some(Part::Hip),
            Part::ShinLeft => Some(Part::ThighLeft),
            Part::FootLeft => Some(Part::ShinLeft),
            Part::ThighRight => Some(Part::Hip),
            Part::ShinRight => Some(Part::ThighRight),
            Part::FootRight => Some(Part::ShinRight),
        }
    }
}

} // verus!