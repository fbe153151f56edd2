//! The three collision categories and which bodies may touch which.
//!
//! Each body belongs to one category (its memberships) and names the
//! categories it is willing to touch (its filter). Two bodies touch when each
//! one's memberships meet the other's filter.
use vstd::prelude::*;

verus! {

/// The category of the ground.
pub const GROUND: u32 = 1;

/// The category of the wheels.
pub const WHEEL: u32 = 2;

/// The category of the carriage and the blocks mounted on it.
pub const CARRIAGE: u32 = 4;

/// The kinds of body in the scene.
#[derive(Clone, Copy, Debug, PartialEq, Eq, Structural)]
pub enum BodyKind {
    Ground,
    Wheel,
    Block,
}

/// A body's category and the categories it may touch, as bit sets.
#[derive(Clone, Copy, Debug, PartialEq, Eq, Structural)]
pub struct CollisionGroups {
    pub memberships: u32,
    pub filter: u32,
}

/// `bits` names exactly one of the three categories.
pub open spec fn is_category(bits: u32) -> bool {
    bits == GROUND || bits == WHEEL || bits == CARRIAGE
}

/// The groups that a body of `kind` carries.
pub open spec fn groups_spec(kind: BodyKind) -> CollisionGroups {
    match kind {
        BodyKind::Ground => CollisionGroups {
            memberships: GROUND,
            filter: GROUND | WHEEL | CARRIAGE,
        },
        BodyKind::Wheel => CollisionGroups { memberships: WHEEL, filter: GROUND },
        BodyKind::Block => CollisionGroups { memberships: CARRIAGE, filter: GROUND },
    }
}

/// Two bodies with groups `a` and `b` touch: each one's memberships meet
/// the other's filter.
pub open spec fn interacts(a: CollisionGroups, b: CollisionGroups) -> bool {
    (a.memberships & b.filter) != 0 && (b.memberships & a.filter) != 0
}

/// The groups that a body of `kind` carries: the ground touches everything,
/// and the wheels and blocks touch only the ground.
pub fn groups_of(kind: BodyKind) -> (g: CollisionGroups)
    ensures
        g == groups_spec(kind),
        is_category(g.memberships),
{
    match kind {
        BodyKind::Ground => CollisionGroups {
            memberships: GROUND,
            filter: GROUND | WHEEL | CARRIAGE,
        },
        BodyKind::Wheel => CollisionGroups { memberships: WHEEL, filter: GROUND },
        BodyKind::Block => CollisionGroups { memberships: CARRIAGE, filter: GROUND },
    }
}

/// Every body rests on the ground, and no two parts of the carriage
/// assembly (wheels and blocks) ever touch one another.
pub proof fn lemma_only_the_ground_is_touched(a: BodyKind, b: BodyKind)
    ensures
        interacts(groups_spec(a), groups_spec(b)) <==> (a == BodyKind::Ground || b
            == BodyKind::Ground),
{
    assert((1u32 | 2u32 | 4u32) == 7u32) by (bit_vector);
    assert((1u32 & 7u32) != 0u32 && (2u32 & 7u32) != 0u32 && (4u32 & 7u32) != 0u32) by (bit_vector);
    assert((1u32 & 1u32) != 0u32) by (bit_vector);
    assert((2u32 & 1u32) == 0u32 && (4u32 & 1u32) == 0u32) by (bit_vector);
}

} // verus!
