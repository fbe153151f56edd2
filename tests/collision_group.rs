use pendulum::collision_group::{groups_of, BodyKind, CollisionGroups, CARRIAGE, GROUND, WHEEL};

fn touch(a: CollisionGroups, b: CollisionGroups) -> bool {
    (a.memberships & b.filter) != 0 && (b.memberships & a.filter) != 0
}

#[test]
fn categories_are_distinct_bits() {
    assert_eq!(GROUND, 1);
    assert_eq!(WHEEL, 2);
    assert_eq!(CARRIAGE, 4);
}

#[test]
fn each_kind_has_its_groups() {
    assert_eq!(groups_of(BodyKind::Ground), CollisionGroups { memberships: GROUND, filter: 7 });
    assert_eq!(groups_of(BodyKind::Wheel), CollisionGroups { memberships: WHEEL, filter: GROUND });
    assert_eq!(groups_of(BodyKind::Block), CollisionGroups { memberships: CARRIAGE, filter: GROUND });
}

#[test]
fn only_the_ground_is_touched() {
    let kinds = [BodyKind::Ground, BodyKind::Wheel, BodyKind::Block];
    for a in kinds {
        for b in kinds {
            let expected = a == BodyKind::Ground || b == BodyKind::Ground;
            assert_eq!(touch(groups_of(a), groups_of(b)), expected);
        }
    }
}
