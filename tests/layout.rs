use pendulum::carriage::block;
use pendulum::carriage::pendulum::assembly;
use pendulum::carriage::wheel;
use pendulum::carriage::{layout, CARRIAGE_LENGTH, PENDULUM_OFFSET, WHEEL_BASE, Y_ZERO};
use pendulum::geometry::{Joint, JointKind, Offset, Position};
use pendulum::ground;

#[test]
fn wheels_sit_one_wheel_base_apart() {
    let l = layout();
    assert_eq!(l.left_wheel.initial_position, Position { x: -50, y: Y_ZERO, z: 1 });
    assert_eq!(l.right_wheel.initial_position, Position { x: 50, y: Y_ZERO, z: 1 });
    assert_eq!(l.right_wheel.initial_position.x - l.left_wheel.initial_position.x, WHEEL_BASE);
    assert_eq!(l.left_wheel.radius, 10);
    assert_eq!(l.left_wheel.restitution, 1_000);
    assert_eq!(l.right_wheel.friction, 1_000);
}

#[test]
fn carriage_is_a_flat_box_at_the_origin() {
    let l = layout();
    assert_eq!(l.carriage.half_length, 55);
    assert_eq!(l.carriage.half_height, 5);
    assert_eq!(l.carriage.length(), CARRIAGE_LENGTH as i64);
    assert_eq!(l.carriage.height(), 10);
    assert_eq!(l.carriage.initial_position, Position { x: 0, y: 50, z: 0 });
}

#[test]
fn axles_hinge_under_each_wheel() {
    let l = layout();
    assert_eq!(
        l.left_axle,
        Joint { kind: JointKind::Revolute, anchor1: Offset { x: -50, y: 0 }, anchor2: Offset { x: 0, y: 0 } }
    );
    assert_eq!(l.right_axle.anchor1, Offset { x: 50, y: 0 });
}

#[test]
fn pendulum_stands_above_the_carriage() {
    let l = layout();
    assert_eq!(PENDULUM_OFFSET, 135);
    assert_eq!(l.pendulum.pendulum.initial_position, Position { x: 0, y: 135, z: 0 });
    assert_eq!(l.pendulum.pendulum.half_length, 5);
    assert_eq!(l.pendulum.pendulum.half_height, 55);
    assert_eq!(l.pendulum.joiner.half_length, 5);
    assert_eq!(l.pendulum.joiner.half_height, 15);
    assert_eq!(l.pendulum.joiner.initial_position, Position { x: 0, y: 145, z: 0 });
}

#[test]
fn pendulum_joints_pin_and_pivot_the_joiner() {
    let shape = block::Config {
        half_length: 4,
        half_height: 30,
        initial_position: Position { x: 7, y: -20, z: 3 },
    };
    let a = assembly(shape);
    assert_eq!(a.pendulum, shape);
    assert_eq!(a.joiner.half_length, 4);
    assert_eq!(a.joiner.half_height, 12);
    assert_eq!(a.joiner.initial_position, Position { x: 0, y: -12, z: 0 });
    assert_eq!(
        a.joiner_pin,
        Joint { kind: JointKind::Fixed, anchor1: Offset { x: 0, y: -12 }, anchor2: Offset { x: 0, y: 0 } }
    );
    assert_eq!(
        a.pivot,
        Joint { kind: JointKind::Revolute, anchor1: Offset { x: 0, y: 12 }, anchor2: Offset { x: 0, y: -30 } }
    );
}

#[test]
fn axle_follows_the_wheel_offset() {
    let config = wheel::Config {
        radius: 25,
        initial_position: Position { x: -80, y: 10, z: 1 },
        restitution: 700,
        friction: 1_000,
    };
    let j = wheel::axle(&config);
    assert_eq!(j.kind, JointKind::Revolute);
    assert_eq!(j.anchor1, Offset { x: -80, y: 0 });
    assert_eq!(j.anchor2, Offset { x: 0, y: 0 });
}

#[test]
fn ground_is_a_wide_rough_floor() {
    let g = ground::config();
    assert_eq!(g.half_length, 500);
    assert_eq!(g.half_height, 50);
    assert_eq!(g.initial_position, Position { x: 0, y: -100, z: 0 });
    assert_eq!(g.friction, 100_000);
}
