use physics_demo::math::Vec2;
use physics_demo::physics::BodyHandle;
use physics_demo::physics::BodyStatus;
use physics_demo::physics::Material;
use physics_demo::physics::PhysicsError;
use physics_demo::physics::PhysicsWorld;
use physics_demo::physics::Shape;

fn demo_material() -> Material {
    Material { restitution: 0, friction: 50 }
}

#[test]
fn fresh_world_has_ground_and_nothing_else() {
    let world = PhysicsWorld::new();
    assert_eq!(world.bodies.len(), 1);
    assert_eq!(world.colliders.len(), 0);
    assert_eq!(world.gravity, Vec2 { x: 0, y: 0 });
    let ground = PhysicsWorld::ground_handle();
    assert_eq!(ground, BodyHandle { index: 0, generation: 0 });
    assert!(world.bodies[0].body.is_some());
}

#[test]
fn lookup_transform_reads_parent_body_position() {
    let mut world = PhysicsWorld::new();
    let body = world.add_rigid_body(Vec2 { x: 7, y: -3 });
    let collider = world
        .add_collider(Shape::Circle { radius: 10 }, body, demo_material())
        .unwrap();
    assert_eq!(world.lookup_transform(collider), Ok((Vec2 { x: 7, y: -3 }, 0)));
}

#[test]
fn degenerate_shapes_are_rejected() {
    let mut world = PhysicsWorld::new();
    let body = world.add_rigid_body(Vec2 { x: 0, y: 0 });
    assert_eq!(
        world.add_collider(Shape::Circle { radius: 0 }, body, demo_material()),
        Err(PhysicsError::InvalidShape)
    );
    let p = Vec2 { x: 1, y: 1 };
    assert_eq!(
        world.add_collider(Shape::Segment { a: p, b: p }, body, demo_material()),
        Err(PhysicsError::InvalidShape)
    );
}

#[test]
fn collider_on_removed_body_is_rejected() {
    let mut world = PhysicsWorld::new();
    let body = world.add_rigid_body(Vec2 { x: 0, y: 0 });
    world.remove_body(body);
    assert_eq!(
        world.add_collider(Shape::Circle { radius: 10 }, body, demo_material()),
        Err(PhysicsError::StaleBody)
    );
}

#[test]
fn step_integrates_gravity_and_force_then_clears_force() {
    let mut world = PhysicsWorld::new();
    let body = world.add_rigid_body(Vec2 { x: 0, y: 0 });
    world.set_gravity(Vec2 { x: 0, y: 98 });
    world.apply_force(body, Vec2 { x: 2, y: 0 });
    world.step(1);
    let b = world.bodies[body.index].body.unwrap();
    // velocity = (0,0) + ((0,98) + (2,0)) * 1; position = velocity * 1
    assert_eq!(b.velocity, Vec2 { x: 2, y: 98 });
    assert_eq!(b.position, Vec2 { x: 2, y: 98 });
    assert_eq!(b.force, Vec2 { x: 0, y: 0 });
    world.step(1);
    let b2 = world.bodies[body.index].body.unwrap();
    assert_eq!(b2.velocity, Vec2 { x: 2, y: 196 });
    assert_eq!(b2.position, Vec2 { x: 4, y: 294 });
}

#[test]
fn static_bodies_do_not_move() {
    let mut world = PhysicsWorld::new();
    let body = world.add_rigid_body(Vec2 { x: 5, y: 5 });
    world.set_status(body, BodyStatus::Static);
    world.set_gravity(Vec2 { x: 0, y: 98 });
    world.step(1);
    let b = world.bodies[body.index].body.unwrap();
    assert_eq!(b.position, Vec2 { x: 5, y: 5 });
    assert_eq!(b.velocity, Vec2 { x: 0, y: 0 });
}

#[test]
fn step_saturates_instead_of_overflowing() {
    let mut world = PhysicsWorld::new();
    let body = world.add_rigid_body(Vec2 { x: 0, y: 0 });
    world.apply_force(body, Vec2 { x: i64::MAX, y: i64::MIN });
    world.step(2);
    let b = world.bodies[body.index].body.unwrap();
    assert_eq!(b.velocity, Vec2 { x: i64::MAX, y: i64::MIN });
    assert_eq!(b.position, Vec2 { x: i64::MAX, y: i64::MIN });
}

#[test]
fn force_on_stale_handle_is_a_no_op() {
    let mut world = PhysicsWorld::new();
    let victim = world.add_rigid_body(Vec2 { x: 0, y: 0 });
    let bystander = world.add_rigid_body(Vec2 { x: 1, y: 1 });
    world.remove_body(victim);
    let before = world.clone();
    world.apply_force(victim, Vec2 { x: 1_000_000, y: 1_000_000 });
    assert_eq!(world, before);
    let b = world.bodies[bystander.index].body.unwrap();
    assert_eq!(b.force, Vec2 { x: 0, y: 0 });
}

#[test]
fn force_on_mismatched_generation_is_a_no_op() {
    let mut world = PhysicsWorld::new();
    let body = world.add_rigid_body(Vec2 { x: 0, y: 0 });
    let forged = BodyHandle { index: body.index, generation: body.generation + 1 };
    let before = world.clone();
    world.apply_force(forged, Vec2 { x: 5, y: 5 });
    assert_eq!(world, before);
}

#[test]
fn lookup_after_removal_fails_loudly() {
    let mut world = PhysicsWorld::new();
    let body = world.add_rigid_body(Vec2 { x: 0, y: 0 });
    let collider = world
        .add_collider(Shape::Circle { radius: 10 }, body, demo_material())
        .unwrap();
    world.remove_body(body);
    assert_eq!(world.lookup_transform(collider), Err(PhysicsError::StaleCollider));
    let mut other = PhysicsWorld::new();
    let body2 = other.add_rigid_body(Vec2 { x: 0, y: 0 });
    let collider2 = other
        .add_collider(Shape::Circle { radius: 10 }, body2, demo_material())
        .unwrap();
    other.remove_collider(collider2);
    assert_eq!(other.lookup_transform(collider2), Err(PhysicsError::StaleCollider));
}

#[test]
fn identical_histories_give_identical_worlds() {
    let build = || {
        let mut world = PhysicsWorld::new();
        let a = world.add_rigid_body(Vec2 { x: 0, y: 0 });
        let b = world.add_rigid_body(Vec2 { x: 10, y: 0 });
        world.set_gravity(Vec2 { x: 0, y: 98 });
        world.apply_force(a, Vec2 { x: 3, y: 4 });
        world.step(1);
        world.apply_force(b, Vec2 { x: -5, y: 0 });
        world.step(1);
        world.step(1);
        world
    };
    let first = build();
    let second = build();
    assert_eq!(first, second);
}

#[test]
fn event_queues_are_empty_extension_points() {
    let mut world = PhysicsWorld::new();
    world.add_rigid_body(Vec2 { x: 0, y: 0 });
    world.step(1);
    assert_eq!(world.contact_events().len(), 0);
    assert_eq!(world.proximity_events().len(), 0);
}
