//! The component types entities are made of, and the per-frame physics
//! system that advances the bridge by one fixed timestep.
//!
//! Components are plain data. The two handle components tie an entity to
//! its counterparts in the physics world; they are created at spawn time
//! and never reassigned, and they go stale only if the counterpart is
//! removed from the world.

use vstd::prelude::*;

use crate::math::Vec2;
use crate::physics::BodyHandle;
use crate::physics::ColliderHandle;
use crate::physics::PhysicsWorld;
use crate::physics::step_bodies_spec;

verus! {

/// The length of one physics timestep, in ticks. The update loop runs at
/// most one step call per logical tick, so fixed `dt` keeps the run
/// deterministic.
pub const PHYSICS_DT: i64 = 1;

/// A renderable shape, as plain data for the renderer to realise: a
/// circle, or a four-point outline.
#[derive(Clone, Copy, Debug, PartialEq, Eq, Structural)]
pub enum MeshKind {
    Circle { radius: i64 },
    Polygon { p0: Vec2, p1: Vec2, p2: Vec2, p3: Vec2 },
}

/// A renderable shape owned by one entity, created once at spawn time and
/// never mutated.
#[derive(Clone, Copy, Debug, PartialEq, Eq, Structural)]
pub struct Mesh {
    pub mesh: MeshKind,
}

/// A handle into the collision world. Also the key for reading an
/// entity's position and orientation back for drawing.
#[derive(Clone, Copy, Debug, PartialEq, Eq, Structural)]
pub struct Collider {
    pub object_handle: ColliderHandle,
}

/// A handle into the physics world's body table.
#[derive(Clone, Copy, Debug, PartialEq, Eq, Structural)]
pub struct RigidBody {
    pub object_handle: BodyHandle,
}

/// Allows controlling a physics body by applying force towards a centre.
#[derive(Clone, Copy, Debug, PartialEq, Eq, Structural)]
pub struct ForceGenerator {
    pub object_handle: BodyHandle,
    pub center: Vec2,
}

/// Informational scalar mass; no system consumes it.
#[derive(Clone, Copy, Debug, PartialEq, Eq, Structural)]
pub struct Mass {
    pub total: i64,
}

/// Optional per-entity gravity scalar, attached to a sparse subset of
/// entities; the systems only ever use the global gravity vector.
#[derive(Clone, Copy, Debug, PartialEq, Eq, Structural)]
pub struct Gravity {
    pub force: Option<i64>,
}

/// Velocity and acceleration, in thousandths of a unit; written by no
/// system — the physics bridge owns the authoritative motion state.
#[derive(Clone, Copy, Debug, PartialEq, Eq, Structural)]
pub struct Motion {
    pub velocity: Vec2,
    pub acceleration: Vec2,
}

/// The single per-frame system: steps the physics world once and drains
/// the event queues.
pub struct PhysicsSystem;

impl PhysicsSystem {
    /// Advance the physics world by exactly one fixed timestep. The event
    /// queues are drained and ignored: collision response is an extension
    /// point nothing implements yet.
    pub fn run(&mut self, physics: &mut PhysicsWorld)
        ensures
            final(physics).bodies@ == step_bodies_spec(
                old(physics).bodies@,
                old(physics).gravity,
                PHYSICS_DT,
            ),
            final(physics).colliders@ == old(physics).colliders@,
            final(physics).gravity == old(physics).gravity,
    {
        physics.step(PHYSICS_DT);
        let contacts = physics.contact_events();
        let proximities = physics.proximity_events();
        if contacts.len() > 0 || proximities.len() > 0 {
            // Unreachable while the bridge records no events; collision
            // response would start here.
        }
    }
}

} // verus!
