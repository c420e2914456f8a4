//! The physics bridge: a single world that owns rigid bodies and collision
//! objects, addressed through generation-checked handles.
//!
//! Entities elsewhere hold handles into this world, never pointers. A handle
//! resolves only while the slot it names still carries its object and its
//! generation matches, so stale-handle detection is structural. Slots are
//! never reused; removal clears the object and leaves the generation behind.
//!
//! Stepping advances every live dynamic body by one fixed timestep with
//! saturating integer arithmetic: the accumulated force and the global
//! gravity vector feed the velocity, the velocity feeds the position, and
//! the force accumulator is cleared.

use vstd::prelude::*;

use crate::math::Vec2;
use crate::math::v2_add;
use crate::math::v2_add_spec;
use crate::math::v2_scale;
use crate::math::v2_scale_spec;
use crate::math::v2_zero;
use crate::math::v2_zero_spec;

verus! {

/// A handle into the body table: index plus the generation the slot had
/// when the body was created.
#[derive(Clone, Copy, Debug, PartialEq, Eq, Hash, Structural)]
pub struct BodyHandle {
    pub index: usize,
    pub generation: u64,
}

/// A handle into the collision-object table.
#[derive(Clone, Copy, Debug, PartialEq, Eq, Hash, Structural)]
pub struct ColliderHandle {
    pub index: usize,
    pub generation: u64,
}

/// Whether a body takes part in integration or stays fixed.
#[derive(Clone, Copy, Debug, PartialEq, Eq, Structural)]
pub enum BodyStatus {
    Static,
    Dynamic,
}

/// One rigid body: a transform, a velocity, and the force accumulated for
/// the next step.
#[derive(Clone, Copy, Debug, PartialEq, Eq, Structural)]
pub struct Body {
    pub position: Vec2,
    pub rotation: i64,
    pub velocity: Vec2,
    pub status: BodyStatus,
    pub force: Vec2,
}

/// A slot of the body table. `body` is `None` once the body was removed;
/// the generation stays, so old handles no longer match.
#[derive(Clone, Copy, Debug, PartialEq, Eq)]
pub struct BodySlot {
    pub generation: u64,
    pub body: Option<Body>,
}

/// A collision shape, as plain data: a circle, the four-cornered arena
/// outline, or a segment.
#[derive(Clone, Copy, Debug, PartialEq, Eq, Structural)]
pub enum Shape {
    Circle { radius: i64 },
    Polyline { p0: Vec2, p1: Vec2, p2: Vec2, p3: Vec2 },
    Segment { a: Vec2, b: Vec2 },
}

/// Surface behaviour of a collision object.
#[derive(Clone, Copy, Debug, PartialEq, Eq, Structural)]
pub struct Material {
    pub restitution: i64,
    pub friction: i64,
}

/// One collision object: a shape attached to a parent body.
#[derive(Clone, Copy, Debug, PartialEq, Eq)]
pub struct CollisionObject {
    pub shape: Shape,
    pub parent: BodyHandle,
    pub material: Material,
}

/// A slot of the collision-object table.
#[derive(Clone, Copy, Debug, PartialEq, Eq)]
pub struct ColliderSlot {
    pub generation: u64,
    pub object: Option<CollisionObject>,
}

/// What the bridge reports when a request cannot be honoured.
#[derive(Clone, Copy, Debug, PartialEq, Eq, Structural)]
pub enum PhysicsError {
    /// The shape given to `add_collider` is degenerate.
    InvalidShape,
    /// The body handle given as a parent no longer resolves.
    StaleBody,
    /// The collider handle no longer resolves to a live transform.
    StaleCollider,
}

/// A contact reported by the collision pipeline. The bridge records no
/// contacts yet; this is the extension point for collision response.
#[derive(Clone, Copy, Debug, PartialEq, Eq, Structural)]
pub struct ContactEvent {
    pub first: ColliderHandle,
    pub second: ColliderHandle,
}

/// A proximity change reported by the collision pipeline; an extension
/// point like `ContactEvent`.
#[derive(Clone, Copy, Debug, PartialEq, Eq, Structural)]
pub struct ProximityEvent {
    pub first: ColliderHandle,
    pub second: ColliderHandle,
}

/// The physics world: the body table, the collision-object table, and the
/// global gravity vector. There is one per scene world, passed by exclusive
/// reference into exactly one stepping call per tick.
#[derive(Clone, Debug, PartialEq, Eq)]
pub struct PhysicsWorld {
    pub bodies: Vec<BodySlot>,
    pub colliders: Vec<ColliderSlot>,
    pub gravity: Vec2,
}

/// Does `h` name a live body in `bodies`?
pub open spec fn slot_live(bodies: Seq<BodySlot>, h: BodyHandle) -> bool {
    &&& h.index < bodies.len()
    &&& bodies[h.index as int].generation == h.generation
    &&& bodies[h.index as int].body is Some
}

/// Does `h` name a live collision object in `colliders`?
pub open spec fn collider_slot_live(colliders: Seq<ColliderSlot>, h: ColliderHandle) -> bool {
    &&& h.index < colliders.len()
    &&& colliders[h.index as int].generation == h.generation
    &&& colliders[h.index as int].object is Some
}

/// A shape `add_collider` accepts: a circle with positive radius, a
/// polyline with at least two points, or a segment with distinct ends.
pub open spec fn shape_valid(s: Shape) -> bool {
    match s {
        Shape::Circle { radius } => radius > 0,
        Shape::Polyline { .. } => true,
        Shape::Segment { a, b } => a != b,
    }
}

/// One body advanced by one step of length `dt` under gravity `g`:
/// a dynamic body integrates velocity then position and drops its
/// accumulated force; a static body only drops the force.
pub open spec fn step_body_spec(b: Body, g: Vec2, dt: i64) -> Body {
    match b.status {
        BodyStatus::Dynamic => {
            let vel = v2_add_spec(b.velocity, v2_scale_spec(v2_add_spec(g, b.force), dt));
            Body {
                position: v2_add_spec(b.position, v2_scale_spec(vel, dt)),
                rotation: b.rotation,
                velocity: vel,
                status: b.status,
                force: v2_zero_spec(),
            }
        },
        BodyStatus::Static => {
            Body {
                position: b.position,
                rotation: b.rotation,
                velocity: b.velocity,
                status: b.status,
                force: v2_zero_spec(),
            }
        },
    }
}

/// One slot advanced by one step; empty slots stay as they are.
pub open spec fn step_slot_spec(s: BodySlot, g: Vec2, dt: i64) -> BodySlot {
    match s.body {
        Some(b) => BodySlot { generation: s.generation, body: Some(step_body_spec(b, g, dt)) },
        None => s,
    }
}

/// The whole body table advanced by one step.
pub open spec fn step_bodies_spec(bodies: Seq<BodySlot>, g: Vec2, dt: i64) -> Seq<BodySlot> {
    bodies.map_values(|s: BodySlot| step_slot_spec(s, g, dt))
}

/// The body table after a force was applied through `h`: the named body's
/// accumulator grows if `h` resolves, and nothing changes if it does not.
pub open spec fn apply_force_spec(bodies: Seq<BodySlot>, h: BodyHandle, force: Vec2) -> Seq<
    BodySlot,
> {
    if slot_live(bodies, h) {
        let s = bodies[h.index as int];
        let b = s.body->Some_0;
        bodies.update(
            h.index as int,
            BodySlot {
                generation: s.generation,
                body: Some(
                    Body {
                        position: b.position,
                        rotation: b.rotation,
                        velocity: b.velocity,
                        status: b.status,
                        force: v2_add_spec(b.force, force),
                    },
                ),
            },
        )
    } else {
        bodies
    }
}

impl PhysicsWorld {
    /// Is `h` a live body of this world?
    pub open spec fn body_live(self, h: BodyHandle) -> bool {
        slot_live(self.bodies@, h)
    }

    /// Is `h` a live collision object of this world?
    pub open spec fn collider_live(self, h: ColliderHandle) -> bool {
        collider_slot_live(self.colliders@, h)
    }

    /// The body slot named by a live handle.
    pub open spec fn body_at(self, h: BodyHandle) -> Body
        recommends
            self.body_live(h),
    {
        self.bodies@[h.index as int].body->Some_0
    }

    /// The collision object named by a live handle.
    pub open spec fn collider_at(self, h: ColliderHandle) -> CollisionObject
        recommends
            self.collider_live(h),
    {
        self.colliders@[h.index as int].object->Some_0
    }

    /// Does `h` resolve all the way to a transform: the collision object is
    /// live and so is the body it is attached to?
    pub open spec fn collider_resolves(self, h: ColliderHandle) -> bool {
        &&& self.collider_live(h)
        &&& self.body_live(self.collider_at(h).parent)
    }

    /// The slot the fixed ground body occupies in a fresh world.
    pub open spec fn ground_slot_spec() -> BodySlot {
        BodySlot {
            generation: 0,
            body: Some(
                Body {
                    position: v2_zero_spec(),
                    rotation: 0,
                    velocity: v2_zero_spec(),
                    status: BodyStatus::Static,
                    force: v2_zero_spec(),
                },
            ),
        }
    }

    /// A fresh world: no gravity, no collision objects, and a single static
    /// ground body in slot zero, so that `ground()` always resolves.
    pub fn new() -> (w: PhysicsWorld)
        ensures
            w.bodies@ =~= seq![PhysicsWorld::ground_slot_spec()],
            w.colliders@ =~= Seq::<ColliderSlot>::empty(),
            w.gravity == v2_zero_spec(),
            w.body_live(PhysicsWorld::ground()),
    {
        let ground = Body {
            position: v2_zero(),
            rotation: 0,
            velocity: v2_zero(),
            status: BodyStatus::Static,
            force: v2_zero(),
        };
        let mut bodies: Vec<BodySlot> = Vec::new();
        bodies.push(BodySlot { generation: 0, body: Some(ground) });
        PhysicsWorld { bodies, colliders: Vec::new(), gravity: v2_zero() }
    }

    /// The handle of the fixed ground body every world is created with.
    pub open spec fn ground() -> BodyHandle {
        BodyHandle { index: 0, generation: 0 }
    }

    /// The ground handle, as a value.
    pub fn ground_handle() -> (h: BodyHandle)
        ensures
            h == PhysicsWorld::ground(),
    {
        BodyHandle { index: 0, generation: 0 }
    }

    /// Create a dynamic rigid body at `position`, at rest, and hand back a
    /// handle that resolves to it.
    pub fn add_rigid_body(&mut self, position: Vec2) -> (h: BodyHandle)
        ensures
            h == (BodyHandle {
                index: old(self).bodies@.len() as usize,
                generation: old(self).bodies@.len() as u64,
            }),
            final(self).bodies@ =~= old(self).bodies@.push(
                BodySlot {
                    generation: old(self).bodies@.len() as u64,
                    body: Some(
                        Body {
                            position,
                            rotation: 0,
                            velocity: v2_zero_spec(),
                            status: BodyStatus::Dynamic,
                            force: v2_zero_spec(),
                        },
                    ),
                },
            ),
            final(self).colliders@ == old(self).colliders@,
            final(self).gravity == old(self).gravity,
            final(self).body_live(h),
            final(self).body_at(h).position == position,
    {
        let index = self.bodies.len();
        let generation = index as u64;
        let body = Body {
            position,
            rotation: 0,
            velocity: v2_zero(),
            status: BodyStatus::Dynamic,
            force: v2_zero(),
        };
        self.bodies.push(BodySlot { generation, body: Some(body) });
        BodyHandle { index, generation }
    }

    /// Change the status of a live body. Callers must hold a handle that
    /// still resolves; there is no silent skip here.
    pub fn set_status(&mut self, h: BodyHandle, status: BodyStatus)
        requires
            old(self).body_live(h),
        ensures
            final(self).bodies@ =~= old(self).bodies@.update(
                h.index as int,
                BodySlot {
                    generation: h.generation,
                    body: Some(
                        Body {
                            position: old(self).body_at(h).position,
                            rotation: old(self).body_at(h).rotation,
                            velocity: old(self).body_at(h).velocity,
                            status,
                            force: old(self).body_at(h).force,
                        },
                    ),
                },
            ),
            final(self).colliders@ == old(self).colliders@,
            final(self).gravity == old(self).gravity,
            final(self).body_live(h),
    {
        let slot = self.bodies[h.index];
        match slot.body {
            Some(b) => {
                let updated = Body {
                    position: b.position,
                    rotation: b.rotation,
                    velocity: b.velocity,
                    status,
                    force: b.force,
                };
                self.bodies.set(h.index, BodySlot { generation: slot.generation, body: Some(updated) });
            },
            None => {},
        }
    }

    /// Attach a collision shape to a parent body. Fails explicitly on a
    /// degenerate shape or a parent handle that no longer resolves.
    pub fn add_collider(&mut self, shape: Shape, parent: BodyHandle, material: Material) -> (r:
        Result<ColliderHandle, PhysicsError>)
        ensures
            !shape_valid(shape) ==> r == Result::<ColliderHandle, PhysicsError>::Err(
                PhysicsError::InvalidShape,
            ) && *final(self) == *old(self),
            shape_valid(shape) && !old(self).body_live(parent) ==> r == Result::<
                ColliderHandle,
                PhysicsError,
            >::Err(PhysicsError::StaleBody) && *final(self) == *old(self),
            shape_valid(shape) && old(self).body_live(parent) ==> {
                &&& r is Ok
                &&& r->Ok_0 == (ColliderHandle {
                    index: old(self).colliders@.len() as usize,
                    generation: old(self).colliders@.len() as u64,
                })
                &&& final(self).colliders@ =~= old(self).colliders@.push(
                    ColliderSlot {
                        generation: old(self).colliders@.len() as u64,
                        object: Some(CollisionObject { shape, parent, material }),
                    },
                )
                &&& final(self).bodies@ == old(self).bodies@
                &&& final(self).gravity == old(self).gravity
                &&& final(self).collider_resolves(r->Ok_0)
            },
    {
        let ok = match &shape {
            Shape::Circle { radius } => *radius > 0,
            Shape::Polyline { .. } => true,
            Shape::Segment { a, b } => !(a.x == b.x && a.y == b.y),
        };
        if !ok {
            return Err(PhysicsError::InvalidShape);
        }
        let parent_live = h_body_live(self, parent);
        if !parent_live {
            return Err(PhysicsError::StaleBody);
        }
        let index = self.colliders.len();
        let generation = index as u64;
        let object = CollisionObject { shape, parent, material };
        self.colliders.push(ColliderSlot { generation, object: Some(object) });
        Ok(ColliderHandle { index, generation })
    }

    /// Set the global gravity vector; nothing else moves.
    pub fn set_gravity(&mut self, gravity: Vec2)
        ensures
            final(self).gravity == gravity,
            final(self).bodies@ == old(self).bodies@,
            final(self).colliders@ == old(self).colliders@,
    {
        self.gravity = gravity;
    }

    /// Add `force` to the accumulator of the body `h` names. A handle that
    /// no longer resolves makes this a no-op by design: the owning entity
    /// is presumed gone, and no other body is affected.
    pub fn apply_force(&mut self, h: BodyHandle, force: Vec2)
        ensures
            final(self).bodies@ == apply_force_spec(old(self).bodies@, h, force),
            !old(self).body_live(h) ==> *final(self) == *old(self),
            final(self).colliders@ == old(self).colliders@,
            final(self).gravity == old(self).gravity,
    {
        if h.index < self.bodies.len() {
            let slot = self.bodies[h.index];
            if slot.generation == h.generation {
                match slot.body {
                    Some(b) => {
                        let updated = Body {
                            position: b.position,
                            rotation: b.rotation,
                            velocity: b.velocity,
                            status: b.status,
                            force: v2_add(b.force, force),
                        };
                        self.bodies.set(
                            h.index,
                            BodySlot { generation: slot.generation, body: Some(updated) },
                        );
                        proof {
                            assert(final(self).bodies@ =~= apply_force_spec(
                                old(self).bodies@,
                                h,
                                force,
                            ));
                        }
                    },
                    None => {},
                }
            }
        }
    }

    /// Advance the simulation by one fixed timestep. Every live body moves
    /// as `step_body_spec` says and nothing else changes, so the outcome is
    /// a function of the world and `dt` alone.
    pub fn step(&mut self, dt: i64)
        requires
            dt >= 1,
        ensures
            final(self).bodies@ == step_bodies_spec(old(self).bodies@, old(self).gravity, dt),
            final(self).colliders@ == old(self).colliders@,
            final(self).gravity == old(self).gravity,
    {
        let g = self.gravity;
        let n = self.bodies.len();
        let mut i: usize = 0;
        while i < n
            invariant
                i <= n,
                n == self.bodies@.len(),
                n == old(self).bodies@.len(),
                g == old(self).gravity,
                self.gravity == old(self).gravity,
                self.colliders@ == old(self).colliders@,
                forall|j: int|
                    0 <= j < i ==> self.bodies@[j] == step_slot_spec(
                        old(self).bodies@[j],
                        g,
                        dt,
                    ),
                forall|j: int| i <= j < n ==> self.bodies@[j] == old(self).bodies@[j],
            decreases n - i,
        {
            let slot = self.bodies[i];
            match slot.body {
                Some(b) => {
                    let stepped = match b.status {
                        BodyStatus::Dynamic => {
                            let vel = v2_add(b.velocity, v2_scale(v2_add(g, b.force), dt));
                            Body {
                                position: v2_add(b.position, v2_scale(vel, dt)),
                                rotation: b.rotation,
                                velocity: vel,
                                status: b.status,
                                force: v2_zero(),
                            }
                        },
                        BodyStatus::Static => {
                            Body {
                                position: b.position,
                                rotation: b.rotation,
                                velocity: b.velocity,
                                status: b.status,
                                force: v2_zero(),
                            }
                        },
                    };
                    self.bodies.set(i, BodySlot { generation: slot.generation, body: Some(stepped) });
                },
                None => {},
            }
            i = i + 1;
        }
        proof {
            assert(self.bodies@ =~= step_bodies_spec(old(self).bodies@, old(self).gravity, dt));
        }
    }

    /// Read back the transform the collision object `h` is at. This fails
    /// loudly — a stale handle here means the entity registry and the
    /// physics world have drifted apart, which callers must not ignore.
    pub fn lookup_transform(&self, h: ColliderHandle) -> (r: Result<(Vec2, i64), PhysicsError>)
        ensures
            self.collider_resolves(h) ==> r == Result::<(Vec2, i64), PhysicsError>::Ok(
                (
                    self.body_at(self.collider_at(h).parent).position,
                    self.body_at(self.collider_at(h).parent).rotation,
                ),
            ),
            !self.collider_resolves(h) ==> r == Result::<(Vec2, i64), PhysicsError>::Err(
                PhysicsError::StaleCollider,
            ),
    {
        if h.index >= self.colliders.len() {
            return Err(PhysicsError::StaleCollider);
        }
        let slot = &self.colliders[h.index];
        if slot.generation != h.generation {
            return Err(PhysicsError::StaleCollider);
        }
        match &slot.object {
            Some(object) => {
                let parent = object.parent;
                if h_body_live(self, parent) {
                    let body_slot = self.bodies[parent.index];
                    match body_slot.body {
                        Some(b) => Ok((b.position, b.rotation)),
                        None => Err(PhysicsError::StaleCollider),
                    }
                } else {
                    Err(PhysicsError::StaleCollider)
                }
            },
            None => Err(PhysicsError::StaleCollider),
        }
    }

    /// Remove a body. The slot keeps its generation and is never reused,
    /// so every handle to the removed body is stale from here on. Collision
    /// objects attached to it stop resolving for the same reason.
    pub fn remove_body(&mut self, h: BodyHandle)
        ensures
            old(self).body_live(h) ==> final(self).bodies@ =~= old(self).bodies@.update(
                h.index as int,
                BodySlot { generation: h.generation, body: None },
            ),
            !old(self).body_live(h) ==> *final(self) == *old(self),
            final(self).colliders@ == old(self).colliders@,
            final(self).gravity == old(self).gravity,
            !final(self).body_live(h),
    {
        if h.index < self.bodies.len() {
            let slot = self.bodies[h.index];
            if slot.generation == h.generation && slot.body.is_some() {
                self.bodies.set(h.index, BodySlot { generation: slot.generation, body: None });
            }
        }
    }

    /// Remove a collision object; its handle is stale from here on.
    pub fn remove_collider(&mut self, h: ColliderHandle)
        ensures
            old(self).collider_live(h) ==> final(self).colliders@ =~= old(self).colliders@.update(
                h.index as int,
                ColliderSlot { generation: h.generation, object: None },
            ),
            !old(self).collider_live(h) ==> *final(self) == *old(self),
            final(self).bodies@ == old(self).bodies@,
            final(self).gravity == old(self).gravity,
            !final(self).collider_live(h),
    {
        if h.index < self.colliders.len() {
            let live = self.colliders[h.index].generation == h.generation
                && self.colliders[h.index].object.is_some();
            if live {
                let generation = h.generation;
                self.colliders.set(h.index, ColliderSlot { generation, object: None });
            }
        }
    }

    /// The contacts found by the last step. The bridge records none yet;
    /// this is the extension point for collision response.
    pub fn contact_events(&self) -> (r: Vec<ContactEvent>)
        ensures
            r@ =~= Seq::<ContactEvent>::empty(),
    {
        Vec::new()
    }

    /// The proximity changes found by the last step; empty, as
    /// `contact_events` is.
    pub fn proximity_events(&self) -> (r: Vec<ProximityEvent>)
        ensures
            r@ =~= Seq::<ProximityEvent>::empty(),
    {
        Vec::new()
    }
}

/// Stepping moves bodies but never creates or removes them: a handle is
/// live after a step exactly when it was live before.
pub proof fn lemma_step_preserves_live(bodies: Seq<BodySlot>, g: Vec2, dt: i64, h: BodyHandle)
    ensures
        slot_live(step_bodies_spec(bodies, g, dt), h) == slot_live(bodies, h),
{
    if h.index < bodies.len() {
        assert(step_bodies_spec(bodies, g, dt)[h.index as int] == step_slot_spec(
            bodies[h.index as int],
            g,
            dt,
        ));
    }
}

/// Applying a force only grows one body's accumulator: liveness of every
/// handle is untouched.
pub proof fn lemma_apply_force_preserves_live(
    bodies: Seq<BodySlot>,
    target: BodyHandle,
    force: Vec2,
    h: BodyHandle,
)
    ensures
        slot_live(apply_force_spec(bodies, target, force), h) == slot_live(bodies, h),
{
}

/// One bridge mutation, as data: the only operations that move the world
/// between readbacks.
#[derive(Clone, Copy, Debug, PartialEq, Eq, Structural)]
pub enum PhysicsOp {
    Step { dt: i64 },
    ApplyForce { handle: BodyHandle, force: Vec2 },
    SetGravity { gravity: Vec2 },
}

/// The body table and gravity vector after one bridge operation. Each arm
/// is the same spec function the corresponding exec method is proved
/// against, so this is the semantics of the bridge, not a restatement.
pub open spec fn apply_op_spec(bodies: Seq<BodySlot>, gravity: Vec2, op: PhysicsOp) -> (
    Seq<BodySlot>,
    Vec2,
) {
    match op {
        PhysicsOp::Step { dt } => (step_bodies_spec(bodies, gravity, dt), gravity),
        PhysicsOp::ApplyForce { handle, force } => (
            apply_force_spec(bodies, handle, force),
            gravity,
        ),
        PhysicsOp::SetGravity { gravity: g } => (bodies, g),
    }
}

/// The world after a whole sequence of bridge operations, first to last.
pub open spec fn run_ops_spec(bodies: Seq<BodySlot>, gravity: Vec2, ops: Seq<PhysicsOp>) -> (
    Seq<BodySlot>,
    Vec2,
)
    decreases ops.len(),
{
    if ops.len() == 0 {
        (bodies, gravity)
    } else {
        let next = apply_op_spec(bodies, gravity, ops.first());
        run_ops_spec(next.0, next.1, ops.drop_first())
    }
}

/// The simulation is deterministic: for any sequence of steps, force
/// applications and gravity changes, two runs from identical body and
/// gravity configurations end in identical worlds. This holds because each
/// mutating method's contract pins its outcome as a function of the prior
/// world and the call's arguments alone — nothing depends on wall-clock
/// time or any other ambient state.
pub proof fn lemma_simulation_deterministic(
    bodies1: Seq<BodySlot>,
    gravity1: Vec2,
    bodies2: Seq<BodySlot>,
    gravity2: Vec2,
    ops: Seq<PhysicsOp>,
)
    requires
        bodies1 == bodies2,
        gravity1 == gravity2,
    ensures
        run_ops_spec(bodies1, gravity1, ops) == run_ops_spec(bodies2, gravity2, ops),
    decreases ops.len(),
{
    if ops.len() > 0 {
        let next = apply_op_spec(bodies1, gravity1, ops.first());
        lemma_simulation_deterministic(next.0, next.1, next.0, next.1, ops.drop_first());
    }
}

/// Runtime check that a body handle resolves, equal to `body_live`.
fn h_body_live(w: &PhysicsWorld, h: BodyHandle) -> (r: bool)
    ensures
        r == w.body_live(h),
{
    h.index < w.bodies.len() && w.bodies[h.index].generation == h.generation
        && w.bodies[h.index].body.is_some()
}

} // verus!
