//! A small interactive simulation core: bouncing balls in a bounded arena
//! under optional gravity, organised as an entity registry, a physics
//! bridge with generation-checked handles, a scene stack, and an input
//! binder. Rendering and windowing live outside the library; the library
//! computes what to draw and how the world evolves.

pub mod game;
pub mod math;
pub mod physics;
pub mod registry;
pub mod scene;
pub mod system;
pub mod world;
