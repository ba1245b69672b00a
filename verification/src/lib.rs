//! A screen-anchored world-axes overlay for a real-time 3D scene.
//!
//! The library keeps a small three-axis indicator pinned to a fixed corner of
//! one camera's viewport while counter-rotating it against a (possibly
//! different) camera's orientation, so that the indicator always shows true
//! world-space directions.

pub mod math;
pub mod scene;
pub mod world_axes;

pub use math::{Mat4Bits, QuatBits, Vec3Bits, Vec4Bits};
pub use scene::{
    Capsule, EntityRecord, MaterialAssets, MeshAssets, Rgba, Role, SceneWorld, Transform3,
    WorldAxesPositionTag, WorldAxesRotationTag, WorldAxesTag,
};
pub use world_axes::{
    despawn_world_axes, spawn_world_axes, world_axes_setup_system, world_axes_system,
    world_axes_toggle_system, WorldAxes, WorldAxesPlugin,
};
