//! The components that physics offers.
pub mod physics_comp;

pub use physics_comp::PhysicsComponent;
