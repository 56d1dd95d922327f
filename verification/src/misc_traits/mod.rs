//! Capabilities that are not tied to graphics or physics.
pub mod named;
pub mod update;
