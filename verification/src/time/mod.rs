//! Time between frames.
pub mod clock;

pub use clock::Clock;
