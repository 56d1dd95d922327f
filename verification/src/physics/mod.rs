//! Physics: the component that moves its host, and the messages it takes.
pub mod components;
pub mod messages;
