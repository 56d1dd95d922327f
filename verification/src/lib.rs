//! The update core of a small 2D game engine.
//!
//! A [`group::Group`] keeps entities in slots so that each can be taken out,
//! transformed by value and put back. Components attached to a host entity are
//! advanced once per frame and talk to each other through mailboxes; the
//! physics component integrates the host's position under gravity.
//!
//! Coordinates, masses and forces are of a scalar type chosen by the caller
//! (see [`scalar`]): the protocol is proved for every such type, and the
//! arithmetic is stated over the scalar's own operations.
use vstd::prelude::*;

pub mod component;
pub mod graphics;
pub mod group;
pub mod messaging;
pub mod misc_traits;
pub mod physics;
pub mod rect;
pub mod scalar;
pub mod time;

pub use rect::Rect;

verus! {

/// The sum of two sizes.
pub fn add(left: usize, right: usize) -> (sum: usize)
    requires
        left + right <= usize::MAX,
    ensures
        sum == left + right,
{
    left + right
}

} // verus!
