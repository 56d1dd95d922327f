//! What components say to each other.
use vstd::prelude::*;
use crate::physics::messages::PhysicsMessage;
use crate::scalar::Scalar;

verus! {

/// A message from one component to the others.
#[derive(Debug)]
pub enum ComponentMessage<S: Scalar> {
    /// A message for physics components.
    PhysicsMessage(PhysicsMessage<S>),
    /// A notice with a code of the application's own. A component that does
    /// not know what to do with a message passes over it.
    Notice(u32),
}

impl<S: Scalar> Clone for ComponentMessage<S> {
    fn clone(&self) -> (message: Self)
        ensures
            message == *self,
    {
        *self
    }
}

impl<S: Scalar> Copy for ComponentMessage<S> {
}

} // verus!
