//! What can be said to a physics component.
use vstd::prelude::*;
use vstd::std_specs::convert::IntoSpec;
use crate::scalar::Scalar;

verus! {

/// A force to be applied, by its horizontal and its vertical part.
#[derive(Debug)]
pub struct PhysicsMessage<S: Scalar> {
    pub force: (S, S),
}

impl<S: Scalar> Clone for PhysicsMessage<S> {
    fn clone(&self) -> (message: Self)
        ensures
            message == *self,
    {
        *self
    }
}

impl<S: Scalar> Copy for PhysicsMessage<S> {
}

impl<S: Scalar> PhysicsMessage<S> {
    /// The message that asks for the force (`x`, `y`) to be applied.
    pub fn apply_force<A: Into<S>, B: Into<S>>(x: A, y: B) -> (message: PhysicsMessage<S>)
        ensures
            A::obeys_into_spec() ==> message.force.0 == x.into_spec(),
            B::obeys_into_spec() ==> message.force.1 == y.into_spec(),
    {
        PhysicsMessage { force: (x.into(), y.into()) }
    }
}

} // verus!
