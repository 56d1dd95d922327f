//! The scalar type of coordinates, masses and forces.
//!
//! The engine computes with whatever number type the caller picks, through
//! the operators of `core::ops`. What an operation returns is stated over the
//! scalar's own specification of that operator, and holds for a scalar that
//! obeys its specification.
use vstd::prelude::*;
use vstd::std_specs::convert::FromSpec;
use vstd::std_specs::ops::AddSpec;
use vstd::std_specs::ops::DivSpec;
use vstd::std_specs::ops::MulSpec;
use vstd::std_specs::cmp::PartialOrdSpec;
use core::cmp::Ordering;
use core::ops::Add;
use core::ops::Div;
use core::ops::Mul;

verus! {

/// A number type the engine can compute with: copyable, with sum, product,
/// quotient and order, and with a value for every `u32`.
pub trait Scalar: Copy + Add<Output = Self> + Mul<Output = Self> + Div<Output = Self> + PartialOrd + From<u32> {
}

impl<S> Scalar for S where
    S: Copy + Add<Output = S> + Mul<Output = S> + Div<Output = S> + PartialOrd + From<u32>
{
}

/// The scalar's order returns what its specification says.
pub open spec fn ordered<S: Scalar>() -> bool {
    S::obeys_partial_cmp_spec()
}

/// The scalar's conversion from `u32` returns what its specification says.
pub open spec fn converts<S: Scalar>() -> bool {
    <S as FromSpec<u32>>::obeys_from_spec()
}

/// Converting a scalar into a scalar gives the scalar itself.
pub open spec fn converts_to_itself<S: Scalar>() -> bool {
    &&& <S as FromSpec<S>>::obeys_from_spec()
    &&& forall|s: S| #[trigger] <S as FromSpec<S>>::from_spec(s) == s
}

/// The scalar's operations return what its specification says.
pub open spec fn lawful<S: Scalar>() -> bool {
    &&& S::obeys_add_spec()
    &&& S::obeys_mul_spec()
    &&& S::obeys_div_spec()
    &&& ordered::<S>()
    &&& converts::<S>()
    &&& converts_to_itself::<S>()
}

/// Every sum, product and quotient of two scalars is defined.
pub open spec fn total<S: Scalar>() -> bool {
    &&& forall|a: S, b: S| #[trigger] a.add_req(b)
    &&& forall|a: S, b: S| #[trigger] a.mul_req(b)
    &&& forall|a: S, b: S| #[trigger] a.div_req(b)
}

/// The scalar that stands for `n`.
pub open spec fn of<S: Scalar>(n: u32) -> S {
    <S as FromSpec<u32>>::from_spec(n)
}

/// `a` is greater than `b`.
pub open spec fn greater<S: Scalar>(a: S, b: S) -> bool {
    a.partial_cmp_spec(&b) == Some(Ordering::Greater)
}

/// The scalar that stands for `n`.
pub fn scalar_of<S: Scalar>(n: u32) -> (s: S)
    ensures
        converts::<S>() ==> s == of::<S>(n),
{
    S::from(n)
}

/// Whether `a` is greater than `b`.
pub fn is_greater<S: Scalar>(a: S, b: S) -> (r: bool)
    ensures
        ordered::<S>() ==> r == greater(a, b),
{
    a > b
}

} // verus!
