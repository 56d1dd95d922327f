//! Rectangles: a position, which is the bottom-left corner, and a size.
use vstd::prelude::*;
use vstd::std_specs::convert::IntoSpec;
use vstd::std_specs::ops::AddSpec;
use vstd::std_specs::ops::MulSpec;
use cgmath::Point2;
use glium::glutin::dpi::PhysicalSize;
use crate::scalar::of;
use crate::scalar::scalar_of;
use crate::scalar::converts;
use crate::scalar::total;
use crate::scalar::Scalar;

verus! {

/// `cgmath::Point2`: a point with the two public coordinates `x` and `y`.
#[verifier::external_type_specification]
#[verifier::reject_recursive_types(S)]
pub struct ExPoint2<S>(Point2<S>);

/// `glium::glutin::dpi::PhysicalSize`: a size with the two public extents
/// `width` and `height`.
#[verifier::external_type_specification]
#[verifier::reject_recursive_types(P)]
pub struct ExPhysicalSize<P>(PhysicalSize<P>);

/// A rectangle whose position is its bottom-left corner.
#[derive(Debug)]
#[verifier::reject_recursive_types(S)]
pub struct Rect<S: Scalar> {
    pub position: Point2<S>,
    pub size: PhysicalSize<S>,
}

impl<S: Scalar> Clone for Rect<S> {
    fn clone(&self) -> (rect: Self)
        ensures
            rect == *self,
    {
        *self
    }
}

impl<S: Scalar> Copy for Rect<S> {
}

impl<S: Scalar> Rect<S> {
    /// The rectangle at `position` with the extents of `size`.
    pub fn new(position: Point2<S>, size: PhysicalSize<S>) -> (rect: Self)
        ensures
            rect.position == position,
            rect.size == size,
    {
        Rect { position, size }
    }

    /// The rectangle at the origin whose extents are `dimensions`, each
    /// multiplied by `scale`.
    pub fn from_scaled<T: Into<S>>(dimensions: (T, T), scale: S) -> (rect: Self)
        requires
            total::<S>(),
        ensures
            converts::<S>() ==> rect.position == origin::<S>(),
            S::obeys_mul_spec() && T::obeys_into_spec() ==> rect.size == (PhysicalSize {
                width: dimensions.0.into_spec().mul_spec(scale),
                height: dimensions.1.into_spec().mul_spec(scale),
            }),
    {
        let (width, height) = dimensions;
        Rect::new(
            Point2 { x: scalar_of(0), y: scalar_of(0) },
            PhysicalSize { width: width.into() * scale, height: height.into() * scale },
        )
    }

    /// `self` moved so that its bottom-left corner is at (`x`, `y`).
    pub open spec fn at(self, x: S, y: S) -> Self {
        Rect { position: Point2 { x, y }, size: self.size }
    }
}

/// The point whose coordinates both stand for zero.
pub open spec fn origin<S: Scalar>() -> Point2<S> {
    Point2 { x: of::<S>(0), y: of::<S>(0) }
}

impl<S: Scalar> Rectangular<S> for Rect<S> {
    open spec fn rect(&self) -> Rect<S> {
        *self
    }

    open spec fn put_rect(self, rect: Rect<S>) -> Self {
        rect
    }

    fn get_rect(&self) -> (rect: &Rect<S>) {
        self
    }

    fn get_rect_mut(&mut self) -> (rect: &mut Rect<S>) {
        self
    }
}

impl<S: Scalar> Default for Rect<S> {
    /// The rectangle at the origin with no extent.
    fn default() -> (rect: Self)
        ensures
            converts::<S>() ==> rect.position == origin::<S>() && rect.size == (PhysicalSize {
                width: of::<S>(0),
                height: of::<S>(0),
            }),
    {
        Rect::new(
            Point2 { x: scalar_of(0), y: scalar_of(0) },
            PhysicalSize { width: scalar_of(0), height: scalar_of(0) },
        )
    }
}

/// What anything that occupies a rectangle can do.
pub trait Rectangular<S: Scalar>: Sized {
    /// The rectangle that `self` occupies.
    spec fn rect(&self) -> Rect<S>;

    /// `self` with its rectangle replaced and nothing else changed.
    spec fn put_rect(self, rect: Rect<S>) -> Self;

    /// The rectangle.
    fn get_rect(&self) -> (rect: &Rect<S>)
        ensures
            *rect == self.rect(),
    ;

    /// The rectangle, to be changed in place.
    fn get_rect_mut(&mut self) -> (rect: &mut Rect<S>)
        ensures
            *rect == old(self).rect(),
            final(self).rect() == *final(rect),
            *final(self) == old(self).put_rect(*final(rect)),
    ;

    /// `self` with its bottom-left corner at (`x`, `y`).
    fn with_position<X, Y>(self, x: X, y: Y) -> (moved: Self) where X: Into<S>, Y: Into<S>
        ensures
            moved == self.put_rect(moved.rect()),
            moved.rect().size == self.rect().size,
            X::obeys_into_spec() ==> moved.rect().position.x == x.into_spec(),
            Y::obeys_into_spec() ==> moved.rect().position.y == y.into_spec(),
    {
        let mut moved = self;
        let rect = moved.get_rect_mut();
        rect.position.x = x.into();
        rect.position.y = y.into();
        moved
    }

    /// The horizontal coordinate of the position.
    fn x(&self) -> (x: S)
        ensures
            x == self.rect().position.x,
    {
        self.get_rect().position.x
    }

    /// The vertical coordinate of the position.
    fn y(&self) -> (y: S)
        ensures
            y == self.rect().position.y,
    {
        self.get_rect().position.y
    }

    /// The left edge.
    fn left(&self) -> (x: S)
        ensures
            x == self.rect().position.x,
    {
        self.x()
    }

    /// The bottom edge.
    fn bottom(&self) -> (y: S)
        ensures
            y == self.rect().position.y,
    {
        self.y()
    }

    /// The width.
    fn width(&self) -> (width: S)
        ensures
            width == self.rect().size.width,
    {
        self.get_rect().size.width
    }

    /// The height.
    fn height(&self) -> (height: S)
        ensures
            height == self.rect().size.height,
    {
        self.get_rect().size.height
    }

    /// The right edge: the left edge plus the width.
    fn right(&self) -> (x: S)
        requires
            total::<S>(),
        ensures
            S::obeys_add_spec() ==> x == self.rect().position.x.add_spec(self.rect().size.width),
    {
        self.x() + self.width()
    }

    /// The top edge: the bottom edge plus the height.
    fn top(&self) -> (y: S)
        requires
            total::<S>(),
        ensures
            S::obeys_add_spec() ==> y == self.rect().position.y.add_spec(self.rect().size.height),
    {
        self.y() + self.height()
    }

    /// Moves `self` to the given position. A coordinate given as `None`
    /// stays as it is.
    fn move_ip<T: Into<S>>(&mut self, x: Option<T>, y: Option<T>)
        ensures
            *final(self) == old(self).put_rect(final(self).rect()),
            final(self).rect().size == old(self).rect().size,
            match x {
                Some(x) => T::obeys_into_spec() ==> final(self).rect().position.x == x.into_spec(),
                None => final(self).rect().position.x == old(self).rect().position.x,
            },
            match y {
                Some(y) => T::obeys_into_spec() ==> final(self).rect().position.y == y.into_spec(),
                None => final(self).rect().position.y == old(self).rect().position.y,
            },
    {
        let rect = self.get_rect_mut();
        if let Some(x) = x {
            rect.position.x = x.into();
        }
        if let Some(y) = y {
            rect.position.y = y.into();
        }
    }

    /// Adds `x` and `y` to the coordinates of the position.
    fn move_by<A: Into<S>, B: Into<S>>(&mut self, x: A, y: B)
        requires
            total::<S>(),
        ensures
            *final(self) == old(self).put_rect(final(self).rect()),
            final(self).rect().size == old(self).rect().size,
            S::obeys_add_spec() && A::obeys_into_spec() ==> final(self).rect().position.x
                == old(self).rect().position.x.add_spec(x.into_spec()),
            S::obeys_add_spec() && B::obeys_into_spec() ==> final(self).rect().position.y
                == old(self).rect().position.y.add_spec(y.into_spec()),
    {
        let rect = self.get_rect_mut();
        rect.position.x = rect.position.x + x.into();
        rect.position.y = rect.position.y + y.into();
    }
}

} // verus!
