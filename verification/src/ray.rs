use crate::vector::{Point, Vector};
use vstd::prelude::*;

verus! {

/// A half-line: where it starts and which way it goes. A ray does not change
/// once it is built.
#[derive(Clone, Copy, Debug)]
pub struct Ray {
    origin: Point,
    direction: Vector,
}

impl Ray {
    /// Where the ray starts.
    pub closed spec fn spec_origin(self) -> Point {
        self.origin
    }

    /// Which way the ray goes.
    pub closed spec fn spec_direction(self) -> Vector {
        self.direction
    }

    pub fn new(origin: Point, direction: Vector) -> (ray: Ray)
        ensures
            ray.spec_origin() == origin,
            ray.spec_direction() == direction,
    {
        Ray { origin, direction }
    }

    pub fn origin(&self) -> (origin: &Point)
        ensures
            *origin == self.spec_origin(),
    {
        &self.origin
    }

    pub fn direction(&self) -> (direction: &Vector)
        ensures
            *direction == self.spec_direction(),
    {
        &self.direction
    }
}

} // verus!
