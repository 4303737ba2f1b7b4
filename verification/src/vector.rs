use crate::scalar::Scalar;
use vstd::prelude::*;

verus! {

/// A location in space, in homogeneous coordinates: three free components and
/// a fourth that is always `1.0`.
#[derive(Clone, Copy, Debug)]
pub struct Point {
    components: [Scalar; 4],
}

/// A direction or displacement, in homogeneous coordinates: three free
/// components and a fourth that is always `0.0`.
#[derive(Clone, Copy, Debug)]
pub struct Vector {
    components: [Scalar; 4],
}

impl Point {
    #[verifier::type_invariant]
    spec fn marked(self) -> bool {
        self.components@[3] == Scalar::one()
    }

    /// The four homogeneous components in order.
    pub closed spec fn coordinates(self) -> Seq<Scalar> {
        self.components@
    }

    /// Whether the fourth component marks a location.
    pub open spec fn is_location(self) -> bool {
        self.coordinates().len() == 4 && self.coordinates()[3] == Scalar::one()
    }

    pub fn new(x: Scalar, y: Scalar, z: Scalar) -> (p: Point)
        ensures
            p.coordinates() == seq![x, y, z, Scalar::one()],
            p.is_location(),
    {
        let p = Point { components: [x, y, z, Scalar::one()] };
        assert(p.coordinates() =~= seq![x, y, z, Scalar::one()]);
        p
    }

    /// The point with all three free components at `0.0`.
    pub fn origin() -> (p: Point)
        ensures
            p.coordinates() == seq![Scalar::zero(), Scalar::zero(), Scalar::zero(), Scalar::one()],
            p.is_location(),
    {
        Point::new(Scalar::zero(), Scalar::zero(), Scalar::zero())
    }

    /// The four components; the fourth is `1.0` for every point there is.
    pub fn components(&self) -> (components: [Scalar; 4])
        ensures
            components@ == self.coordinates(),
            self.is_location(),
    {
        proof {
            use_type_invariant(self);
        }
        self.components
    }

    /// The point at the first three of four homogeneous components. The
    /// fourth is not taken over: it is rebuilt as `1.0`, whatever was given.
    pub fn from(components: [Scalar; 4]) -> (p: Point)
        ensures
            p.coordinates() == seq![components@[0], components@[1], components@[2], Scalar::one()],
            p.is_location(),
    {
        Point::new(components[0], components[1], components[2])
    }
}

impl Vector {
    #[verifier::type_invariant]
    spec fn marked(self) -> bool {
        self.components@[3] == Scalar::zero()
    }

    /// The four homogeneous components in order.
    pub closed spec fn coordinates(self) -> Seq<Scalar> {
        self.components@
    }

    /// Whether the fourth component marks a direction.
    pub open spec fn is_direction(self) -> bool {
        self.coordinates().len() == 4 && self.coordinates()[3] == Scalar::zero()
    }

    pub fn new(x: Scalar, y: Scalar, z: Scalar) -> (v: Vector)
        ensures
            v.coordinates() == seq![x, y, z, Scalar::zero()],
            v.is_direction(),
    {
        let v = Vector { components: [x, y, z, Scalar::zero()] };
        assert(v.coordinates() =~= seq![x, y, z, Scalar::zero()]);
        v
    }

    /// The four components; the fourth is `0.0` for every vector there is.
    pub fn components(&self) -> (components: [Scalar; 4])
        ensures
            components@ == self.coordinates(),
            self.is_direction(),
    {
        proof {
            use_type_invariant(self);
        }
        self.components
    }

    /// The direction along the first three of four homogeneous components.
    /// The fourth is not taken over: it is rebuilt as `0.0`, whatever was
    /// given, so that no translation leaks into a direction.
    pub fn from(components: [Scalar; 4]) -> (v: Vector)
        ensures
            v.coordinates() == seq![components@[0], components@[1], components@[2], Scalar::zero()],
            v.is_direction(),
    {
        Vector::new(components[0], components[1], components[2])
    }

    /// The opposite vector: each free component negated, the fourth rebuilt as
    /// `0.0`.
    pub fn neg(&self) -> (v: Vector)
        ensures
            v.coordinates() == seq![
                self.coordinates()[0].negated(),
                self.coordinates()[1].negated(),
                self.coordinates()[2].negated(),
                Scalar::zero(),
            ],
            v.is_direction(),
    {
        Vector::new(self.components[0].neg(), self.components[1].neg(), self.components[2].neg())
    }
}

} // verus!
