use crate::intersection::Intersection;
use crate::material::Material;
use crate::matrix::{Matrix, NotInvertible};
use crate::scalar::{lemma_smaller_larger, Scalar};
use vstd::prelude::*;

verus! {

/// What every primitive of a scene can be asked for.
pub trait Shape {
    /// The matrix that takes world space to the shape's own space.
    fn inverse_transformation(&self) -> &Matrix<4>;

    /// The shape's surface.
    fn material(&self) -> &Material;

    /// The crossings of a ray and this shape, nearest first, where `shape` is
    /// the handle under which the scene keeps it. The caller has taken the
    /// ray into the shape's own space and solved its quadratic there:
    /// `discriminant` decides whether the ray meets the shape at all, and the
    /// two roots are the distances at which it does.
    fn intersect(&self, discriminant: Scalar, first_root: Scalar, second_root: Scalar, shape: usize) -> Vec<
        Intersection,
    >;
}

/// The unit sphere about the origin of its own space, placed in the world by a
/// transformation of which it keeps the inverse.
///
/// A sphere is built from a placement that can be inverted, or not at all:
/// there is no way to store a matrix in one but through its constructors.
#[derive(Clone, Copy, Debug)]
pub struct Sphere {
    inverse_transformation: Matrix<4>,
    material: Material,
}

/// Whether a ray passes the sphere by: the discriminant of its quadratic is
/// below zero.
pub open spec fn misses(discriminant: Scalar) -> bool {
    discriminant.below(Scalar::zero())
}

impl Sphere {
    /// The matrix that takes world space to the sphere's own space.
    pub closed spec fn spec_inverse_transformation(self) -> Matrix<4> {
        self.inverse_transformation
    }

    /// The sphere's surface.
    pub closed spec fn spec_material(self) -> Material {
        self.material
    }

    /// The sphere placed by a pipeline of transformations, given the
    /// determinant of the pipeline's matrix and the matrix that holds
    /// `cofactor(row, col) / determinant` at `[row][col]`.
    ///
    /// A pipeline that cannot be inverted is refused here, at construction,
    /// exactly when the determinant is zero.
    pub fn with_transformations(determinant: Scalar, quotients: &Matrix<4>, material: Material) -> (r:
        Result<Sphere, NotInvertible>)
        ensures
            r is Err <==> determinant.is_zero(),
            r matches Ok(s) ==> s.spec_material() == material && Matrix::<4>::is_adjugate_placement(
                s.spec_inverse_transformation(),
                *quotients,
            ),
    {
        match Matrix::<4>::inverse(determinant, quotients) {
            Ok(inverse_transformation) => Ok(Sphere { inverse_transformation, material }),
            Err(e) => Err(e),
        }
    }
}

impl Shape for Sphere {
    fn inverse_transformation(&self) -> (m: &Matrix<4>)
        ensures
            *m == self.spec_inverse_transformation(),
    {
        &self.inverse_transformation
    }

    fn material(&self) -> (m: &Material)
        ensures
            *m == self.spec_material(),
    {
        &self.material
    }

    /// The crossings of a ray and the sphere `shape`, nearest first.
    ///
    /// The caller has taken the ray into the sphere's own space and solved the
    /// quadratic `a t^2 + b t + c = 0` there: `discriminant` is `b^2 - 4ac`,
    /// `first_root` and `second_root` are `(-b - sqrt(discriminant)) / 2a` and
    /// `(-b + sqrt(discriminant)) / 2a`.
    ///
    /// A discriminant below zero gives no crossing. Any other gives exactly
    /// two, the smaller root first; a ray that touches the sphere gives the
    /// same distance twice.
    fn intersect(&self, discriminant: Scalar, first_root: Scalar, second_root: Scalar, shape: usize) -> (found:
        Vec<Intersection>)
        ensures
            misses(discriminant) ==> found@.len() == 0,
            !misses(discriminant) ==> {
                &&& found@.len() == 2
                &&& found@[0].spec_distance() == first_root.smaller(second_root)
                &&& found@[1].spec_distance() == first_root.larger(second_root)
                &&& found@[0].spec_shape() == shape
                &&& found@[1].spec_shape() == shape
            },
            !misses(discriminant) && !first_root.is_nan() && !second_root.is_nan()
                ==> found@[0].spec_distance().at_most(found@[1].spec_distance()),
    {
        let zero = Scalar::zero();
        let mut found: Vec<Intersection> = Vec::new();
        if !discriminant.lt(&zero) {
            found.push(Intersection::new(first_root.min(&second_root), shape));
            found.push(Intersection::new(first_root.max(&second_root), shape));
            proof {
                if !first_root.is_nan() && !second_root.is_nan() {
                    lemma_smaller_larger(first_root, second_root);
                }
            }
        }
        found
    }
}

impl Default for Sphere {
    /// The unit sphere at the world's origin, with the default material.
    fn default() -> (s: Sphere)
        ensures
            s.spec_inverse_transformation().is_identity(),
            s.spec_material().is_default(),
    {
        Sphere { inverse_transformation: Matrix::identity(), material: Material::default() }
    }
}

} // verus!
