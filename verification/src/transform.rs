use crate::matrix::Matrix;
use crate::scalar::Scalar;
use vstd::prelude::*;

verus! {

/// One step of an affine pipeline.
#[derive(Clone, Copy, Debug)]
pub enum Transformation {
    /// Move by `(x, y, z)`.
    Translate(Scalar, Scalar, Scalar),
    /// Stretch by `(x, y, z)` along the axes.
    Scale(Scalar, Scalar, Scalar),
    /// Turn about the x axis by an angle in radians.
    RotateX(Scalar),
    /// Turn about the y axis by an angle in radians.
    RotateY(Scalar),
    /// Turn about the z axis by an angle in radians.
    RotateZ(Scalar),
    /// Shear: x by y, x by z, y by x, y by z, z by x, z by y.
    Shear(Scalar, Scalar, Scalar, Scalar, Scalar, Scalar),
}

impl Transformation {
    /// The angle of a rotation; nothing for the other steps.
    pub open spec fn angle_spec(self) -> Option<Scalar> {
        match self {
            Transformation::RotateX(radians) => Some(radians),
            Transformation::RotateY(radians) => Some(radians),
            Transformation::RotateZ(radians) => Some(radians),
            _ => None,
        }
    }

    /// The rows of the step's matrix, where `sin` and `cos` are the sine and
    /// cosine of its angle. Steps other than rotations ignore the two.
    pub open spec fn rows(self, sin: Scalar, cos: Scalar) -> Seq<Seq<Scalar>> {
        let o = Scalar::zero();
        let i = Scalar::one();
        match self {
            Transformation::Translate(x, y, z) => seq![
                seq![i, o, o, x],
                seq![o, i, o, y],
                seq![o, o, i, z],
                seq![o, o, o, i],
            ],
            Transformation::Scale(x, y, z) => seq![
                seq![x, o, o, o],
                seq![o, y, o, o],
                seq![o, o, z, o],
                seq![o, o, o, i],
            ],
            Transformation::RotateX(_) => seq![
                seq![i, o, o, o],
                seq![o, cos, sin.negated(), o],
                seq![o, sin, cos, o],
                seq![o, o, o, i],
            ],
            Transformation::RotateY(_) => seq![
                seq![cos, o, sin, o],
                seq![o, i, o, o],
                seq![sin.negated(), o, cos, o],
                seq![o, o, o, i],
            ],
            Transformation::RotateZ(_) => seq![
                seq![cos, sin.negated(), o, o],
                seq![sin, cos, o, o],
                seq![o, o, i, o],
                seq![o, o, o, i],
            ],
            Transformation::Shear(x_y, x_z, y_x, y_z, z_x, z_y) => seq![
                seq![i, x_y, x_z, o],
                seq![y_x, i, y_z, o],
                seq![z_x, z_y, i, o],
                seq![o, o, o, i],
            ],
        }
    }

    /// Whether `m` is the step's matrix for the given sine and cosine.
    pub open spec fn has_matrix(self, m: Matrix<4>, sin: Scalar, cos: Scalar) -> bool {
        forall|r: int, c: int|
            0 <= r < 4 && 0 <= c < 4 ==> #[trigger] m.at(r, c) == self.rows(sin, cos)[r][c]
    }

    /// The angle whose sine and cosine the step's matrix needs, if it is a
    /// rotation.
    pub fn angle(&self) -> (angle: Option<Scalar>)
        ensures
            angle == self.angle_spec(),
    {
        match self {
            Transformation::RotateX(radians) => Some(*radians),
            Transformation::RotateY(radians) => Some(*radians),
            Transformation::RotateZ(radians) => Some(*radians),
            _ => None,
        }
    }

    /// The canonical matrix of the step. For a rotation the caller supplies
    /// the sine and cosine of [`Transformation::angle`]; for the other steps
    /// the two are not read.
    pub fn matrix(&self, sin: Scalar, cos: Scalar) -> (m: Matrix<4>)
        ensures
            self.has_matrix(m, sin, cos),
    {
        let o = Scalar::zero();
        let i = Scalar::one();
        match self {
            Transformation::Translate(x, y, z) => Matrix::new(
                [[i, o, o, *x], [o, i, o, *y], [o, o, i, *z], [o, o, o, i]],
            ),
            Transformation::Scale(x, y, z) => Matrix::new(
                [[*x, o, o, o], [o, *y, o, o], [o, o, *z, o], [o, o, o, i]],
            ),
            Transformation::RotateX(_) => Matrix::new(
                [[i, o, o, o], [o, cos, sin.neg(), o], [o, sin, cos, o], [o, o, o, i]],
            ),
            Transformation::RotateY(_) => Matrix::new(
                [[cos, o, sin, o], [o, i, o, o], [sin.neg(), o, cos, o], [o, o, o, i]],
            ),
            Transformation::RotateZ(_) => Matrix::new(
                [[cos, sin.neg(), o, o], [sin, cos, o, o], [o, o, i, o], [o, o, o, i]],
            ),
            Transformation::Shear(x_y, x_z, y_x, y_z, z_x, z_y) => Matrix::new(
                [[i, *x_y, *x_z, o], [*y_x, i, *y_z, o], [*z_x, *z_y, i, o], [o, o, o, i]],
            ),
        }
    }
}

/// The matrices of a pipeline, in the order in which they are multiplied.
///
/// A pipeline applies its steps in written order, first to last. Its matrix is
/// therefore the product of the steps' matrices in reverse: the last step's
/// matrix stands leftmost. `factors[k]` is the matrix of step `n - 1 - k`, so
/// that the pipeline's matrix is `factors[0] * factors[1] * ... * factors[n - 1]`
/// (the identity for an empty pipeline).
///
/// Each step comes with the sine and the cosine of its angle; for a step that
/// is no rotation the two are not read.
pub fn transform_factors(steps: &[(Transformation, Scalar, Scalar)]) -> (factors: Vec<Matrix<4>>)
    ensures
        factors.len() == steps.len(),
        forall|k: int|
            0 <= k < factors.len() ==> steps[steps.len() - 1 - k].0.has_matrix(
                #[trigger] factors[k],
                steps[steps.len() - 1 - k].1,
                steps[steps.len() - 1 - k].2,
            ),
{
    let n = steps.len();
    let mut factors: Vec<Matrix<4>> = Vec::new();
    let mut k: usize = 0;
    while k < n
        invariant
            k <= n,
            n == steps.len(),
            factors.len() == k,
            forall|j: int|
                0 <= j < k ==> steps[n - 1 - j].0.has_matrix(
                    #[trigger] factors[j],
                    steps[n - 1 - j].1,
                    steps[n - 1 - j].2,
                ),
        decreases n - k,
    {
        let step = &steps[n - 1 - k];
        factors.push(step.0.matrix(step.1, step.2));
        k += 1;
    }
    factors
}

} // verus!
