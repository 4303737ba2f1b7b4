use crate::scalar::Scalar;
use vstd::prelude::*;

verus! {

/// The index that is left at place `i` once index `removed` is taken out.
pub open spec fn skip_index(removed: int, i: int) -> int {
    if i < removed {
        i
    } else {
        i + 1
    }
}

/// The sign pattern of cofactors: the minor itself where `row + col` is even,
/// the negated minor where it is odd.
pub open spec fn signed_minor(minor: Scalar, row: int, col: int) -> Scalar {
    if (row + col) % 2 == 0 {
        minor
    } else {
        minor.negated()
    }
}

/// The failure of an inversion: the determinant is zero.
#[derive(Clone, Copy, Debug, PartialEq, Eq, Structural)]
pub struct NotInvertible;

/// A square matrix of `N` rows and `N` columns, stored row by row.
#[derive(Clone, Copy, Debug)]
pub struct Matrix<const N: usize> {
    elements: [[Scalar; N]; N],
}

impl<const N: usize> Matrix<N> {
    /// The entry in row `r` and column `c`.
    pub closed spec fn at(self, r: int, c: int) -> Scalar {
        self.elements@[r]@[c]
    }

    /// Whether `other` holds the same entry as `self` at every place.
    pub open spec fn same_entries(self, other: Self) -> bool {
        forall|r: int, c: int| 0 <= r < N && 0 <= c < N ==> self.at(r, c) == other.at(r, c)
    }

    /// Whether `self` is the identity: one on the diagonal, zero elsewhere.
    pub open spec fn is_identity(self) -> bool {
        forall|r: int, c: int|
            0 <= r < N && 0 <= c < N ==> self.at(r, c) == if r == c {
                Scalar::one()
            } else {
                Scalar::zero()
            }
    }

    /// Whether `self` is `other` with rows and columns exchanged.
    pub open spec fn is_transpose_of(self, other: Self) -> bool {
        forall|r: int, c: int| 0 <= r < N && 0 <= c < N ==> self.at(r, c) == other.at(c, r)
    }

    pub fn new(elements: [[Scalar; N]; N]) -> (m: Self)
        ensures
            forall|r: int, c: int|
                0 <= r < N && 0 <= c < N ==> #[trigger] m.at(r, c) == elements@[r]@[c],
    {
        Matrix { elements }
    }

    /// The entries, row by row.
    pub fn elements(&self) -> (elements: [[Scalar; N]; N])
        ensures
            forall|r: int, c: int|
                0 <= r < N && 0 <= c < N ==> #[trigger] elements@[r]@[c] == self.at(r, c),
    {
        self.elements
    }

    /// The entry in row `row` and column `col`.
    pub fn get(&self, row: usize, col: usize) -> (s: Scalar)
        requires
            row < N,
            col < N,
        ensures
            s == self.at(row as int, col as int),
    {
        self.elements[row][col]
    }

    /// The matrix with every entry equal to `value`.
    pub fn filled(value: Scalar) -> (m: Self)
        ensures
            forall|r: int, c: int| 0 <= r < N && 0 <= c < N ==> m.at(r, c) == value,
    {
        Matrix { elements: [[value; N]; N] }
    }

    pub fn identity() -> (m: Self)
        ensures
            m.is_identity(),
    {
        let mut elements = [[Scalar::zero(); N]; N];
        let mut i: usize = 0;
        while i < N
            invariant
                i <= N,
                forall|r: int, c: int|
                    0 <= r < N && 0 <= c < N && r != c ==> #[trigger] elements@[r]@[c]
                        == Scalar::zero(),
                forall|r: int| 0 <= r < i ==> #[trigger] elements@[r]@[r] == Scalar::one(),
            decreases N - i,
        {
            let mut row = elements[i];
            row[i] = Scalar::one();
            elements[i] = row;
            i += 1;
        }
        Matrix { elements }
    }

    pub fn transpose(&self) -> (t: Self)
        ensures
            t.is_transpose_of(*self),
    {
        let mut elements = [[Scalar::zero(); N]; N];
        let mut r: usize = 0;
        while r < N
            invariant
                r <= N,
                forall|i: int, j: int|
                    0 <= i < r && 0 <= j < N ==> #[trigger] elements@[i]@[j] == self.at(j, i),
            decreases N - r,
        {
            let mut row = elements[r];
            let mut c: usize = 0;
            while c < N
                invariant
                    c <= N,
                    r < N,
                    forall|j: int| 0 <= j < c ==> #[trigger] row@[j] == self.at(j, r as int),
                decreases N - c,
            {
                row[c] = self.elements[c][r];
                c += 1;
            }
            elements[r] = row;
            r += 1;
        }
        Matrix { elements }
    }
}

impl Matrix<4> {
    /// Whether `sub` is `m` without row `removed_row` and column `removed_col`.
    pub open spec fn is_submatrix_of(sub: Matrix<3>, m: Matrix<4>, removed_row: int, removed_col: int) -> bool {
        forall|r: int, c: int|
            0 <= r < 3 && 0 <= c < 3 ==> sub.at(r, c) == m.at(
                skip_index(removed_row, r),
                skip_index(removed_col, c),
            )
    }

    /// The three indices of `0..4` other than `n`, ascending.
    pub fn remaining_indices(n: usize) -> (rest: [usize; 3])
        requires
            n < 4,
        ensures
            forall|i: int| 0 <= i < 3 ==> #[trigger] rest@[i] == skip_index(n as int, i),
    {
        if n == 0 {
            [1, 2, 3]
        } else if n == 1 {
            [0, 2, 3]
        } else if n == 2 {
            [0, 1, 3]
        } else {
            [0, 1, 2]
        }
    }

    /// The matrix without one row and one column.
    pub fn submatrix(&self, removed_row: usize, removed_col: usize) -> (sub: Matrix<3>)
        requires
            removed_row < 4,
            removed_col < 4,
        ensures
            Self::is_submatrix_of(sub, *self, removed_row as int, removed_col as int),
    {
        let rows = Self::remaining_indices(removed_row);
        let cols = Self::remaining_indices(removed_col);
        let mut elements = [[Scalar::zero(); 3]; 3];
        let mut r: usize = 0;
        while r < 3
            invariant
                r <= 3,
                forall|i: int| 0 <= i < 3 ==> #[trigger] rows@[i] == skip_index(removed_row as int, i),
                forall|i: int| 0 <= i < 3 ==> #[trigger] cols@[i] == skip_index(removed_col as int, i),
                removed_row < 4,
                removed_col < 4,
                forall|i: int, j: int|
                    0 <= i < r && 0 <= j < 3 ==> #[trigger] elements@[i]@[j] == self.at(
                        skip_index(removed_row as int, i),
                        skip_index(removed_col as int, j),
                    ),
            decreases 3 - r,
        {
            let mut row = elements[r];
            let mut c: usize = 0;
            while c < 3
                invariant
                    c <= 3,
                    r < 3,
                    forall|i: int| 0 <= i < 3 ==> #[trigger] rows@[i] == skip_index(removed_row as int, i),
                    forall|i: int| 0 <= i < 3 ==> #[trigger] cols@[i] == skip_index(removed_col as int, i),
                    removed_row < 4,
                    removed_col < 4,
                    forall|j: int|
                        0 <= j < c ==> #[trigger] row@[j] == self.at(
                            skip_index(removed_row as int, r as int),
                            skip_index(removed_col as int, j),
                        ),
                decreases 3 - c,
            {
                row[c] = self.elements[rows[r]][cols[c]];
                c += 1;
            }
            elements[r] = row;
            r += 1;
        }
        Matrix { elements }
    }

    /// The cofactor at (`row`, `col`), given the minor there: the determinant
    /// of `self.submatrix(row, col)`.
    pub fn cofactor(minor: Scalar, row: usize, col: usize) -> (r: Scalar)
        ensures
            r == signed_minor(minor, row as int, col as int),
    {
        apply_cofactor_sign(minor, row, col)
    }

    /// Whether `inverse` holds, at `[col][row]`, what `quotients` holds at
    /// `[row][col]`: the placement of the adjugate.
    pub open spec fn is_adjugate_placement(inverse: Matrix<4>, quotients: Matrix<4>) -> bool {
        inverse.is_transpose_of(quotients)
    }

    /// The inverse, assembled from the determinant and from the matrix that
    /// holds `cofactor(row, col) / determinant` at `[row][col]`.
    ///
    /// Fails exactly when the determinant is zero (of either sign); no
    /// tolerance is applied. Otherwise the quotient of `cofactor(row, col)`
    /// lands at `[col][row]`.
    pub fn inverse(determinant: Scalar, quotients: &Matrix<4>) -> (r: Result<Matrix<4>, NotInvertible>)
        ensures
            r is Err <==> determinant.is_zero(),
            r matches Ok(inverse) ==> Self::is_adjugate_placement(inverse, *quotients),
    {
        if determinant.is_zero() {
            Err(NotInvertible)
        } else {
            Ok(quotients.transpose())
        }
    }
}

impl Matrix<3> {
    /// Whether `sub` is `m` without row `removed_row` and column `removed_col`.
    pub open spec fn is_submatrix_of(sub: Matrix<2>, m: Matrix<3>, removed_row: int, removed_col: int) -> bool {
        forall|r: int, c: int|
            0 <= r < 2 && 0 <= c < 2 ==> sub.at(r, c) == m.at(
                skip_index(removed_row, r),
                skip_index(removed_col, c),
            )
    }

    /// The two indices of `0..3` other than `n`, ascending.
    pub fn remaining_indices(n: usize) -> (rest: [usize; 2])
        requires
            n < 3,
        ensures
            forall|i: int| 0 <= i < 2 ==> #[trigger] rest@[i] == skip_index(n as int, i),
    {
        if n == 0 {
            [1, 2]
        } else if n == 1 {
            [0, 2]
        } else {
            [0, 1]
        }
    }

    /// The matrix without one row and one column.
    pub fn submatrix(&self, removed_row: usize, removed_col: usize) -> (sub: Matrix<2>)
        requires
            removed_row < 3,
            removed_col < 3,
        ensures
            Self::is_submatrix_of(sub, *self, removed_row as int, removed_col as int),
    {
        let rows = Self::remaining_indices(removed_row);
        let cols = Self::remaining_indices(removed_col);
        Matrix {
            elements: [
                [self.elements[rows[0]][cols[0]], self.elements[rows[0]][cols[1]]],
                [self.elements[rows[1]][cols[0]], self.elements[rows[1]][cols[1]]],
            ],
        }
    }

    /// The cofactor at (`row`, `col`), given the minor there: the determinant
    /// of `self.submatrix(row, col)`.
    pub fn cofactor(minor: Scalar, row: usize, col: usize) -> (r: Scalar)
        ensures
            r == signed_minor(minor, row as int, col as int),
    {
        apply_cofactor_sign(minor, row, col)
    }
}

fn apply_cofactor_sign(minor: Scalar, row: usize, col: usize) -> (r: Scalar)
    ensures
        r == signed_minor(minor, row as int, col as int),
{
    if (row % 2) == (col % 2) {
        minor
    } else {
        minor.neg()
    }
}

/// Transposing twice gives every entry back.
pub proof fn lemma_transpose_involution<const N: usize>(m: Matrix<N>, t: Matrix<N>, u: Matrix<N>)
    requires
        t.is_transpose_of(m),
        u.is_transpose_of(t),
    ensures
        u.same_entries(m),
{
}

/// Moving one step along a row or a column flips the cofactor's sign.
pub proof fn lemma_cofactor_sign_alternates(minor: Scalar, row: int, col: int)
    ensures
        signed_minor(minor, row, col + 1) == signed_minor(minor, row, col).negated(),
        signed_minor(minor, row + 1, col) == signed_minor(minor, row, col).negated(),
{
    crate::scalar::lemma_neg_involution(minor);
}

} // verus!
