//! A 3x3 matrix of binary32 scalars, stored as three columns, each a
//! [`Vector3D`].

use crate::scalar::add_bits;
use crate::scalar::div_bits;
use crate::scalar::mul_bits;
use crate::scalar::scalar_add;
use crate::scalar::scalar_div;
use crate::scalar::scalar_mul;
use crate::scalar::ONE_BITS;
use crate::vector_3d::spec_add_vector;
use crate::vector_3d::spec_eq_components;
use crate::vector_3d::spec_mul_scalar;
use crate::vector_3d::spec_sub_vector;
use crate::vector_3d::Vector3D;
use vstd::prelude::*;

verus! {

/// A 3x3 matrix. `c0`, `c1`, `c2` are the stored columns: the element at row
/// `i`, column `j` is component `i` of column `cj`. The derived `==` compares
/// bit patterns; IEEE-754 elementwise equality is `eq_components`.
#[derive(Clone, Copy, Debug, PartialEq, Eq, Structural)]
pub struct Matrix3D {
    pub c0: Vector3D,
    pub c1: Vector3D,
    pub c2: Vector3D,
}

/// The matrix whose rows are the three given vectors.
pub open spec fn spec_from_rows(r0: Vector3D, r1: Vector3D, r2: Vector3D) -> Matrix3D {
    Matrix3D {
        c0: Vector3D { x: r0.x, y: r1.x, z: r2.x },
        c1: Vector3D { x: r0.y, y: r1.y, z: r2.y },
        c2: Vector3D { x: r0.z, y: r1.z, z: r2.z },
    }
}

/// The matrix with column `j` replaced by `v` (unchanged for `j` out of
/// range; callers bound `j`).
pub open spec fn spec_set_col(m: Matrix3D, j: int, v: Vector3D) -> Matrix3D {
    if j == 0 {
        Matrix3D { c0: v, ..m }
    } else if j == 1 {
        Matrix3D { c1: v, ..m }
    } else if j == 2 {
        Matrix3D { c2: v, ..m }
    } else {
        m
    }
}

/// The vector with component `i` replaced by `s` (unchanged for `i` out of
/// range; callers bound `i`).
pub open spec fn spec_set_component(v: Vector3D, i: int, s: u32) -> Vector3D {
    if i == 0 {
        Vector3D { x: s, ..v }
    } else if i == 1 {
        Vector3D { y: s, ..v }
    } else if i == 2 {
        Vector3D { z: s, ..v }
    } else {
        v
    }
}

/// The matrix with the element at row `i`, column `j` replaced by `s`.
pub open spec fn spec_set_entry(m: Matrix3D, i: int, j: int, s: u32) -> Matrix3D {
    spec_set_col(m, j, spec_set_component(m.col(j), i, s))
}

/// The binary32 dot product of the row `(a, b, c)` with `v`: products summed
/// left to right, every operation rounded to nearest even.
pub open spec fn spec_row_dot(a: u32, b: u32, c: u32, v: Vector3D) -> u32 {
    add_bits(add_bits(mul_bits(a, v.x), mul_bits(b, v.y)), mul_bits(c, v.z))
}

/// The matrix-vector product: component `i` of the result is the dot product
/// of row `i` with `v`.
pub open spec fn spec_mul_vector(m: Matrix3D, v: Vector3D) -> Vector3D {
    Vector3D {
        x: spec_row_dot(m.c0.x, m.c1.x, m.c2.x, v),
        y: spec_row_dot(m.c0.y, m.c1.y, m.c2.y, v),
        z: spec_row_dot(m.c0.z, m.c1.z, m.c2.z, v),
    }
}

/// The matrix product: column `j` of the result is `m` applied to column `j`
/// of `n`, so the entry at `(i, j)` is the dot product of row `i` of `m` with
/// column `j` of `n`.
pub open spec fn spec_mul_matrix(m: Matrix3D, n: Matrix3D) -> Matrix3D {
    Matrix3D {
        c0: spec_mul_vector(m, n.c0),
        c1: spec_mul_vector(m, n.c1),
        c2: spec_mul_vector(m, n.c2),
    }
}

/// Elementwise binary32 sum.
pub open spec fn spec_add_matrix(m: Matrix3D, n: Matrix3D) -> Matrix3D {
    Matrix3D {
        c0: spec_add_vector(m.c0, n.c0),
        c1: spec_add_vector(m.c1, n.c1),
        c2: spec_add_vector(m.c2, n.c2),
    }
}

/// Elementwise binary32 difference.
pub open spec fn spec_sub_matrix(m: Matrix3D, n: Matrix3D) -> Matrix3D {
    Matrix3D {
        c0: spec_sub_vector(m.c0, n.c0),
        c1: spec_sub_vector(m.c1, n.c1),
        c2: spec_sub_vector(m.c2, n.c2),
    }
}

/// Every element multiplied by the scalar.
pub open spec fn spec_mul_scalar_matrix(m: Matrix3D, s: u32) -> Matrix3D {
    Matrix3D {
        c0: spec_mul_scalar(m.c0, s),
        c1: spec_mul_scalar(m.c1, s),
        c2: spec_mul_scalar(m.c2, s),
    }
}

/// Division by a scalar: the reciprocal is computed once and every element is
/// multiplied by it, the same convention as for vectors.
pub open spec fn spec_div_scalar_matrix(m: Matrix3D, s: u32) -> Matrix3D {
    spec_mul_scalar_matrix(m, div_bits(ONE_BITS, s))
}

fn row_dot(a: u32, b: u32, c: u32, v: Vector3D) -> (r: u32)
    ensures
        r == spec_row_dot(a, b, c, v),
{
    scalar_add(scalar_add(scalar_mul(a, v.x), scalar_mul(b, v.y)), scalar_mul(c, v.z))
}

impl Default for Matrix3D {
    /// The zero matrix: every element is +0.0.
    fn default() -> (m: Self)
        ensures
            m == (Matrix3D {
                c0: Vector3D { x: 0, y: 0, z: 0 },
                c1: Vector3D { x: 0, y: 0, z: 0 },
                c2: Vector3D { x: 0, y: 0, z: 0 },
            }),
    {
        Matrix3D {
            c0: Vector3D { x: 0, y: 0, z: 0 },
            c1: Vector3D { x: 0, y: 0, z: 0 },
            c2: Vector3D { x: 0, y: 0, z: 0 },
        }
    }
}

impl Matrix3D {
    /// Stored column `j` (column 0 for any other `j`; callers bound `j`).
    pub open spec fn col(self, j: int) -> Vector3D {
        if j == 1 {
            self.c1
        } else if j == 2 {
            self.c2
        } else {
            self.c0
        }
    }

    /// The element at row `i`, column `j`.
    pub open spec fn entry(self, i: int, j: int) -> u32 {
        self.col(j)@[i]
    }

    /// The matrix with rows and columns swapped.
    pub open spec fn spec_transpose(self) -> Matrix3D {
        Matrix3D {
            c0: Vector3D { x: self.c0.x, y: self.c1.x, z: self.c2.x },
            c1: Vector3D { x: self.c0.y, y: self.c1.y, z: self.c2.y },
            c2: Vector3D { x: self.c0.z, y: self.c1.z, z: self.c2.z },
        }
    }

    /// Constructs from nine scalars in row-major order: `n<i><j>` is the
    /// element at row `i`, column `j`, stored column-major.
    pub fn new(
        n00: u32,
        n01: u32,
        n02: u32,
        n10: u32,
        n11: u32,
        n12: u32,
        n20: u32,
        n21: u32,
        n22: u32,
    ) -> (m: Matrix3D)
        ensures
            m == (Matrix3D {
                c0: Vector3D { x: n00, y: n10, z: n20 },
                c1: Vector3D { x: n01, y: n11, z: n21 },
                c2: Vector3D { x: n02, y: n12, z: n22 },
            }),
    {
        Matrix3D {
            c0: Vector3D { x: n00, y: n10, z: n20 },
            c1: Vector3D { x: n01, y: n11, z: n21 },
            c2: Vector3D { x: n02, y: n12, z: n22 },
        }
    }

    /// The matrix whose rows are the three given vectors: `row1.x`, `row2.x`,
    /// `row3.x` form the first stored column, and so on.
    pub fn new_with_vectors(row1: Vector3D, row2: Vector3D, row3: Vector3D) -> (m: Matrix3D)
        ensures
            m == spec_from_rows(row1, row2, row3),
    {
        Matrix3D {
            c0: Vector3D { x: row1.x, y: row2.x, z: row3.x },
            c1: Vector3D { x: row1.y, y: row2.y, z: row3.y },
            c2: Vector3D { x: row1.z, y: row2.z, z: row3.z },
        }
    }

    /// Constructs from a sequence of exactly three rows; any other length is
    /// rejected with a descriptive message, never a panic.
    pub fn try_from_rows(rows: Vec<Vector3D>) -> (r: Result<Matrix3D, &'static str>)
        ensures
            (rows@.len() == 3) <==> (r is Ok),
            rows@.len() == 3 ==> r == Ok::<Matrix3D, &'static str>(
                spec_from_rows(rows@[0], rows@[1], rows@[2]),
            ),
    {
        if rows.len() != 3 {
            return Err("Expected a sequence of exactly 3 rows");
        }
        Ok(Matrix3D::new_with_vectors(rows[0], rows[1], rows[2]))
    }

    /// The element at row `i`, column `j`, absent when either index is 3 or
    /// more.
    pub fn get(&self, i: usize, j: usize) -> (r: Option<u32>)
        ensures
            (i < 3 && j < 3) <==> (r is Some),
            i < 3 && j < 3 ==> r == Some(self.entry(i as int, j as int)),
    {
        if i < 3 && j < 3 {
            let column = if j == 0 {
                &self.c0
            } else if j == 1 {
                &self.c1
            } else {
                &self.c2
            };
            if i == 0 {
                Some(column.x)
            } else if i == 1 {
                Some(column.y)
            } else {
                Some(column.z)
            }
        } else {
            None
        }
    }

    /// Mutable access to the element at row `i`, column `j`, absent when
    /// either index is 3 or more. The final matrix is the old one with that
    /// element replaced by whatever the caller leaves behind the returned
    /// reference.
    pub fn get_mut(&mut self, i: usize, j: usize) -> (r: Option<&mut u32>)
        ensures
            (i < 3 && j < 3) <==> (r is Some),
            match r {
                Some(p) => {
                    &&& *p == old(self).entry(i as int, j as int)
                    &&& *final(self) == spec_set_entry(*old(self), i as int, j as int, *final(p))
                },
                None => *final(self) == *old(self),
            },
    {
        if i < 3 && j < 3 {
            let column = if j == 0 {
                &mut self.c0
            } else if j == 1 {
                &mut self.c1
            } else {
                &mut self.c2
            };
            if i == 0 {
                Some(&mut column.x)
            } else if i == 1 {
                Some(&mut column.y)
            } else {
                Some(&mut column.z)
            }
        } else {
            None
        }
    }

    /// A copy of stored column `j`, absent for `j >= 3`. This is a snapshot,
    /// not a live view: later mutation of the matrix does not change it.
    pub fn get_vector(&self, j: usize) -> (r: Option<Vector3D>)
        ensures
            (j < 3) <==> (r is Some),
            j < 3 ==> r == Some(self.col(j as int)),
    {
        if j == 0 {
            Some(self.c0)
        } else if j == 1 {
            Some(self.c1)
        } else if j == 2 {
            Some(self.c2)
        } else {
            None
        }
    }

    /// A live mutable view of stored column `j` as a vector, absent for
    /// `j >= 3`: mutation through it is mutation of the matrix, and the final
    /// matrix is the old one with column `j` replaced by whatever the caller
    /// leaves behind the returned reference.
    pub fn get_mut_vector(&mut self, j: usize) -> (r: Option<&mut Vector3D>)
        ensures
            (j < 3) <==> (r is Some),
            match r {
                Some(p) => {
                    &&& *p == old(self).col(j as int)
                    &&& *final(self) == spec_set_col(*old(self), j as int, *final(p))
                },
                None => *final(self) == *old(self),
            },
    {
        if j == 0 {
            Some(&mut self.c0)
        } else if j == 1 {
            Some(&mut self.c1)
        } else if j == 2 {
            Some(&mut self.c2)
        } else {
            None
        }
    }

    pub fn transpose(&self) -> (r: Matrix3D)
        ensures
            r == self.spec_transpose(),
    {
        Matrix3D {
            c0: Vector3D { x: self.c0.x, y: self.c1.x, z: self.c2.x },
            c1: Vector3D { x: self.c0.y, y: self.c1.y, z: self.c2.y },
            c2: Vector3D { x: self.c0.z, y: self.c1.z, z: self.c2.z },
        }
    }

    /// Transposes in place and hands back a mutable reference to `self` for
    /// chaining.
    pub fn transpose_mut(&mut self) -> (r: &mut Matrix3D)
        ensures
            *r == old(self).spec_transpose(),
            *final(self) == *final(r),
    {
        let t = Matrix3D {
            c0: Vector3D { x: self.c0.x, y: self.c1.x, z: self.c2.x },
            c1: Vector3D { x: self.c0.y, y: self.c1.y, z: self.c2.y },
            c2: Vector3D { x: self.c0.z, y: self.c1.z, z: self.c2.z },
        };
        *self = t;
        self
    }

    pub fn mul_vector(&self, rhs: Vector3D) -> (r: Vector3D)
        ensures
            r == spec_mul_vector(*self, rhs),
    {
        Vector3D {
            x: row_dot(self.c0.x, self.c1.x, self.c2.x, rhs),
            y: row_dot(self.c0.y, self.c1.y, self.c2.y, rhs),
            z: row_dot(self.c0.z, self.c1.z, self.c2.z, rhs),
        }
    }

    pub fn mul_matrix(&self, rhs: Matrix3D) -> (r: Matrix3D)
        ensures
            r == spec_mul_matrix(*self, rhs),
    {
        Matrix3D {
            c0: self.mul_vector(rhs.c0),
            c1: self.mul_vector(rhs.c1),
            c2: self.mul_vector(rhs.c2),
        }
    }

    /// In-place matrix product: the receiver becomes `self * rhs`, the same
    /// product the value-returning form computes.
    pub fn mul_matrix_assign(&mut self, rhs: Matrix3D)
        ensures
            *final(self) == spec_mul_matrix(*old(self), rhs),
    {
        let t = self.mul_matrix(rhs);
        *self = t;
    }

    pub fn add_matrix(&self, rhs: Matrix3D) -> (r: Matrix3D)
        ensures
            r == spec_add_matrix(*self, rhs),
    {
        Matrix3D {
            c0: self.c0.add_vector(rhs.c0),
            c1: self.c1.add_vector(rhs.c1),
            c2: self.c2.add_vector(rhs.c2),
        }
    }

    pub fn add_matrix_assign(&mut self, rhs: Matrix3D)
        ensures
            *final(self) == spec_add_matrix(*old(self), rhs),
    {
        let t = self.add_matrix(rhs);
        *self = t;
    }

    pub fn sub_matrix(&self, rhs: Matrix3D) -> (r: Matrix3D)
        ensures
            r == spec_sub_matrix(*self, rhs),
    {
        Matrix3D {
            c0: self.c0.sub_vector(rhs.c0),
            c1: self.c1.sub_vector(rhs.c1),
            c2: self.c2.sub_vector(rhs.c2),
        }
    }

    pub fn sub_matrix_assign(&mut self, rhs: Matrix3D)
        ensures
            *final(self) == spec_sub_matrix(*old(self), rhs),
    {
        let t = self.sub_matrix(rhs);
        *self = t;
    }

    pub fn mul_scalar(&self, rhs: u32) -> (r: Matrix3D)
        ensures
            r == spec_mul_scalar_matrix(*self, rhs),
    {
        Matrix3D {
            c0: self.c0.mul_scalar(rhs),
            c1: self.c1.mul_scalar(rhs),
            c2: self.c2.mul_scalar(rhs),
        }
    }

    pub fn mul_scalar_assign(&mut self, rhs: u32)
        ensures
            *final(self) == spec_mul_scalar_matrix(*old(self), rhs),
    {
        let t = self.mul_scalar(rhs);
        *self = t;
    }

    pub fn div_scalar(&self, rhs: u32) -> (r: Matrix3D)
        ensures
            r == spec_div_scalar_matrix(*self, rhs),
    {
        let inv = scalar_div(ONE_BITS, rhs);
        self.mul_scalar(inv)
    }

    pub fn div_scalar_assign(&mut self, rhs: u32)
        ensures
            *final(self) == spec_div_scalar_matrix(*old(self), rhs),
    {
        let inv = scalar_div(ONE_BITS, rhs);
        self.mul_scalar_assign(inv);
    }

    /// IEEE-754 elementwise equality of the two matrices, the matrix
    /// counterpart of `Vector3D::eq_components`.
    pub fn eq_components(&self, rhs: &Matrix3D) -> (r: bool)
        ensures
            r == (spec_eq_components(self.c0, rhs.c0) && spec_eq_components(self.c1, rhs.c1)
                && spec_eq_components(self.c2, rhs.c2)),
    {
        self.c0.eq_components(&rhs.c0) && self.c1.eq_components(&rhs.c1) && self.c2.eq_components(
            &rhs.c2,
        )
    }
}

/// Construction from rows and element access agree: the entry at row `i`,
/// column `j` of a matrix built from three rows is component `j` of row `i`.
pub proof fn lemma_from_rows_entries(r0: Vector3D, r1: Vector3D, r2: Vector3D, i: int, j: int)
    requires
        0 <= i < 3,
        0 <= j < 3,
    ensures
        spec_from_rows(r0, r1, r2).entry(i, j) == (if i == 0 {
            r0
        } else if i == 1 {
            r1
        } else {
            r2
        })@[j],
{
}

/// Transposing is an involution: doing it twice gives the matrix back.
pub proof fn lemma_transpose_involution(m: Matrix3D)
    ensures
        m.spec_transpose().spec_transpose() == m,
{
}

/// The transpose swaps row and column indices.
pub proof fn lemma_transpose_entry(m: Matrix3D, i: int, j: int)
    requires
        0 <= i < 3,
        0 <= j < 3,
    ensures
        m.spec_transpose().entry(i, j) == m.entry(j, i),
{
}

/// The elementwise and scalar matrix operators act on each stored column
/// exactly as the corresponding vector operator does.
pub proof fn lemma_elementwise_ops_columnwise(m: Matrix3D, n: Matrix3D, s: u32, j: int)
    requires
        0 <= j < 3,
    ensures
        spec_add_matrix(m, n).col(j) == spec_add_vector(m.col(j), n.col(j)),
        spec_sub_matrix(m, n).col(j) == spec_sub_vector(m.col(j), n.col(j)),
        spec_mul_scalar_matrix(m, s).col(j) == spec_mul_scalar(m.col(j), s),
        spec_div_scalar_matrix(m, s).col(j) == spec_mul_scalar(m.col(j), div_bits(ONE_BITS, s)),
{
}

/// The matrix product, column by column: column `j` of `m * n` is the
/// matrix-vector product of `m` with column `j` of `n`.
pub proof fn lemma_mul_matrix_columnwise(m: Matrix3D, n: Matrix3D, j: int)
    requires
        0 <= j < 3,
    ensures
        spec_mul_matrix(m, n).col(j) == spec_mul_vector(m, n.col(j)),
{
}

/// Writing a column through the mutable vector view is observable entry by
/// entry: afterwards every entry of column `j` is the corresponding component
/// of the written vector, and the other columns are untouched.
pub proof fn lemma_set_col_entries(m: Matrix3D, j: int, v: Vector3D)
    requires
        0 <= j < 3,
    ensures
        forall|i: int| 0 <= i < 3 ==> spec_set_col(m, j, v).entry(i, j) == v@[i],
        forall|j2: int| 0 <= j2 < 3 && j2 != j ==> spec_set_col(m, j, v).col(j2) == m.col(j2),
{
}

} // verus!
