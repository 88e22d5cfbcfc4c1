//! An ordered triple of binary32 scalars with componentwise arithmetic.

use crate::scalar::add_bits;
use crate::scalar::div_bits;
use crate::scalar::eq_bits;
use crate::scalar::mul_bits;
use crate::scalar::neg_bits;
use crate::scalar::sqrt_bits;
use crate::scalar::sub_bits;
use crate::scalar::scalar_add;
use crate::scalar::scalar_div;
use crate::scalar::scalar_eq;
use crate::scalar::scalar_mul;
use crate::scalar::scalar_neg;
use crate::scalar::scalar_sqrt;
use crate::scalar::scalar_sub;
use crate::scalar::ONE_BITS;
use vstd::prelude::*;

verus! {

/// A triple of binary32 scalars, each field holding the bit pattern of one
/// component. The derived `==` compares bit patterns; IEEE-754 componentwise
/// equality (where the two zeros agree and NaN differs from itself) is
/// `eq_components`.
#[derive(Clone, Copy, Debug, PartialEq, Eq, Structural)]
pub struct Vector3D {
    pub x: u32,
    pub y: u32,
    pub z: u32,
}

impl View for Vector3D {
    type V = Seq<u32>;

    open spec fn view(&self) -> Seq<u32> {
        seq![self.x, self.y, self.z]
    }
}

impl Default for Vector3D {
    /// The zero vector: every component is +0.0.
    fn default() -> (v: Self)
        ensures
            v == (Vector3D { x: 0, y: 0, z: 0 }),
    {
        Vector3D { x: 0, y: 0, z: 0 }
    }
}

/// Componentwise binary32 sum of two vectors.
pub open spec fn spec_add_vector(a: Vector3D, b: Vector3D) -> Vector3D {
    Vector3D { x: add_bits(a.x, b.x), y: add_bits(a.y, b.y), z: add_bits(a.z, b.z) }
}

/// Componentwise binary32 difference of two vectors.
pub open spec fn spec_sub_vector(a: Vector3D, b: Vector3D) -> Vector3D {
    Vector3D { x: sub_bits(a.x, b.x), y: sub_bits(a.y, b.y), z: sub_bits(a.z, b.z) }
}

/// The scalar added to every component.
pub open spec fn spec_add_scalar(a: Vector3D, s: u32) -> Vector3D {
    Vector3D { x: add_bits(a.x, s), y: add_bits(a.y, s), z: add_bits(a.z, s) }
}

/// The scalar subtracted from every component.
pub open spec fn spec_sub_scalar(a: Vector3D, s: u32) -> Vector3D {
    Vector3D { x: sub_bits(a.x, s), y: sub_bits(a.y, s), z: sub_bits(a.z, s) }
}

/// Every component multiplied by the scalar.
pub open spec fn spec_mul_scalar(a: Vector3D, s: u32) -> Vector3D {
    Vector3D { x: mul_bits(a.x, s), y: mul_bits(a.y, s), z: mul_bits(a.z, s) }
}

/// Division by a scalar: the reciprocal is computed once and every component
/// is multiplied by it (this is not the same binary32 value as dividing each
/// component, and is the convention used throughout this crate).
pub open spec fn spec_div_scalar(a: Vector3D, s: u32) -> Vector3D {
    spec_mul_scalar(a, div_bits(ONE_BITS, s))
}

/// Every component negated (sign bit flipped).
pub open spec fn spec_negated(a: Vector3D) -> Vector3D {
    Vector3D { x: neg_bits(a.x), y: neg_bits(a.y), z: neg_bits(a.z) }
}

/// IEEE-754 componentwise equality of two vectors: every pair of components
/// compares equal as binary32 values.
pub open spec fn spec_eq_components(a: Vector3D, b: Vector3D) -> bool {
    eq_bits(a.x, b.x) && eq_bits(a.y, b.y) && eq_bits(a.z, b.z)
}

/// Negating a vector twice gives the vector back.
pub proof fn lemma_negated_involution(a: Vector3D)
    ensures
        spec_negated(spec_negated(a)) == a,
{
    crate::scalar::lemma_neg_bits_involution(a.x);
    crate::scalar::lemma_neg_bits_involution(a.y);
    crate::scalar::lemma_neg_bits_involution(a.z);
}

impl Vector3D {
    pub fn new(x: u32, y: u32, z: u32) -> (v: Vector3D)
        ensures
            v == (Vector3D { x, y, z }),
    {
        Vector3D { x, y, z }
    }

    /// The Euclidean norm, `sqrt(x*x + y*y + z*z)`, every operation binary32
    /// with the products summed left to right. For the zero vector this is
    /// +0.0; for components whose squares overflow it follows IEEE-754
    /// propagation (infinities), with no error raised.
    pub open spec fn spec_magnitude(self) -> u32 {
        sqrt_bits(
            add_bits(add_bits(mul_bits(self.x, self.x), mul_bits(self.y, self.y)),
            mul_bits(self.z, self.z)),
        )
    }

    /// The vector divided by its own magnitude (reciprocal computed once). A
    /// zero vector divides by zero and the components come out NaN, as
    /// IEEE-754 has it; nothing is rejected.
    pub open spec fn spec_normalize(self) -> Vector3D {
        spec_div_scalar(self, self.spec_magnitude())
    }

    /// Component `index` of the vector, absent for `index >= 3`.
    pub fn get(&self, index: usize) -> (r: Option<u32>)
        ensures
            (index < 3) <==> (r is Some),
            index < 3 ==> r == Some(self@[index as int]),
    {
        match index {
            0 => Some(self.x),
            1 => Some(self.y),
            2 => Some(self.z),
            _ => None,
        }
    }

    /// Mutable access to component `index`, absent for `index >= 3`. The
    /// final vector is the old one with that component replaced by whatever
    /// the caller leaves behind the returned reference.
    pub fn get_mut(&mut self, index: usize) -> (r: Option<&mut u32>)
        ensures
            (index < 3) <==> (r is Some),
            match r {
                Some(p) => {
                    &&& *p == old(self)@[index as int]
                    &&& final(self)@ == old(self)@.update(index as int, *final(p))
                },
                None => *final(self) == *old(self),
            },
    {
        match index {
            0 => Some(&mut self.x),
            1 => Some(&mut self.y),
            2 => Some(&mut self.z),
            _ => None,
        }
    }

    pub fn magnitude(&self) -> (r: u32)
        ensures
            r == self.spec_magnitude(),
    {
        let xx = scalar_mul(self.x, self.x);
        let yy = scalar_mul(self.y, self.y);
        let zz = scalar_mul(self.z, self.z);
        scalar_sqrt(scalar_add(scalar_add(xx, yy), zz))
    }

    pub fn normalize(&self) -> (r: Vector3D)
        ensures
            r == self.spec_normalize(),
    {
        let m = self.magnitude();
        self.div_scalar(m)
    }

    pub fn add_vector(&self, rhs: Vector3D) -> (r: Vector3D)
        ensures
            r == spec_add_vector(*self, rhs),
    {
        Vector3D {
            x: scalar_add(self.x, rhs.x),
            y: scalar_add(self.y, rhs.y),
            z: scalar_add(self.z, rhs.z),
        }
    }

    pub fn add_vector_assign(&mut self, rhs: Vector3D)
        ensures
            *final(self) == spec_add_vector(*old(self), rhs),
    {
        self.x = scalar_add(self.x, rhs.x);
        self.y = scalar_add(self.y, rhs.y);
        self.z = scalar_add(self.z, rhs.z);
    }

    pub fn sub_vector(&self, rhs: Vector3D) -> (r: Vector3D)
        ensures
            r == spec_sub_vector(*self, rhs),
    {
        Vector3D {
            x: scalar_sub(self.x, rhs.x),
            y: scalar_sub(self.y, rhs.y),
            z: scalar_sub(self.z, rhs.z),
        }
    }

    pub fn sub_vector_assign(&mut self, rhs: Vector3D)
        ensures
            *final(self) == spec_sub_vector(*old(self), rhs),
    {
        self.x = scalar_sub(self.x, rhs.x);
        self.y = scalar_sub(self.y, rhs.y);
        self.z = scalar_sub(self.z, rhs.z);
    }

    pub fn add_scalar(&self, rhs: u32) -> (r: Vector3D)
        ensures
            r == spec_add_scalar(*self, rhs),
    {
        Vector3D {
            x: scalar_add(self.x, rhs),
            y: scalar_add(self.y, rhs),
            z: scalar_add(self.z, rhs),
        }
    }

    pub fn add_scalar_assign(&mut self, rhs: u32)
        ensures
            *final(self) == spec_add_scalar(*old(self), rhs),
    {
        self.x = scalar_add(self.x, rhs);
        self.y = scalar_add(self.y, rhs);
        self.z = scalar_add(self.z, rhs);
    }

    pub fn sub_scalar(&self, rhs: u32) -> (r: Vector3D)
        ensures
            r == spec_sub_scalar(*self, rhs),
    {
        Vector3D {
            x: scalar_sub(self.x, rhs),
            y: scalar_sub(self.y, rhs),
            z: scalar_sub(self.z, rhs),
        }
    }

    pub fn sub_scalar_assign(&mut self, rhs: u32)
        ensures
            *final(self) == spec_sub_scalar(*old(self), rhs),
    {
        self.x = scalar_sub(self.x, rhs);
        self.y = scalar_sub(self.y, rhs);
        self.z = scalar_sub(self.z, rhs);
    }

    pub fn mul_scalar(&self, rhs: u32) -> (r: Vector3D)
        ensures
            r == spec_mul_scalar(*self, rhs),
    {
        Vector3D {
            x: scalar_mul(self.x, rhs),
            y: scalar_mul(self.y, rhs),
            z: scalar_mul(self.z, rhs),
        }
    }

    pub fn mul_scalar_assign(&mut self, rhs: u32)
        ensures
            *final(self) == spec_mul_scalar(*old(self), rhs),
    {
        self.x = scalar_mul(self.x, rhs);
        self.y = scalar_mul(self.y, rhs);
        self.z = scalar_mul(self.z, rhs);
    }

    pub fn div_scalar(&self, rhs: u32) -> (r: Vector3D)
        ensures
            r == spec_div_scalar(*self, rhs),
    {
        let inv = scalar_div(ONE_BITS, rhs);
        self.mul_scalar(inv)
    }

    pub fn div_scalar_assign(&mut self, rhs: u32)
        ensures
            *final(self) == spec_div_scalar(*old(self), rhs),
    {
        let inv = scalar_div(ONE_BITS, rhs);
        self.mul_scalar_assign(inv);
    }

    pub fn negated(&self) -> (r: Vector3D)
        ensures
            r == spec_negated(*self),
    {
        Vector3D { x: scalar_neg(self.x), y: scalar_neg(self.y), z: scalar_neg(self.z) }
    }

    /// IEEE-754 componentwise equality: true exactly when every pair of
    /// components compares equal as binary32 values (so NaN components make
    /// it false, and +0.0 equals -0.0).
    pub fn eq_components(&self, rhs: &Vector3D) -> (r: bool)
        ensures
            r == spec_eq_components(*self, *rhs),
    {
        scalar_eq(self.x, rhs.x) && scalar_eq(self.y, rhs.y) && scalar_eq(self.z, rhs.z)
    }
}

} // verus!
