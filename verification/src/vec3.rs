//! Fixed-point three-component vectors and the exact affine operations the
//! navigation core performs on them.

use vstd::prelude::*;

verus! {

/// Magnitude bound on every scalar that enters a product (coordinates,
/// velocities, cell scales, ray distances, time steps). Two such scalars
/// multiply to less than `2^60`, so a product plus one more bounded addend
/// always fits in `i64`.
pub const COORD_LIMIT: i64 = 0x4000_0000;

/// A scalar is small enough to take part in products without overflow.
pub open spec fn fits(n: int) -> bool {
    -(COORD_LIMIT as int) < n < COORD_LIMIT as int
}

/// A point or vector in world or voxel space, in fixed-point units.
#[derive(Clone, Copy, PartialEq, Eq, Structural, Debug)]
pub struct Vec3I {
    pub x: i64,
    pub y: i64,
    pub z: i64,
}

impl View for Vec3I {
    type V = (int, int, int);

    open spec fn view(&self) -> (int, int, int) {
        (self.x as int, self.y as int, self.z as int)
    }
}

/// Every component of the triple is small enough to enter products.
pub open spec fn fits3(t: (int, int, int)) -> bool {
    fits(t.0) && fits(t.1) && fits(t.2)
}

/// Every component of the vector is small enough to enter products.
pub open spec fn fits_vec(v: Vec3I) -> bool {
    fits3(v@)
}

/// The mathematical value of `a + d * k`, componentwise.
pub open spec fn spec_add_scaled(a: (int, int, int), d: (int, int, int), k: int) -> (int, int, int) {
    (a.0 + d.0 * k, a.1 + d.1 * k, a.2 + d.2 * k)
}

/// The affine vertex transform `origin + v ⊙ (sx, sy, sz)` with a horizontal
/// scale on the x and z axes and a vertical scale on the y axis.
pub open spec fn spec_transform(
    origin: (int, int, int),
    sx: int,
    sy: int,
    v: (int, int, int),
) -> (int, int, int) {
    (origin.0 + v.0 * sx, origin.1 + v.1 * sy, origin.2 + v.2 * sx)
}

/// The product of two bounded scalars stays well inside `i64`.
pub proof fn lemma_mul_fits(a: int, b: int)
    by (nonlinear_arith)
    requires
        fits(a),
        fits(b),
    ensures
        -0x1000_0000_0000_0000 < a * b < 0x1000_0000_0000_0000,
{
}

impl Vec3I {
    /// Exact computation of `self + d * k`, componentwise.
    pub fn add_scaled(self, d: Vec3I, k: i64) -> (r: Vec3I)
        requires
            fits_vec(self),
            fits_vec(d),
            fits(k as int),
        ensures
            r@ == spec_add_scaled(self@, d@, k as int),
    {
        proof {
            lemma_mul_fits(d@.0, k as int);
            lemma_mul_fits(d@.1, k as int);
            lemma_mul_fits(d@.2, k as int);
        }
        Vec3I { x: self.x + d.x * k, y: self.y + d.y * k, z: self.z + d.z * k }
    }

    /// Exact vertex transform: `origin + self ⊙ (sx, sy, sx)`, with `self`
    /// acting as the integer voxel coordinate.
    pub fn transformed(self, origin: Vec3I, sx: i64, sy: i64) -> (r: Vec3I)
        requires
            fits_vec(self),
            fits_vec(origin),
            fits(sx as int),
            fits(sy as int),
        ensures
            r@ == spec_transform(origin@, sx as int, sy as int, self@),
    {
        proof {
            lemma_mul_fits(self@.0, sx as int);
            lemma_mul_fits(self@.1, sy as int);
            lemma_mul_fits(self@.2, sx as int);
        }
        Vec3I { x: origin.x + self.x * sx, y: origin.y + self.y * sy, z: origin.z + self.z * sx }
    }
}

/// The vertex transform is invertible: dividing the offset from the origin by
/// the (positive) per-axis scale recovers the voxel coordinate exactly.
pub proof fn lemma_transform_invertible(
    origin: (int, int, int),
    sx: int,
    sy: int,
    v: (int, int, int),
)
    requires
        sx > 0,
        sy > 0,
    ensures
        (spec_transform(origin, sx, sy, v).0 - origin.0) / sx == v.0,
        (spec_transform(origin, sx, sy, v).1 - origin.1) / sy == v.1,
        (spec_transform(origin, sx, sy, v).2 - origin.2) / sx == v.2,
{
    lemma_mul_div_cancel(v.0, sx);
    lemma_mul_div_cancel(v.1, sy);
    lemma_mul_div_cancel(v.2, sx);
}

/// Multiplying by a positive scalar and dividing by it again is the identity.
pub proof fn lemma_mul_div_cancel(a: int, b: int)
    by (nonlinear_arith)
    requires
        b > 0,
    ensures
        (a * b) / b == a,
{
}

} // verus!
