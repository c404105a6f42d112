use vstd::prelude::*;

verus! {

use crate::mat::{mat_mul, mat_mul_entry, mat_rat_eq, Mat4R};
use crate::rat::{rat_eq, Rat};

/// A translation vector with exact rational components
/// `(x/den, y/den, z/den)`.
#[derive(Clone, Copy, Debug, PartialEq, Eq, Structural)]
pub struct Vec3R {
    pub x: i64,
    pub y: i64,
    pub z: i64,
    pub den: i64,
}

impl Vec3R {
    pub open spec fn wf(self) -> bool {
        self.den >= 1
    }
}

/// A rotation quaternion with exact rational components
/// `(x/den, y/den, z/den, w/den)`.
///
/// Rotations are only meaningful for unit quaternions; this type does not
/// renormalize, so callers are responsible for feeding components whose
/// squares sum to `den * den`. The identity rotation is `(0, 0, 0, 1) / 1`.
#[derive(Clone, Copy, Debug, PartialEq, Eq, Structural)]
pub struct QuatR {
    pub x: i64,
    pub y: i64,
    pub z: i64,
    pub w: i64,
    pub den: i64,
}

impl QuatR {
    pub open spec fn wf(self) -> bool {
        self.den >= 1
    }

    /// Components no larger in magnitude than the denominator — true of every
    /// unit quaternion — and a denominator small enough that the matrix
    /// entries, quadratic in the components, stay within exact 64-bit range.
    pub open spec fn bounded(self) -> bool {
        &&& 1 <= self.den <= 0x4000_0000
        &&& -self.den <= self.x <= self.den
        &&& -self.den <= self.y <= self.den
        &&& -self.den <= self.z <= self.den
        &&& -self.den <= self.w <= self.den
    }
}

/// A rigid placement: rotate about the origin, then translate.
#[derive(Clone, Copy, Debug, PartialEq, Eq, Structural)]
pub struct Transform {
    pub translation: Vec3R,
    pub rotation: QuatR,
}

/// The transform that leaves everything in place: zero translation and the
/// identity rotation.
pub open spec fn identity_transform() -> Transform {
    Transform {
        translation: Vec3R { x: 0, y: 0, z: 0, den: 1 },
        rotation: QuatR { x: 0, y: 0, z: 0, w: 1, den: 1 },
    }
}

impl Default for Transform {
    fn default() -> (t: Self)
        ensures
            t == identity_transform(),
    {
        Transform {
            translation: Vec3R { x: 0, y: 0, z: 0, den: 1 },
            rotation: QuatR { x: 0, y: 0, z: 0, w: 1, den: 1 },
        }
    }
}

/// Row-major entries of the world matrix `translate(t) * rotate(q)`: the
/// rotation matrix of the quaternion in the upper-left 3x3 block, the
/// translation in column 3, and the homogeneous row `(0, 0, 0, 1)` at the
/// bottom.
pub open spec fn world_mat_view(t: Transform) -> Seq<(int, int)> {
    let x = t.rotation.x as int;
    let y = t.rotation.y as int;
    let z = t.rotation.z as int;
    let w = t.rotation.w as int;
    let d2 = (t.rotation.den as int) * (t.rotation.den as int);
    let td = t.translation.den as int;
    seq![
        (d2 - 2 * (y * y) - 2 * (z * z), d2),
        (2 * (x * y) - 2 * (z * w), d2),
        (2 * (x * z) + 2 * (y * w), d2),
        (t.translation.x as int, td),
        (2 * (x * y) + 2 * (z * w), d2),
        (d2 - 2 * (x * x) - 2 * (z * z), d2),
        (2 * (y * z) - 2 * (x * w), d2),
        (t.translation.y as int, td),
        (2 * (x * z) - 2 * (y * w), d2),
        (2 * (y * z) + 2 * (x * w), d2),
        (d2 - 2 * (x * x) - 2 * (y * y), d2),
        (t.translation.z as int, td),
        (0int, 1int), (0int, 1int), (0int, 1int), (1int, 1int),
    ]
}

/// Row-major entries of the pure translation matrix of `v`: the identity
/// with the translation in column 3.
pub open spec fn translation_mat_view(v: Vec3R) -> Seq<(int, int)> {
    seq![
        (1int, 1int), (0int, 1int), (0int, 1int), (v.x as int, v.den as int),
        (0int, 1int), (1int, 1int), (0int, 1int), (v.y as int, v.den as int),
        (0int, 1int), (0int, 1int), (1int, 1int), (v.z as int, v.den as int),
        (0int, 1int), (0int, 1int), (0int, 1int), (1int, 1int),
    ]
}

/// Row-major entries of the rotation matrix of `q` alone (no translation).
pub open spec fn rotation_mat_view(q: QuatR) -> Seq<(int, int)> {
    let x = q.x as int;
    let y = q.y as int;
    let z = q.z as int;
    let w = q.w as int;
    let d2 = (q.den as int) * (q.den as int);
    seq![
        (d2 - 2 * (y * y) - 2 * (z * z), d2),
        (2 * (x * y) - 2 * (z * w), d2),
        (2 * (x * z) + 2 * (y * w), d2),
        (0int, 1int),
        (2 * (x * y) + 2 * (z * w), d2),
        (d2 - 2 * (x * x) - 2 * (z * z), d2),
        (2 * (y * z) - 2 * (x * w), d2),
        (0int, 1int),
        (2 * (x * z) - 2 * (y * w), d2),
        (2 * (y * z) + 2 * (x * w), d2),
        (d2 - 2 * (x * x) - 2 * (y * y), d2),
        (0int, 1int),
        (0int, 1int), (0int, 1int), (0int, 1int), (1int, 1int),
    ]
}

/// The rational identity behind each rotation-block entry of the
/// translate-times-rotate product.
proof fn lemma_rotation_block_entry(n: int, d2: int, td: int) by (nonlinear_arith)
    ensures
        ((n * d2) * (d2 * td)) * d2 == n * ((d2 * d2) * (d2 * td)),
        ((n * td) * (d2 * d2)) * d2 == n * ((d2 * d2) * (d2 * td)),
{
}

/// Law: the world matrix of a placement is exactly the product
/// `translate(translation) * rotate(rotation)` — rotation applied first,
/// then translation.
pub proof fn lemma_world_mat_factors(t: Transform)
    ensures
        mat_rat_eq(
            world_mat_view(t),
            mat_mul(translation_mat_view(t.translation), rotation_mat_view(t.rotation)),
        ),
{
    broadcast use vstd::arithmetic::mul::group_mul_basics;
    broadcast use vstd::arithmetic::mul::lemma_mul_by_zero_is_zero;
    let d2 = (t.rotation.den as int) * (t.rotation.den as int);
    let td = t.translation.den as int;
    let tv = translation_mat_view(t.translation);
    let rv = rotation_mat_view(t.rotation);
    let m = mat_mul(tv, rv);
    let wv = world_mat_view(t);
    assert forall|k: int| 0 <= k < 16 implies rat_eq(#[trigger] wv[k], m[k]) by {
        if k == 3 || k == 7 || k == 11 {
            // the translation column passes straight through
            assert(m[3] == mat_mul_entry(tv, rv, 0, 3));
            assert(m[7] == mat_mul_entry(tv, rv, 1, 3));
            assert(m[11] == mat_mul_entry(tv, rv, 2, 3));
            assert(rat_eq(wv[3], m[3]));
            assert(rat_eq(wv[7], m[7]));
            assert(rat_eq(wv[11], m[11]));
        } else if k >= 12 {
            // the homogeneous bottom row
            assert(m[12] == mat_mul_entry(tv, rv, 3, 0));
            assert(m[13] == mat_mul_entry(tv, rv, 3, 1));
            assert(m[14] == mat_mul_entry(tv, rv, 3, 2));
            assert(m[15] == mat_mul_entry(tv, rv, 3, 3));
            assert(rat_eq(wv[12], m[12]));
            assert(rat_eq(wv[13], m[13]));
            assert(rat_eq(wv[14], m[14]));
            assert(rat_eq(wv[15], m[15]));
        } else {
            // the rotation block: the product entry is the rotation entry,
            // up to a common factor of denominators
            if k == 0 {
                let e = mat_mul_entry(tv, rv, 0, 0);
                let n = rv[0].0;
                assert(m[0] == e);
                assert(e.0 == (n * d2) * (d2 * td));
                assert(e.1 == (d2 * d2) * (d2 * td));
                assert(wv[0] == (n, d2));
                lemma_rotation_block_entry(n, d2, td);
                assert(rat_eq(wv[0], m[0]));
            } else if k == 1 {
                let e = mat_mul_entry(tv, rv, 0, 1);
                let n = rv[1].0;
                assert(m[1] == e);
                assert(e.0 == (n * d2) * (d2 * td));
                assert(e.1 == (d2 * d2) * (d2 * td));
                assert(wv[1] == (n, d2));
                lemma_rotation_block_entry(n, d2, td);
                assert(rat_eq(wv[1], m[1]));
            } else if k == 2 {
                let e = mat_mul_entry(tv, rv, 0, 2);
                let n = rv[2].0;
                assert(m[2] == e);
                assert(e.0 == (n * d2) * (d2 * td));
                assert(e.1 == (d2 * d2) * (d2 * td));
                assert(wv[2] == (n, d2));
                lemma_rotation_block_entry(n, d2, td);
                assert(rat_eq(wv[2], m[2]));
            } else if k == 4 {
                let e = mat_mul_entry(tv, rv, 1, 0);
                let n = rv[4].0;
                assert(m[4] == e);
                assert(e.0 == (n * d2) * (d2 * td));
                assert(e.1 == (d2 * d2) * (d2 * td));
                assert(wv[4] == (n, d2));
                lemma_rotation_block_entry(n, d2, td);
                assert(rat_eq(wv[4], m[4]));
            } else if k == 5 {
                let e = mat_mul_entry(tv, rv, 1, 1);
                let n = rv[5].0;
                assert(m[5] == e);
                assert(e.0 == (n * d2) * (d2 * td));
                assert(e.1 == (d2 * d2) * (d2 * td));
                assert(wv[5] == (n, d2));
                lemma_rotation_block_entry(n, d2, td);
                assert(rat_eq(wv[5], m[5]));
            } else if k == 6 {
                let e = mat_mul_entry(tv, rv, 1, 2);
                let n = rv[6].0;
                assert(m[6] == e);
                assert(e.0 == (n * d2) * (d2 * td));
                assert(e.1 == (d2 * d2) * (d2 * td));
                assert(wv[6] == (n, d2));
                lemma_rotation_block_entry(n, d2, td);
                assert(rat_eq(wv[6], m[6]));
            } else if k == 8 {
                let e = mat_mul_entry(tv, rv, 2, 0);
                let n = rv[8].0;
                assert(m[8] == e);
                assert(e.0 == (n * td) * (d2 * d2));
                assert(e.1 == (d2 * d2) * (d2 * td));
                assert(wv[8] == (n, d2));
                lemma_rotation_block_entry(n, d2, td);
                assert(rat_eq(wv[8], m[8]));
            } else if k == 9 {
                let e = mat_mul_entry(tv, rv, 2, 1);
                let n = rv[9].0;
                assert(m[9] == e);
                assert(e.0 == (n * td) * (d2 * d2));
                assert(e.1 == (d2 * d2) * (d2 * td));
                assert(wv[9] == (n, d2));
                lemma_rotation_block_entry(n, d2, td);
                assert(rat_eq(wv[9], m[9]));
            } else if k == 10 {
                let e = mat_mul_entry(tv, rv, 2, 2);
                let n = rv[10].0;
                assert(m[10] == e);
                assert(e.0 == (n * td) * (d2 * d2));
                assert(e.1 == (d2 * d2) * (d2 * td));
                assert(wv[10] == (n, d2));
                lemma_rotation_block_entry(n, d2, td);
                assert(rat_eq(wv[10], m[10]));
            }
        }
    }
}

/// Bound on a product of two integers that both lie within `[-m, m]` for a
/// modest `m`; also keeps products of positive factors positive.
proof fn lemma_prod_bound(a: int, b: int, m: int) by (nonlinear_arith)
    requires
        -m <= a <= m,
        -m <= b <= m,
        0 <= m <= 0x4000_0000,
    ensures
        -0x1000_0000_0000_0000 <= a * b <= 0x1000_0000_0000_0000,
        (1 <= a && 1 <= b) ==> 1 <= a * b,
{
}

impl Transform {
    pub fn new(translation: Vec3R, rotation: QuatR) -> (t: Self)
        ensures
            t.translation == translation,
            t.rotation == rotation,
    {
        Transform { translation, rotation }
    }

    /// The world matrix of this placement: rotation applied first (object
    /// space), then translation. Entries are exact; the quaternion must be
    /// within [`QuatR::bounded`] so that the quadratic terms stay in range.
    pub fn mat(&self) -> (m: Mat4R)
        requires
            self.translation.wf(),
            self.rotation.bounded(),
        ensures
            m@ =~= world_mat_view(*self),
            m.wf(),
    {
        let x = self.rotation.x;
        let y = self.rotation.y;
        let z = self.rotation.z;
        let w = self.rotation.w;
        let d = self.rotation.den;
        proof {
            lemma_prod_bound(d as int, d as int, d as int);
            lemma_prod_bound(x as int, x as int, d as int);
            lemma_prod_bound(y as int, y as int, d as int);
            lemma_prod_bound(z as int, z as int, d as int);
            lemma_prod_bound(x as int, y as int, d as int);
            lemma_prod_bound(x as int, z as int, d as int);
            lemma_prod_bound(x as int, w as int, d as int);
            lemma_prod_bound(y as int, z as int, d as int);
            lemma_prod_bound(y as int, w as int, d as int);
            lemma_prod_bound(z as int, w as int, d as int);
        }
        let d2: i64 = d * d;
        let xx2: i64 = 2 * (x * x);
        let yy2: i64 = 2 * (y * y);
        let zz2: i64 = 2 * (z * z);
        let xy2: i64 = 2 * (x * y);
        let xz2: i64 = 2 * (x * z);
        let xw2: i64 = 2 * (x * w);
        let yz2: i64 = 2 * (y * z);
        let yw2: i64 = 2 * (y * w);
        let zw2: i64 = 2 * (z * w);
        Mat4R {
            m00: Rat { num: d2 - yy2 - zz2, den: d2 },
            m01: Rat { num: xy2 - zw2, den: d2 },
            m02: Rat { num: xz2 + yw2, den: d2 },
            m03: Rat { num: self.translation.x, den: self.translation.den },
            m10: Rat { num: xy2 + zw2, den: d2 },
            m11: Rat { num: d2 - xx2 - zz2, den: d2 },
            m12: Rat { num: yz2 - xw2, den: d2 },
            m13: Rat { num: self.translation.y, den: self.translation.den },
            m20: Rat { num: xz2 - yw2, den: d2 },
            m21: Rat { num: yz2 + xw2, den: d2 },
            m22: Rat { num: d2 - xx2 - yy2, den: d2 },
            m23: Rat { num: self.translation.z, den: self.translation.den },
            m30: Rat { num: 0, den: 1 },
            m31: Rat { num: 0, den: 1 },
            m32: Rat { num: 0, den: 1 },
            m33: Rat { num: 1, den: 1 },
        }
    }
}

} // verus!
