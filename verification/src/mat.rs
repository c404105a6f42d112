use vstd::prelude::*;

verus! {

use crate::rat::{Rat, rat_add, rat_eq, rat_mul};

/// A 4x4 matrix of exact rationals, row-major: `mRC` is the entry in row `R`,
/// column `C`. Acting on column vectors, row 3 carries the homogeneous
/// coordinate.
#[derive(Clone, Copy, Debug, PartialEq, Eq, Structural)]
pub struct Mat4R {
    pub m00: Rat, pub m01: Rat, pub m02: Rat, pub m03: Rat,
    pub m10: Rat, pub m11: Rat, pub m12: Rat, pub m13: Rat,
    pub m20: Rat, pub m21: Rat, pub m22: Rat, pub m23: Rat,
    pub m30: Rat, pub m31: Rat, pub m32: Rat, pub m33: Rat,
}

impl View for Mat4R {
    type V = Seq<(int, int)>;

    /// The sixteen entries, row-major, as rational values.
    open spec fn view(&self) -> Seq<(int, int)> {
        seq![
            self.m00@, self.m01@, self.m02@, self.m03@,
            self.m10@, self.m11@, self.m12@, self.m13@,
            self.m20@, self.m21@, self.m22@, self.m23@,
            self.m30@, self.m31@, self.m32@, self.m33@,
        ]
    }
}

impl Mat4R {
    /// Every entry has a positive denominator.
    pub open spec fn wf(self) -> bool {
        &&& self.m00.wf() &&& self.m01.wf() &&& self.m02.wf() &&& self.m03.wf()
        &&& self.m10.wf() &&& self.m11.wf() &&& self.m12.wf() &&& self.m13.wf()
        &&& self.m20.wf() &&& self.m21.wf() &&& self.m22.wf() &&& self.m23.wf()
        &&& self.m30.wf() &&& self.m31.wf() &&& self.m32.wf() &&& self.m33.wf()
    }
}

/// Entry `(r, c)` of the product of two rational 4x4 matrices (dot product of
/// row `r` of `a` with column `c` of `b`).
pub open spec fn mat_mul_entry(
    a: Seq<(int, int)>,
    b: Seq<(int, int)>,
    r: int,
    c: int,
) -> (int, int) {
    rat_add(
        rat_add(rat_mul(a[4 * r + 0], b[4 * 0 + c]), rat_mul(a[4 * r + 1], b[4 * 1 + c])),
        rat_add(rat_mul(a[4 * r + 2], b[4 * 2 + c]), rat_mul(a[4 * r + 3], b[4 * 3 + c])),
    )
}

/// Product of two rational 4x4 matrices, row-major.
pub open spec fn mat_mul(a: Seq<(int, int)>, b: Seq<(int, int)>) -> Seq<(int, int)> {
    Seq::new(16, |k: int| mat_mul_entry(a, b, k / 4, k % 4))
}

/// The identity matrix, row-major.
pub open spec fn mat_identity() -> Seq<(int, int)> {
    seq![
        (1int, 1int), (0int, 1int), (0int, 1int), (0int, 1int),
        (0int, 1int), (1int, 1int), (0int, 1int), (0int, 1int),
        (0int, 1int), (0int, 1int), (1int, 1int), (0int, 1int),
        (0int, 1int), (0int, 1int), (0int, 1int), (1int, 1int),
    ]
}

/// Two row-major 4x4 matrices hold equal rational values entrywise.
pub open spec fn mat_rat_eq(a: Seq<(int, int)>, b: Seq<(int, int)>) -> bool {
    &&& a.len() == 16
    &&& b.len() == 16
    &&& forall|k: int| 0 <= k < 16 ==> rat_eq(#[trigger] a[k], #[trigger] b[k])
}

} // verus!
