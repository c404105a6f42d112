use vstd::prelude::*;

verus! {

/// An exact rational number `num / den` with a positive denominator.
///
/// All geometry in this crate (vertex positions, shell depths, matrix
/// entries) is exact: a value is a quotient of two machine integers, and the
/// mathematical value it stands for is pinned by the pair itself. Fractions
/// are not kept reduced; equality of the values they stand for is
/// [`rat_eq`] over the views.
#[derive(Clone, Copy, Debug, PartialEq, Eq, Structural)]
pub struct Rat {
    pub num: i64,
    pub den: i64,
}

impl View for Rat {
    type V = (int, int);

    open spec fn view(&self) -> (int, int) {
        (self.num as int, self.den as int)
    }
}

impl Rat {
    /// A rational is well formed when its denominator is positive.
    pub open spec fn wf(self) -> bool {
        self.den >= 1
    }

    pub fn new(num: i64, den: i64) -> (r: Rat)
        requires
            den >= 1,
        ensures
            r.num == num,
            r.den == den,
            r.wf(),
    {
        Rat { num, den }
    }
}

/// The pairs `a` and `b` stand for the same rational value.
/// Meaningful whenever both denominators are nonzero.
pub open spec fn rat_eq(a: (int, int), b: (int, int)) -> bool {
    a.0 * b.1 == b.0 * a.1
}

/// The value of `a` is at most the value of `b`.
/// Meaningful whenever both denominators are positive.
pub open spec fn rat_le(a: (int, int), b: (int, int)) -> bool {
    a.0 * b.1 <= b.0 * a.1
}

/// Product of two rational values.
pub open spec fn rat_mul(a: (int, int), b: (int, int)) -> (int, int) {
    (a.0 * b.0, a.1 * b.1)
}

/// Sum of two rational values.
pub open spec fn rat_add(a: (int, int), b: (int, int)) -> (int, int) {
    (a.0 * b.1 + b.0 * a.1, a.1 * b.1)
}

} // verus!
