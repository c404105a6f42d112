use vstd::prelude::*;

verus! {

use crate::rat::Rat;

/// A mesh vertex: an exact rational position `(x, y, z)`.
#[derive(Clone, Copy, Debug, PartialEq, Eq, Structural)]
pub struct Vertex {
    pub x: Rat,
    pub y: Rat,
    pub z: Rat,
}

impl View for Vertex {
    type V = ((int, int), (int, int), (int, int));

    /// The three coordinates as rational values.
    open spec fn view(&self) -> ((int, int), (int, int), (int, int)) {
        (self.x@, self.y@, self.z@)
    }
}

impl Vertex {
    #[inline(always)]
    pub fn new(position: (Rat, Rat, Rat)) -> (v: Vertex)
        ensures
            v.x == position.0,
            v.y == position.1,
            v.z == position.2,
    {
        Vertex { x: position.0, y: position.1, z: position.2 }
    }
}

} // verus!
