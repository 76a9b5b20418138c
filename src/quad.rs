//! The quad that the sprite is drawn on: four corners in the plane z = 0,
//! one normal facing +z, texture coordinates over the unit square, and two
//! triangles.

use vstd::prelude::*;

verus! {

/// The geometry of a quad, in exact units. A corner `(x, y)` stands at
/// `(x / 2, y / 2, 0)`, so the corners at ±1 are those at ±0.5. A texture
/// coordinate is 0 or 1 on each axis.
pub struct QuadMesh {
    /// Corner positions, in half units, in the plane z = 0.
    pub corners: Vec<(i32, i32)>,
    /// The normal shared by every corner.
    pub normal: (i32, i32, i32),
    /// One texture coordinate for each corner.
    pub uvs: Vec<(u32, u32)>,
    /// Corner indices, three for each triangle.
    pub indices: Vec<u32>,
}

/// Twice the signed area of the triangle `a b c`, seen from +z: positive
/// when its corners run counterclockwise.
pub open spec fn turn(a: (i32, i32), b: (i32, i32), c: (i32, i32)) -> int {
    (b.0 - a.0) * (c.1 - a.1) - (b.1 - a.1) * (c.0 - a.0)
}

impl QuadMesh {
    /// Every index names a corner, every corner has a texture coordinate,
    /// and every triangle runs counterclockwise when seen from the side the
    /// normal points to, so that it faces that way.
    pub open spec fn well_formed(self) -> bool {
        &&& self.uvs@.len() == self.corners@.len()
        &&& self.indices@.len() % 3 == 0
        &&& forall|i: int| 0 <= i < self.indices@.len() ==> #[trigger] self.indices@[i] < self.corners@.len()
        &&& self.normal == (0i32, 0i32, 1i32)
        &&& forall|t: int|
            0 <= t < self.indices@.len() / 3 ==> #[trigger] turn(
                self.corners@[self.indices@[3 * t] as int],
                self.corners@[self.indices@[3 * t + 1] as int],
                self.corners@[self.indices@[3 * t + 2] as int],
            ) > 0
    }
}

/// The sprite's quad: corners at (±0.5, ±0.5, 0), normal (0, 0, 1),
/// texture corners mapped over 0..1, and the two triangles 0 1 2 and 0 2 3.
pub fn quad_mesh() -> (m: QuadMesh)
    ensures
        m.corners@ == seq![(-1i32, 1i32), (-1i32, -1i32), (1i32, -1i32), (1i32, 1i32)],
        m.normal == (0i32, 0i32, 1i32),
        m.uvs@ == seq![(0u32, 0u32), (0u32, 1u32), (1u32, 1u32), (1u32, 0u32)],
        m.indices@ == seq![0u32, 1, 2, 0, 2, 3],
        m.well_formed(),
{
    let corners: Vec<(i32, i32)> = vec![(-1, 1), (-1, -1), (1, -1), (1, 1)];
    let uvs: Vec<(u32, u32)> = vec![(0, 0), (0, 1), (1, 1), (1, 0)];
    let indices: Vec<u32> = vec![0, 1, 2, 0, 2, 3];
    let m = QuadMesh { corners, normal: (0, 0, 1), uvs, indices };
    assert(m.corners@ == seq![(-1i32, 1i32), (-1i32, -1i32), (1i32, -1i32), (1i32, 1i32)]);
    assert(m.indices@ == seq![0u32, 1, 2, 0, 2, 3]);
    assert forall|t: int| 0 <= t < m.indices@.len() / 3 implies #[trigger] turn(
        m.corners@[m.indices@[3 * t] as int],
        m.corners@[m.indices@[3 * t + 1] as int],
        m.corners@[m.indices@[3 * t + 2] as int],
    ) > 0 by {
        assert(t == 0 || t == 1);
        if t == 0 {
            assert(turn((-1i32, 1i32), (-1i32, -1i32), (1i32, -1i32)) == 4) by (nonlinear_arith);
        } else {
            assert(turn((-1i32, 1i32), (1i32, -1i32), (1i32, 1i32)) == 4) by (nonlinear_arith);
        }
    }
    m
}

} // verus!
