//! Triangle meshes for collider derivation.
//!
//! The chassis collider is derived from an explicit triangle mesh.  A mesh
//! with no vertices, no triangles, an out-of-range vertex index, or a
//! triangle that repeats a vertex is degenerate: deriving a collider from it
//! is a fatal configuration error at rig-construction time.

use vstd::prelude::*;
use crate::geom::Vec3Milli;

verus! {

/// An explicit triangle mesh: a vertex table and triangles given as triples
/// of vertex indices.
#[derive(Debug)]
pub struct TriMesh {
    pub vertices: Vec<Vec3Milli>,
    pub triangles: Vec<(usize, usize, usize)>,
}

/// A triangle is acceptable when its three indices point into a vertex table
/// of `n` entries and name three distinct vertices.
pub open spec fn triangle_ok(t: (usize, usize, usize), n: nat) -> bool {
    &&& t.0 < n
    &&& t.1 < n
    &&& t.2 < n
    &&& t.0 != t.1
    &&& t.0 != t.2
    &&& t.1 != t.2
}

impl TriMesh {
    /// The mesh is neither empty nor degenerate: collider derivation from it
    /// is defined.
    pub open spec fn is_well_formed(self) -> bool {
        &&& self.vertices@.len() > 0
        &&& self.triangles@.len() > 0
        &&& forall|i: int|
            0 <= i < self.triangles@.len() ==> triangle_ok(
                #[trigger] self.triangles@[i],
                self.vertices@.len(),
            )
    }

    /// Decides well-formedness, exactly.
    pub fn check_well_formed(&self) -> (r: bool)
        ensures
            r == self.is_well_formed(),
    {
        if self.vertices.len() == 0 || self.triangles.len() == 0 {
            return false;
        }
        let n = self.vertices.len();
        let mut i: usize = 0;
        while i < self.triangles.len()
            invariant
                0 <= i <= self.triangles@.len(),
                n == self.vertices@.len(),
                forall|k: int|
                    0 <= k < i ==> triangle_ok(#[trigger] self.triangles@[k], n as nat),
            decreases self.triangles@.len() - i,
        {
            let (a, b, c) = self.triangles[i];
            if !(a < n && b < n && c < n && a != b && a != c && b != c) {
                return false;
            }
            i = i + 1;
        }
        true
    }
}

/// The eight corners of an axis-aligned cube of half-extent `h`, centred on
/// the origin.  Corner `k` has a positive coordinate on an axis exactly when
/// the corresponding bit of `k` is set (bit 0: x, bit 1: y, bit 2: z).
pub open spec fn cuboid_vertices(h: i64) -> Seq<Vec3Milli> {
    let n = (0 - h) as i64;
    seq![
        (Vec3Milli { x: n, y: n, z: n }),
        (Vec3Milli { x: h, y: n, z: n }),
        (Vec3Milli { x: n, y: h, z: n }),
        (Vec3Milli { x: h, y: h, z: n }),
        (Vec3Milli { x: n, y: n, z: h }),
        (Vec3Milli { x: h, y: n, z: h }),
        (Vec3Milli { x: n, y: h, z: h }),
        (Vec3Milli { x: h, y: h, z: h }),
    ]
}

/// Two triangles per face of the cube, as indices into `cuboid_vertices`.
pub open spec fn cuboid_triangles() -> Seq<(usize, usize, usize)> {
    seq![
        (0usize, 2usize, 1usize),
        (1usize, 2usize, 3usize),
        (4usize, 5usize, 6usize),
        (5usize, 7usize, 6usize),
        (1usize, 3usize, 5usize),
        (3usize, 7usize, 5usize),
        (0usize, 4usize, 2usize),
        (2usize, 4usize, 6usize),
        (2usize, 6usize, 3usize),
        (3usize, 6usize, 7usize),
        (0usize, 1usize, 4usize),
        (1usize, 5usize, 4usize),
    ]
}

/// Builds the triangle mesh of an axis-aligned cube of half-extent
/// `half_milli`, the shape the chassis collider is derived from.
pub fn cuboid_mesh(half_milli: i64) -> (m: TriMesh)
    requires
        0 < half_milli,
    ensures
        m.vertices@ == cuboid_vertices(half_milli),
        m.triangles@ == cuboid_triangles(),
        m.is_well_formed(),
{
    let n: i64 = 0 - half_milli;
    let h: i64 = half_milli;
    let mut vertices: Vec<Vec3Milli> = Vec::new();
    vertices.push(Vec3Milli { x: n, y: n, z: n });
    vertices.push(Vec3Milli { x: h, y: n, z: n });
    vertices.push(Vec3Milli { x: n, y: h, z: n });
    vertices.push(Vec3Milli { x: h, y: h, z: n });
    vertices.push(Vec3Milli { x: n, y: n, z: h });
    vertices.push(Vec3Milli { x: h, y: n, z: h });
    vertices.push(Vec3Milli { x: n, y: h, z: h });
    vertices.push(Vec3Milli { x: h, y: h, z: h });
    let mut triangles: Vec<(usize, usize, usize)> = Vec::new();
    triangles.push((0, 2, 1));
    triangles.push((1, 2, 3));
    triangles.push((4, 5, 6));
    triangles.push((5, 7, 6));
    triangles.push((1, 3, 5));
    triangles.push((3, 7, 5));
    triangles.push((0, 4, 2));
    triangles.push((2, 4, 6));
    triangles.push((2, 6, 3));
    triangles.push((3, 6, 7));
    triangles.push((0, 1, 4));
    triangles.push((1, 5, 4));
    let m = TriMesh { vertices, triangles };
    proof {
        assert(m.vertices@ =~= cuboid_vertices(half_milli));
        assert(m.triangles@ =~= cuboid_triangles());
        assert forall|i: int| 0 <= i < m.triangles@.len() implies triangle_ok(
            #[trigger] m.triangles@[i],
            m.vertices@.len(),
        ) by {
            assert(m.triangles@.len() == 12);
        }
    }
    m
}

} // verus!
