//! Shared surface geometry: an indexed triangle list over a vertex buffer.
//! The renderer keeps one unit quad for compositing the lit frame onto the
//! back buffer.
use vstd::prelude::*;

use crate::backend::Backend;

verus! {

/// One triangle as three indices into a surface's vertex buffer.
#[derive(Clone, Copy, PartialEq, Eq, Structural, Debug)]
pub struct TriangleDefinition {
    pub a: u32,
    pub b: u32,
    pub c: u32,
}

/// Geometry shared between draws: a vertex buffer (modelled by its length)
/// and the triangle list indexing into it.
pub struct SurfaceSharedData {
    pub vertex_count: usize,
    pub triangles: Vec<TriangleDefinition>,
}

impl SurfaceSharedData {
    /// Every triangle indexes inside the vertex buffer.
    pub open spec fn wf(self) -> bool {
        forall|i: int|
            0 <= i < self.triangles@.len() ==> self.triangles@[i].a < self.vertex_count
                && self.triangles@[i].b < self.vertex_count && self.triangles@[i].c
                < self.vertex_count
    }

    /// The unit quad in the XY plane: four corners, two triangles.
    pub fn make_unit_xy_quad() -> (s: SurfaceSharedData)
        ensures
            s.wf(),
            s.vertex_count == 4,
            s.triangles@.len() == 2,
            s.triangles@[0] == (TriangleDefinition { a: 0, b: 1, c: 2 }),
            s.triangles@[1] == (TriangleDefinition { a: 0, b: 2, c: 3 }),
    {
        let mut triangles: Vec<TriangleDefinition> = Vec::new();
        triangles.push(TriangleDefinition { a: 0, b: 1, c: 2 });
        triangles.push(TriangleDefinition { a: 0, b: 2, c: 3 });
        SurfaceSharedData { vertex_count: 4, triangles }
    }

    /// Submits the triangle list to the bound program; a draw without a
    /// bound program is undefined in the backend, so it is ruled out here.
    /// Returns how many triangles were submitted.
    pub fn draw(&self, backend: &Backend) -> (n: usize)
        requires
            backend@.bound_program is Some,
        ensures
            n == self.triangles@.len(),
    {
        self.triangles.len()
    }
}

} // verus!
