use vstd::prelude::*;
use crate::accel::{plan_blas_geometry, blas_geometry_spec, AccelError, TriangleGeometry};

verus! {

/// A block of 16-bit triangle indices: four triangles.
#[derive(Clone, Copy, Debug)]
pub struct Index {
    pub data: [u16; 12],
}

/// A mesh to build a bottom-level structure from: 32-bit triangle indices and
/// vertex positions, each coordinate held as the bit pattern of a 32-bit float.
#[derive(Clone, Debug)]
pub struct RtObject {
    indices: Vec<u32>,
    vertices: Vec<u32>,
}

impl RtObject {
    pub fn new(indices: Vec<u32>, vertices: Vec<u32>) -> (r: RtObject)
        ensures
            r.indices() == indices@,
            r.vertices() == vertices@,
    {
        RtObject { indices, vertices }
    }

    pub closed spec fn indices(&self) -> Seq<u32> {
        self.indices@
    }

    pub closed spec fn vertices(&self) -> Seq<u32> {
        self.vertices@
    }

    pub fn index_data(&self) -> (r: &Vec<u32>)
        ensures
            r@ == self.indices(),
    {
        &self.indices
    }

    pub fn vertex_data(&self) -> (r: &Vec<u32>)
        ensures
            r@ == self.vertices(),
    {
        &self.vertices
    }

    /// The triangle geometry of this mesh, or why it cannot be built.
    pub fn geometry(&self) -> (r: Result<TriangleGeometry, AccelError>)
        ensures
            r == blas_geometry_spec(4, self.indices().len() as usize, self.vertices().len() as usize),
    {
        plan_blas_geometry(4, self.indices.len(), self.vertices.len())
    }
}

} // verus!
