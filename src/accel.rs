use vstd::prelude::*;

verus! {

/// Bytes per vertex position: three 32-bit floats.
pub const VERTEX_STRIDE: u64 = 12;

/// Geometry-instance flag that disables triangle facing culling.
pub const INSTANCE_CULL_DISABLE: u8 = 1;

/// Visibility mask that makes an instance visible to every ray.
pub const INSTANCE_MASK_ALL: u8 = 0xFF;

/// Width of the entries of a triangle index array.
#[derive(Clone, Copy, PartialEq, Eq, Debug, Structural)]
pub enum IndexType {
    Uint8,
    Uint16,
    Uint32,
}

#[derive(Clone, Copy, PartialEq, Eq, Debug, Structural)]
pub enum AccelError {
    /// The index entry size is not 1, 2 or 4 bytes.
    UnsupportedIndexSize,
    /// The index count is not a multiple of three.
    IndexCountNotTriangles,
    /// The vertex array does not hold whole (x, y, z) triples.
    VertexDataNotTriples,
    /// The vertex array is empty.
    NoVertices,
    /// More primitives or vertices than a build can describe.
    TooLarge,
    /// A top-level build was asked for with no instances.
    NoInstances,
    /// The bottom-level structure at this position has no handle, no device
    /// address, or its build has not completed.
    UnbuiltBlas(usize),
}

/// Index type for entries of `size` bytes.
pub open spec fn index_type_spec(size: usize) -> Option<IndexType> {
    if size == 1 {
        Some(IndexType::Uint8)
    } else if size == 2 {
        Some(IndexType::Uint16)
    } else if size == 4 {
        Some(IndexType::Uint32)
    } else {
        None
    }
}

pub fn index_type_for_size(size: usize) -> (r: Option<IndexType>)
    ensures
        r == index_type_spec(size),
{
    if size == 1 {
        Some(IndexType::Uint8)
    } else if size == 2 {
        Some(IndexType::Uint16)
    } else if size == 4 {
        Some(IndexType::Uint32)
    } else {
        None
    }
}

/// Description of a single opaque triangle geometry for a bottom-level build.
#[derive(Clone, Copy, PartialEq, Eq, Debug, Structural)]
pub struct TriangleGeometry {
    pub index_type: IndexType,
    pub primitive_count: u32,
    pub max_vertex: u32,
    pub vertex_stride: u64,
}

/// Geometry of a bottom-level build from `index_count` entries of
/// `index_size` bytes and `vertex_float_count` floats, or the first check it fails.
pub open spec fn blas_geometry_spec(index_size: usize, index_count: usize, vertex_float_count: usize) -> Result<
    TriangleGeometry,
    AccelError,
> {
    if index_type_spec(index_size) is None {
        Err(AccelError::UnsupportedIndexSize)
    } else if index_count % 3 != 0 {
        Err(AccelError::IndexCountNotTriangles)
    } else if vertex_float_count % 3 != 0 {
        Err(AccelError::VertexDataNotTriples)
    } else if vertex_float_count == 0 {
        Err(AccelError::NoVertices)
    } else if index_count / 3 > u32::MAX || vertex_float_count / 3 - 1 > u32::MAX {
        Err(AccelError::TooLarge)
    } else {
        Ok(
            TriangleGeometry {
                index_type: index_type_spec(index_size)->0,
                primitive_count: (index_count / 3) as u32,
                max_vertex: (vertex_float_count / 3 - 1) as u32,
                vertex_stride: VERTEX_STRIDE,
            },
        )
    }
}

/// Checks the inputs of a bottom-level build and describes its geometry:
/// `index_count` entries of `index_size` bytes, and `vertex_float_count`
/// floats holding (x, y, z) positions.
pub fn plan_blas_geometry(index_size: usize, index_count: usize, vertex_float_count: usize) -> (r:
    Result<TriangleGeometry, AccelError>)
    ensures
        r == blas_geometry_spec(index_size, index_count, vertex_float_count),
{
    let index_type = match index_type_for_size(index_size) {
        Some(t) => t,
        None => return Err(AccelError::UnsupportedIndexSize),
    };
    if index_count % 3 != 0 {
        return Err(AccelError::IndexCountNotTriangles);
    }
    if vertex_float_count % 3 != 0 {
        return Err(AccelError::VertexDataNotTriples);
    }
    if vertex_float_count == 0 {
        return Err(AccelError::NoVertices);
    }
    let primitives = index_count / 3;
    let max_vertex = vertex_float_count / 3 - 1;
    if primitives > u32::MAX as usize || max_vertex > u32::MAX as usize {
        return Err(AccelError::TooLarge);
    }
    Ok(
        TriangleGeometry {
            index_type,
            primitive_count: primitives as u32,
            max_vertex: max_vertex as u32,
            vertex_stride: VERTEX_STRIDE,
        },
    )
}

/// An acceleration structure as the builder sees it: its opaque handle (zero
/// when null), its device address, and whether its build has completed on the device.
#[derive(Clone, Copy, PartialEq, Eq, Debug, Structural)]
pub struct AccelStructure {
    pub handle: u64,
    pub device_address: u64,
    pub built: bool,
}

impl AccelStructure {
    /// A structure just created, whose build has not been submitted.
    pub fn created(handle: u64, device_address: u64) -> (r: AccelStructure)
        ensures
            r == (AccelStructure { handle, device_address, built: false }),
    {
        AccelStructure { handle, device_address, built: false }
    }

    /// Records that the build command has completed (the queue was drained).
    pub fn mark_built(&mut self)
        ensures
            *final(self) == (AccelStructure { built: true, ..*old(self) }),
    {
        self.built = true;
    }

    pub open spec fn usable_spec(self) -> bool {
        self.handle != 0 && self.device_address != 0 && self.built
    }

    /// A top-level instance may reference this structure.
    pub fn usable(&self) -> (r: bool)
        ensures
            r == self.usable_spec(),
    {
        self.handle != 0 && self.device_address != 0 && self.built
    }
}

/// One top-level instance record, without its transform (a 3x4 row-major
/// matrix supplied by the caller).
#[derive(Clone, Copy, PartialEq, Eq, Debug, Structural)]
pub struct InstanceRecord {
    pub blas_address: u64,
    /// Low 24 bits of the (custom index, mask) word.
    pub custom_index: u32,
    /// High 8 bits of the (custom index, mask) word.
    pub mask: u8,
    /// Low 24 bits of the (binding-table offset, flags) word.
    pub sbt_offset: u32,
    /// High 8 bits of the (binding-table offset, flags) word.
    pub flags: u8,
}

pub open spec fn instance_for(b: AccelStructure) -> InstanceRecord {
    InstanceRecord {
        blas_address: b.device_address,
        custom_index: 0,
        mask: INSTANCE_MASK_ALL,
        sbt_offset: 0,
        flags: INSTANCE_CULL_DISABLE,
    }
}

/// Index of the first structure that an instance may not reference.
pub open spec fn first_unusable(blas: Seq<AccelStructure>) -> int {
    choose|i: int|
        0 <= i < blas.len() && !blas[i].usable_spec() && forall|j: int|
            0 <= j < i ==> #[trigger] blas[j].usable_spec()
}

/// Instance records of a top-level build, one per bottom-level structure in
/// order. Refused when the list is empty or when one of the structures is null
/// or not yet built.
pub fn plan_tlas_instances(blas: &Vec<AccelStructure>) -> (r: Result<Vec<InstanceRecord>, AccelError>)
    ensures
        blas@.len() == 0 ==> r == Err::<Vec<InstanceRecord>, AccelError>(AccelError::NoInstances),
        r is Ok <==> (blas@.len() > 0 && forall|i: int|
            0 <= i < blas@.len() ==> #[trigger] blas@[i].usable_spec()),
        blas@.len() > 0 && (exists|i: int| 0 <= i < blas@.len() && !#[trigger] blas@[i].usable_spec())
            ==> r == Err::<Vec<InstanceRecord>, AccelError>(
            AccelError::UnbuiltBlas(first_unusable(blas@) as usize),
        ),
        r matches Ok(v) ==> v@ == blas@.map_values(|b: AccelStructure| instance_for(b)),
{
    if blas.len() == 0 {
        return Err(AccelError::NoInstances);
    }
    let mut out: Vec<InstanceRecord> = Vec::new();
    let mut i: usize = 0;
    while i < blas.len()
        invariant
            i <= blas@.len(),
            forall|j: int| 0 <= j < i ==> #[trigger] blas@[j].usable_spec(),
            out@ == blas@.subrange(0, i as int).map_values(|b: AccelStructure| instance_for(b)),
        decreases blas.len() - i,
    {
        let b = blas[i];
        if !b.usable() {
            proof {
                let k = first_unusable(blas@);
                assert(0 <= i < blas@.len() && !blas@[i as int].usable_spec() && forall|j: int|
                    0 <= j < i ==> #[trigger] blas@[j].usable_spec());
                assert(0 <= k < blas@.len() && !blas@[k].usable_spec() && forall|j: int|
                    0 <= j < k ==> #[trigger] blas@[j].usable_spec());
                if k < i {
                    assert(blas@[k].usable_spec());
                } else if k > i {
                    assert(blas@[i as int].usable_spec());
                }
            }
            return Err(AccelError::UnbuiltBlas(i));
        }
        out.push(
            InstanceRecord {
                blas_address: b.device_address,
                custom_index: 0,
                mask: INSTANCE_MASK_ALL,
                sbt_offset: 0,
                flags: INSTANCE_CULL_DISABLE,
            },
        );
        proof {
            assert(blas@.subrange(0, i + 1) =~= blas@.subrange(0, i as int).push(blas@[i as int]));
        }
        i = i + 1;
    }
    proof {
        assert(blas@.subrange(0, blas@.len() as int) =~= blas@);
    }
    Ok(out)
}

} // verus!
