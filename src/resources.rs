//! Plain descriptions of GPU resources: buffer allocations, bind groups and
//! per-view uniform offsets.

use vstd::prelude::*;

verus! {

/// The layout of one vertex buffer, shared by all meshes that use it.
#[derive(Clone, Copy, Debug, PartialEq, Eq, Structural)]
pub struct MeshVertexBufferLayoutRef {
    /// The number of bytes between consecutive vertices.
    pub array_stride: u64,
}

/// The kind of data that an allocation holds; allocations of one class share
/// buffers.
#[derive(Clone, Copy, Debug, PartialEq, Eq, Structural)]
pub enum GpuAllocationClass {
    /// Vertices laid out as the layout says.
    Vertex(MeshVertexBufferLayoutRef),
    /// 32-bit indices.
    Index,
}

impl GpuAllocationClass {
    /// The size in bytes of one element of this class.
    pub open spec fn spec_element_size(&self) -> u64 {
        match self {
            GpuAllocationClass::Vertex(layout) => layout.array_stride,
            GpuAllocationClass::Index => 4,
        }
    }

    /// The size in bytes of one element: the vertex stride, or four bytes
    /// per index.
    pub fn element_size(&self) -> (r: u64)
        ensures
            r == self.spec_element_size(),
    {
        match self {
            GpuAllocationClass::Vertex(layout) => layout.array_stride,
            GpuAllocationClass::Index => 4,
        }
    }
}

/// A run of elements inside a shared GPU buffer.
#[derive(Clone, Copy, Debug, PartialEq, Eq, Structural)]
pub struct GpuAllocation {
    /// The buffer that holds the elements.
    pub slab: u32,
    /// The first element, in elements; `None` for a large allocation with a
    /// buffer of its own.
    pub offset: Option<u64>,
    /// The number of elements.
    pub size: u64,
}

impl GpuAllocation {
    /// The first element within the buffer; a large allocation starts at 0.
    pub fn offset(&self) -> (r: u64)
        ensures
            self.offset is Some ==> r == self.offset->0,
            self.offset is None ==> r == 0,
    {
        match self.offset {
            Some(offset) => offset,
            None => 0,
        }
    }
}

/// The identifier of a bind group.
#[derive(Clone, Copy, Debug, PartialEq, Eq, Structural)]
pub struct BindGroupId(pub u32);

/// A set of resources bound together for a shader.
#[derive(Clone, Copy, Debug, PartialEq, Eq, Structural)]
pub struct BindGroup {
    id: BindGroupId,
}

impl BindGroup {
    /// The identifier given at creation.
    pub closed spec fn spec_id(&self) -> BindGroupId {
        self.id
    }

    /// A bind group with identifier `id`.
    pub fn new(id: BindGroupId) -> (r: Self)
        ensures
            r.spec_id() == id,
    {
        BindGroup { id }
    }

    /// The bind group's identifier.
    pub fn id(&self) -> (r: BindGroupId)
        ensures
            r == self.spec_id(),
    {
        self.id
    }
}

/// The bind groups of the two mesh preprocessing passes.
#[derive(Clone, Copy, Debug, PartialEq, Eq, Structural)]
pub struct PreprocessBindGroups {
    /// The bind group of the first pass.
    pub early: BindGroup,
    /// The bind group of the second pass, where occlusion culling runs one.
    pub late: Option<BindGroup>,
}

/// The slot of a material in the bindless resource arrays.
#[derive(Clone, Copy, Debug, PartialEq, Eq, Structural)]
pub struct RenderBindlessIndex(pub u32);

/// Why a bind group could not be made yet.
#[derive(Clone, Copy, Debug, PartialEq, Eq, Structural)]
pub enum AsBindGroupError {
    /// A resource is not ready; try again next frame.
    RetryNextUpdate,
}

/// `x` rounded up to a multiple of `y`.
pub open spec fn aligned_up(x: int, y: int) -> int {
    if x % y == 0 {
        x
    } else {
        x + y - x % y
    }
}

/// Rounds `x` up to the next multiple of `y`.
pub fn align_up(x: u32, y: u32) -> (r: u32)
    requires
        y > 0,
        aligned_up(x as int, y as int) <= u32::MAX,
    ensures
        r == aligned_up(x as int, y as int),
        r % y == 0,
        x <= r < x + y,
{
    let rem = x % y;
    if rem == 0 {
        x
    } else {
        proof {
            let q = x as int / y as int;
            assert(x as int == y as int * q + rem as int) by (nonlinear_arith)
                requires
                    y > 0,
                    q == x as int / y as int,
                    rem as int == x as int % y as int,
            ;
            assert((y as int * (q + 1)) % y as int == 0) by (nonlinear_arith)
                requires
                    y > 0,
            ;
            assert(x as int + (y as int - rem as int) == y as int * (q + 1)) by (nonlinear_arith)
                requires
                    x as int == y as int * q + rem as int,
            ;
        }
        x + (y - rem)
    }
}

/// One mesh for the preprocessing shader: where its input lies and where its
/// output goes.
#[derive(Clone, Copy, Debug, PartialEq, Eq, Structural)]
pub struct PreprocessWorkItem {
    /// The index of the mesh's input uniform.
    pub input_index: u32,
    /// The index of the mesh's output uniform.
    pub output_index: u32,
}

/// The offset of a view's contact shadow settings in the uniform buffer.
#[derive(Clone, Copy, Debug, PartialEq, Eq, Structural)]
pub struct ViewContactShadowsUniformOffset(pub u32);

/// One fog volume as a view sees it.
#[derive(Clone, Copy, Debug, PartialEq, Eq, Structural)]
pub struct ViewFogVolume {
    /// The offset of the volume's settings in the uniform buffer.
    pub uniform_buffer_offset: u32,
    /// Whether the camera is outside the volume.
    pub exterior: bool,
}

/// The fog volumes that a view renders.
pub struct ViewVolumetricFog(pub Vec<ViewFogVolume>);

/// The specialization key of the volumetric fog pipeline.
#[derive(Clone, Copy, Debug, PartialEq, Eq, Structural)]
pub struct VolumetricFogPipelineKey {
    /// The vertex layout of the fog volume mesh.
    pub vertex_buffer_layout: MeshVertexBufferLayoutRef,
    /// Whether the view renders in high dynamic range.
    pub hdr: bool,
}

/// Marks a view that culls meshes hidden behind others.
#[derive(Clone, Copy, Debug, PartialEq, Eq, Structural)]
pub struct OcclusionCulling;

/// Marks a mesh that is never batched with others.
#[derive(Clone, Copy, Debug, PartialEq, Eq, Structural)]
pub struct NoAutomaticBatching;

/// Marks a light that lights volumetric fog.
#[derive(Clone, Copy, Debug, PartialEq, Eq, Structural)]
pub struct VolumetricLight;

} // verus!
