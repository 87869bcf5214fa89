//! Identifiers of cached GPU pipelines and the checks that they are ready.

use vstd::prelude::*;

verus! {

/// The identifier of a compute pipeline in the pipeline cache.
#[derive(Clone, Copy, Debug, PartialEq, Eq, Structural)]
pub struct CachedComputePipelineId(pub usize);

/// The identifier of a render pipeline in the pipeline cache.
#[derive(Clone, Copy, Debug, PartialEq, Eq, Structural)]
pub struct CachedRenderPipelineId(pub usize);

/// Which of the queued compute pipelines have finished compiling.
pub struct PipelineCache {
    /// Entry `i` tells whether pipeline `i` is ready for use.
    pub compute_ready: Vec<bool>,
}

impl PipelineCache {
    /// Whether compute pipeline `id` is ready for use.
    pub open spec fn is_ready(&self, id: CachedComputePipelineId) -> bool {
        id.0 < self.compute_ready@.len() && self.compute_ready@[id.0 as int]
    }

    /// The pipeline `id`, once it is ready.
    pub fn get_compute_pipeline(&self, id: CachedComputePipelineId) -> (r: Option<
        CachedComputePipelineId,
    >)
        ensures
            r == (if self.is_ready(id) {
                Some(id)
            } else {
                None::<CachedComputePipelineId>
            }),
    {
        if id.0 < self.compute_ready.len() && self.compute_ready[id.0] {
            Some(id)
        } else {
            None
        }
    }
}

/// The two depth downsampling pipelines that build the hierarchical depth
/// buffer.
#[derive(Clone, Copy, Debug, PartialEq, Eq, Structural)]
pub struct HiZPipelineIds {
    /// The pass that reduces the depth buffer to the first mip levels.
    pub downsample_depth_first: CachedComputePipelineId,
    /// The pass that builds the remaining mip levels.
    pub downsample_depth_second: CachedComputePipelineId,
}

/// The depth downsampling pipelines, both ready for use.
#[derive(Clone, Copy, Debug, PartialEq, Eq, Structural)]
pub struct HiZPipelines {
    /// The pass that reduces the depth buffer to the first mip levels.
    pub downsample_depth_first: CachedComputePipelineId,
    /// The pass that builds the remaining mip levels.
    pub downsample_depth_second: CachedComputePipelineId,
}

impl HiZPipelineIds {
    /// Both pipelines, if both are ready; `None` otherwise.
    pub fn get(&self, pipeline_cache: &PipelineCache) -> (r: Option<HiZPipelines>)
        ensures
            r is Some <==> pipeline_cache.is_ready(self.downsample_depth_first)
                && pipeline_cache.is_ready(self.downsample_depth_second),
            r is Some ==> r->0.downsample_depth_first == self.downsample_depth_first
                && r->0.downsample_depth_second == self.downsample_depth_second,
    {
        let first = match pipeline_cache.get_compute_pipeline(self.downsample_depth_first) {
            Some(p) => p,
            None => return None,
        };
        let second = match pipeline_cache.get_compute_pipeline(self.downsample_depth_second) {
            Some(p) => p,
            None => return None,
        };
        Some(HiZPipelines { downsample_depth_first: first, downsample_depth_second: second })
    }
}

/// One of the mesh preprocessing compute pipelines.
#[derive(Clone, Copy, Debug, PartialEq, Eq, Structural)]
pub struct PreprocessPipeline {
    /// The pipeline, once it has been queued.
    pub pipeline_id: Option<CachedComputePipelineId>,
}

impl PreprocessPipeline {
    /// The pipeline has been queued and is ready for use.
    pub open spec fn loaded(&self, pipeline_cache: &PipelineCache) -> bool {
        self.pipeline_id is Some && pipeline_cache.is_ready(self.pipeline_id->0)
    }

    /// Whether the pipeline has been queued and is ready for use.
    pub fn is_loaded(&self, pipeline_cache: &PipelineCache) -> (r: bool)
        ensures
            r == self.loaded(pipeline_cache),
    {
        match self.pipeline_id {
            Some(id) => pipeline_cache.get_compute_pipeline(id).is_some(),
            None => false,
        }
    }

    /// Records the pipeline queued for this preprocessing pass, unless one
    /// was queued before.
    pub fn prepare(&mut self, queued: CachedComputePipelineId)
        ensures
            old(self).pipeline_id is Some ==> *final(self) == *old(self),
            old(self).pipeline_id is None ==> final(self).pipeline_id == Some(queued),
    {
        if self.pipeline_id.is_some() {
            return;
        }
        self.pipeline_id = Some(queued);
    }
}

/// The mesh preprocessing pipelines, one per culling mode.
#[derive(Clone, Copy, Debug, PartialEq, Eq, Structural)]
pub struct PreprocessPipelines {
    /// Culling on the CPU; writes no indirect parameters.
    pub direct: PreprocessPipeline,
    /// Frustum culling on the GPU.
    pub gpu_frustum_culling: PreprocessPipeline,
    /// Occlusion culling on the GPU.
    pub gpu_occlusion_culling: PreprocessPipeline,
}

impl PreprocessPipelines {
    /// Whether the direct and the frustum culling pipelines are ready.
    pub fn pipelines_are_loaded(&self, pipeline_cache: &PipelineCache) -> (r: bool)
        ensures
            r == (self.direct.loaded(pipeline_cache) && self.gpu_frustum_culling.loaded(
                pipeline_cache,
            )),
    {
        self.direct.is_loaded(pipeline_cache) && self.gpu_frustum_culling.is_loaded(
            pipeline_cache,
        )
    }
}

/// The render pipeline that resolves a multisampled depth buffer for a view.
#[derive(Clone, Copy, Debug, PartialEq, Eq, Structural)]
pub struct ViewResolveMultisampleDepthBufferPipeline(pub CachedRenderPipelineId);

/// The volumetric fog render pipeline of a view.
#[derive(Clone, Copy, Debug, PartialEq, Eq, Structural)]
pub struct ViewVolumetricFogPipeline(pub CachedRenderPipelineId);

/// The specialization key of the depth resolve pipeline; it has a single
/// variant.
#[derive(Clone, Copy, Debug, PartialEq, Eq, Structural)]
pub struct ResolveMultisampleDepthBufferPipelineKey;

/// Settings of mesh preprocessing.
#[derive(Clone, Copy, Debug, PartialEq, Eq, Structural)]
pub struct GpuMeshPreprocessPlugin {
    /// Whether mesh uniforms are built on the GPU.
    pub use_gpu_instance_buffer_builder: bool,
}

/// Settings of render resource management.
#[derive(Clone, Copy, Debug, PartialEq, Eq, Structural)]
pub struct RenderResourcePlugin {
    /// Whether textures may be bound as bindless arrays.
    pub enable_bindless_textures: bool,
}

} // verus!
