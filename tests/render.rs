use animation_core::pipelines::{
    CachedComputePipelineId, HiZPipelineIds, PipelineCache, PreprocessPipeline,
    PreprocessPipelines,
};
use animation_core::resources::{
    align_up, BindGroup, BindGroupId, GpuAllocation, GpuAllocationClass,
    MeshVertexBufferLayoutRef,
};

#[test]
fn align_up_rounds_to_multiple() {
    assert_eq!(align_up(17, 16), 32);
    assert_eq!(align_up(32, 16), 32);
    assert_eq!(align_up(0, 16), 0);
}

#[test]
fn allocation_offset_and_element_size() {
    let small = GpuAllocation { slab: 0, offset: Some(12), size: 3 };
    let large = GpuAllocation { slab: 1, offset: None, size: 3 };
    assert_eq!(small.offset(), 12);
    assert_eq!(large.offset(), 0);
    assert_eq!(GpuAllocationClass::Index.element_size(), 4);
    let layout = MeshVertexBufferLayoutRef { array_stride: 32 };
    assert_eq!(GpuAllocationClass::Vertex(layout).element_size(), 32);
}

#[test]
fn bind_group_id() {
    assert_eq!(BindGroup::new(BindGroupId(9)).id(), BindGroupId(9));
}

#[test]
fn hi_z_pipelines_need_both_ready() {
    let ids = HiZPipelineIds {
        downsample_depth_first: CachedComputePipelineId(0),
        downsample_depth_second: CachedComputePipelineId(2),
    };
    let partly = PipelineCache { compute_ready: vec![true, true, false] };
    let ready = PipelineCache { compute_ready: vec![true, false, true] };
    assert!(ids.get(&partly).is_none());
    let pipelines = ids.get(&ready).unwrap();
    assert_eq!(pipelines.downsample_depth_second, CachedComputePipelineId(2));
}

#[test]
fn preprocess_pipelines_loaded() {
    let cache = PipelineCache { compute_ready: vec![true, true] };
    let mut direct = PreprocessPipeline { pipeline_id: None };
    assert!(!direct.is_loaded(&cache));
    direct.prepare(CachedComputePipelineId(1));
    direct.prepare(CachedComputePipelineId(0));
    assert_eq!(direct.pipeline_id, Some(CachedComputePipelineId(1)));
    let pipelines = PreprocessPipelines {
        direct,
        gpu_frustum_culling: PreprocessPipeline { pipeline_id: Some(CachedComputePipelineId(0)) },
        gpu_occlusion_culling: PreprocessPipeline { pipeline_id: None },
    };
    assert!(pipelines.pipelines_are_loaded(&cache));
    let not_ready = PipelineCache { compute_ready: vec![true, false] };
    assert!(!pipelines.pipelines_are_loaded(&not_ready));
}
