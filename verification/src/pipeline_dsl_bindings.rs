//! The descriptor set layouts of the fill and draw pipelines.
use crate::pso::{DescriptorSetLayoutBinding, DescriptorType, STAGE_FRAGMENT, STAGE_VERTEX};
use vstd::prelude::*;

verus! {

/// A single descriptor at `binding` of type `ty`, visible to `stage_flags`,
/// without immutable samplers.
pub open spec fn single_binding(binding: u32, ty: DescriptorType, stage_flags: u32) -> DescriptorSetLayoutBinding {
    DescriptorSetLayoutBinding { binding, ty, count: 1, stage_flags, immutable_samplers: false }
}

fn layout_binding(binding: u32, ty: DescriptorType, stage_flags: u32) -> (b: DescriptorSetLayoutBinding)
    ensures
        b == single_binding(binding, ty, stage_flags),
{
    DescriptorSetLayoutBinding { binding, ty, count: 1, stage_flags, immutable_samplers: false }
}

/// The fill pipeline's bindings: its uniform block for the vertex stage
/// and the area lookup texture for the fragment stage.
pub fn fill_pipeline_descriptor_set_layout_bindings() -> (v: Vec<DescriptorSetLayoutBinding>)
    ensures
        v@ == seq![
            single_binding(0, DescriptorType::UniformBuffer, STAGE_VERTEX),
            single_binding(1, DescriptorType::CombinedImageSampler, STAGE_FRAGMENT),
        ],
{
    let v = vec![
        // UniformStructA
        layout_binding(0, DescriptorType::UniformBuffer, STAGE_VERTEX),
        // uAreaLUT
        layout_binding(1, DescriptorType::CombinedImageSampler, STAGE_FRAGMENT),
    ];
    assert(v@ =~= seq![
        single_binding(0, DescriptorType::UniformBuffer, STAGE_VERTEX),
        single_binding(1, DescriptorType::CombinedImageSampler, STAGE_FRAGMENT),
    ]);
    v
}

/// The draw pipelines' bindings: four uniform blocks and the paint texture
/// for the vertex stage, then the stencil, source and gamma lookup textures
/// for the fragment stage, at bindings 0 to 7.
pub fn draw_pipeline_descriptor_set_layout_bindings() -> (v: Vec<DescriptorSetLayoutBinding>)
    ensures
        v@ == seq![
            single_binding(0, DescriptorType::UniformBuffer, STAGE_VERTEX),
            single_binding(1, DescriptorType::UniformBuffer, STAGE_VERTEX),
            single_binding(2, DescriptorType::UniformBuffer, STAGE_VERTEX),
            single_binding(3, DescriptorType::UniformBuffer, STAGE_VERTEX),
            single_binding(4, DescriptorType::CombinedImageSampler, STAGE_VERTEX),
            single_binding(5, DescriptorType::CombinedImageSampler, STAGE_FRAGMENT),
            single_binding(6, DescriptorType::CombinedImageSampler, STAGE_FRAGMENT),
            single_binding(7, DescriptorType::CombinedImageSampler, STAGE_FRAGMENT),
        ],
{
    let v = vec![
        // UniformStructA
        layout_binding(0, DescriptorType::UniformBuffer, STAGE_VERTEX),
        // UniformStructB
        layout_binding(1, DescriptorType::UniformBuffer, STAGE_VERTEX),
        // UniformStructC
        layout_binding(2, DescriptorType::UniformBuffer, STAGE_VERTEX),
        // UniformStructD (postprocessing)
        layout_binding(3, DescriptorType::UniformBuffer, STAGE_VERTEX),
        // uPaintTexture
        layout_binding(4, DescriptorType::CombinedImageSampler, STAGE_VERTEX),
        // uStencilTexture
        layout_binding(5, DescriptorType::CombinedImageSampler, STAGE_FRAGMENT),
        // uSource
        layout_binding(6, DescriptorType::CombinedImageSampler, STAGE_FRAGMENT),
        // uGammaLUT
        layout_binding(7, DescriptorType::CombinedImageSampler, STAGE_FRAGMENT),
    ];
    assert(v@ =~= seq![
        single_binding(0, DescriptorType::UniformBuffer, STAGE_VERTEX),
        single_binding(1, DescriptorType::UniformBuffer, STAGE_VERTEX),
        single_binding(2, DescriptorType::UniformBuffer, STAGE_VERTEX),
        single_binding(3, DescriptorType::UniformBuffer, STAGE_VERTEX),
        single_binding(4, DescriptorType::CombinedImageSampler, STAGE_VERTEX),
        single_binding(5, DescriptorType::CombinedImageSampler, STAGE_FRAGMENT),
        single_binding(6, DescriptorType::CombinedImageSampler, STAGE_FRAGMENT),
        single_binding(7, DescriptorType::CombinedImageSampler, STAGE_FRAGMENT),
    ]);
    v
}

} // verus!
