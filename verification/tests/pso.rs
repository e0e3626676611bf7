use pathfinder_hal::format::{R16_SINT, R16_UINT, R32_SFLOAT, R8_SINT, R8_UINT, R8_UNORM};
use pathfinder_hal::gpu_types::{BlendState, StencilFunc};
use pathfinder_hal::pso::{
    generate_alpha_tile_origin_attribute_desc, generate_backdrop_attribute_desc,
    generate_blend_desc, generate_depth_test_for_stencil_shader,
    generate_descriptor_range_descs_from_layout_bindings, generate_object_attribute_desc,
    generate_px_attribute_desc, generate_solid_tile_origin_attribute_desc,
    generate_stencil_position_attribute_desc, generate_stencil_test, generate_subpx_attribute_desc,
    generate_tess_coord_attribute_desc, generate_tile_index_attribute_desc, AttributeDesc,
    BlendOp, ColorBlendDesc, Comparison, DepthTest, DescriptorRangeDesc, DescriptorSetLayoutBinding,
    DescriptorType, Element, Factor, LogicOp, StencilFace, StencilOp, StencilTest, TargetBlend,
    COLOR_MASK_ALL, STAGE_FRAGMENT,
};

fn attr(binding: u32, location: u32, format: u32, offset: u32) -> AttributeDesc {
    AttributeDesc { location, binding, element: Element { format, offset } }
}

#[test]
fn byte_attributes_advance_by_their_count() {
    assert_eq!(generate_tess_coord_attribute_desc(0, 0, 0, 2), (2, attr(0, 0, R8_UINT, 0)));
    assert_eq!(generate_px_attribute_desc(1, 1, 3, 1), (4, attr(1, 1, R8_UINT, 3)));
    assert_eq!(generate_subpx_attribute_desc(1, 3, 2, 2), (4, attr(1, 3, R8_UNORM, 2)));
    assert_eq!(generate_alpha_tile_origin_attribute_desc(1, 1, 0, 3), (3, attr(1, 1, R8_UINT, 0)));
    assert_eq!(generate_backdrop_attribute_desc(1, 1, 3, 1), (4, attr(1, 1, R8_SINT, 3)));
}

#[test]
fn short_attributes_advance_by_twice_their_count() {
    assert_eq!(generate_tile_index_attribute_desc(1, 5, 6, 1), (8, attr(1, 5, R16_UINT, 6)));
    assert_eq!(generate_solid_tile_origin_attribute_desc(1, 1, 0, 2), (4, attr(1, 1, R16_SINT, 0)));
    assert_eq!(generate_object_attribute_desc(1, 1, 4, 2), (8, attr(1, 1, R16_SINT, 4)));
}

#[test]
fn stencil_position_is_float() {
    assert_eq!(generate_stencil_position_attribute_desc(0, 0, 0, 3), (3, attr(0, 0, R32_SFLOAT, 0)));
}

#[test]
fn writing_stencil_test_replaces_on_pass() {
    let face = StencilFace {
        fun: Comparison::Always,
        mask_read: 1,
        mask_write: 1,
        op_fail: StencilOp::Keep,
        op_depth_fail: StencilOp::Keep,
        op_pass: StencilOp::Replace,
        reference: 1,
    };
    assert_eq!(generate_stencil_test(StencilFunc::Always, 1, 1, true), StencilTest::On { front: face, back: face });
}

#[test]
fn reading_stencil_test_keeps_everything() {
    let face = StencilFace {
        fun: Comparison::NotEqual,
        mask_read: 0xff,
        mask_write: 0,
        op_fail: StencilOp::Keep,
        op_depth_fail: StencilOp::Keep,
        op_pass: StencilOp::Keep,
        reference: 2,
    };
    assert_eq!(generate_stencil_test(StencilFunc::NotEqual, 2, 0xff, false), StencilTest::On { front: face, back: face });
}

#[test]
fn blend_off_has_one_unblended_target() {
    let desc = generate_blend_desc(BlendState::Off);
    assert_eq!(desc.logic_op, None);
    assert_eq!(desc.targets, vec![ColorBlendDesc { mask: COLOR_MASK_ALL, blend: TargetBlend::Off }]);
}

#[test]
fn additive_blend() {
    let desc = generate_blend_desc(BlendState::RGBOneAlphaOne);
    let one = BlendOp::Add { src: Factor::One, dst: Factor::One };
    assert_eq!(desc.logic_op, Some(LogicOp::Copy));
    assert_eq!(desc.targets, vec![ColorBlendDesc { mask: COLOR_MASK_ALL, blend: TargetBlend::On { color: one, alpha: one } }]);
}

#[test]
fn alpha_blends() {
    let one = BlendOp::Add { src: Factor::One, dst: Factor::One };
    let premultiplied = generate_blend_desc(BlendState::RGBOneAlphaOneMinusSrcAlpha);
    assert_eq!(
        premultiplied.targets[0].blend,
        TargetBlend::On { color: BlendOp::Add { src: Factor::One, dst: Factor::OneMinusSrcAlpha }, alpha: one }
    );
    let straight = generate_blend_desc(BlendState::RGBSrcAlphaAlphaOneMinusSrcAlpha);
    assert_eq!(
        straight.targets[0].blend,
        TargetBlend::On { color: BlendOp::Add { src: Factor::SrcAlpha, dst: Factor::OneMinusSrcAlpha }, alpha: one }
    );
}

#[test]
fn stencil_shader_depth_test() {
    assert_eq!(generate_depth_test_for_stencil_shader(), DepthTest::On { fun: Comparison::Less, write: true });
}

#[test]
fn one_range_per_binding() {
    let bindings = [
        DescriptorSetLayoutBinding { binding: 0, ty: DescriptorType::UniformBuffer, count: 1, stage_flags: 1, immutable_samplers: false },
        DescriptorSetLayoutBinding { binding: 1, ty: DescriptorType::CombinedImageSampler, count: 3, stage_flags: STAGE_FRAGMENT, immutable_samplers: false },
    ];
    assert_eq!(
        generate_descriptor_range_descs_from_layout_bindings(&bindings),
        vec![
            DescriptorRangeDesc { ty: DescriptorType::UniformBuffer, count: 1 },
            DescriptorRangeDesc { ty: DescriptorType::CombinedImageSampler, count: 3 },
        ]
    );
    assert!(generate_descriptor_range_descs_from_layout_bindings(&[]).is_empty());
}
