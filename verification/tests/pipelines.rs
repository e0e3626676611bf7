use pathfinder_hal::format::{R16_SINT, R16_UINT, R32_SFLOAT, R8_SINT, R8_UINT, R8_UNORM};
use pathfinder_hal::gpu_types::BlendState;
use pathfinder_hal::pipeline_descriptions::{
    create_alpha_tile_monochrome_pipeline_description, create_alpha_tile_multicolor_pipeline_description,
    create_device_fill_pipeline_description,
    create_fill_pipeline_description, create_postprocess_pipeline_description,
    create_solid_tile_monochrome_pipeline_description, create_solid_tile_multicolor_pipeline_description,
    create_stencil_pipeline_description, BakedStates, PipelineDescription, Rect, FILL_INSTANCE_SIZE,
    MASK_TILE_INSTANCE_SIZE, SOLID_TILE_INSTANCE_SIZE, STENCIL_VERTEX_SIZE,
};
use pathfinder_hal::pipeline_dsl_bindings::{
    draw_pipeline_descriptor_set_layout_bindings, fill_pipeline_descriptor_set_layout_bindings,
};
use pathfinder_hal::primitives::Point2DI32;
use pathfinder_hal::pso::{
    AttributeDesc, Comparison, DepthTest, DescriptorSetLayoutBinding, DescriptorType, Element,
    StencilTest, VertexBufferDesc, VertexInputRate, STAGE_FRAGMENT, STAGE_VERTEX,
};

fn attr(binding: u32, location: u32, format: u32, offset: u32) -> AttributeDesc {
    AttributeDesc { location, binding, element: Element { format, offset } }
}

fn buffers(stride: u32) -> Vec<VertexBufferDesc> {
    vec![
        VertexBufferDesc { binding: 0, stride: 0, rate: VertexInputRate::Vertex },
        VertexBufferDesc { binding: 1, stride, rate: VertexInputRate::Vertex },
    ]
}

fn check_common(d: &PipelineDescription, size: Point2DI32) {
    let rect = Rect { x: 0, y: 0, w: size.x as i16, h: size.y as i16 };
    assert_eq!(d.size, size);
    assert_eq!(d.baked_states, BakedStates { viewport: Some(rect), scissor: Some(rect) });
}

#[test]
fn fill_pipeline_description() {
    let size = Point2DI32::new(4096, 1024);
    let d = create_fill_pipeline_description(size);
    check_common(&d, size);
    assert_eq!(d.shader_name, "fill");
    assert_eq!(d.vertex_buffer_descriptions, buffers(FILL_INSTANCE_SIZE));
    assert_eq!(
        d.attribute_descriptions,
        vec![
            attr(0, 0, R8_UINT, 0),
            attr(1, 1, R8_UINT, 0),
            attr(1, 2, R8_UINT, 1),
            attr(1, 3, R8_UNORM, 2),
            attr(1, 4, R8_UNORM, 4),
            attr(1, 5, R16_UINT, 6),
        ]
    );
    assert_eq!(d.fragment_shader_name, "fill");
    assert_eq!(d.depth_stencil.depth, DepthTest::Off);
    assert_eq!(d.depth_stencil.stencil, StencilTest::Off);
    assert_eq!(d.blend_state, BlendState::RGBOneAlphaOne);
}

#[test]
fn solid_tile_pipeline_descriptions() {
    let size = Point2DI32::new(800, 600);
    for d in [
        create_solid_tile_multicolor_pipeline_description(size),
        create_solid_tile_monochrome_pipeline_description(size),
    ] {
        check_common(&d, size);
        assert_eq!(d.vertex_buffer_descriptions, buffers(SOLID_TILE_INSTANCE_SIZE));
        assert_eq!(d.attribute_descriptions, vec![attr(0, 0, R8_UINT, 0), attr(1, 1, R16_SINT, 0), attr(1, 2, R16_SINT, 4)]);
        assert_eq!(d.blend_state, BlendState::Off);
        match d.depth_stencil.stencil {
            StencilTest::On { front, back } => {
                assert_eq!(front, back);
                assert_eq!(front.fun, Comparison::Equal);
                assert_eq!((front.reference, front.mask_read, front.mask_write), (1, 1, 0));
            }
            StencilTest::Off => panic!("tiles are stencilled"),
        }
    }
    assert_eq!(create_solid_tile_multicolor_pipeline_description(size).shader_name, "tile_solid_multicolor");
    assert_eq!(create_solid_tile_monochrome_pipeline_description(size).shader_name, "tile_solid_monochrome");
    assert_eq!(create_solid_tile_multicolor_pipeline_description(size).fragment_shader_name, "tile_solid");
    assert_eq!(create_solid_tile_monochrome_pipeline_description(size).fragment_shader_name, "tile_solid");
}

#[test]
fn alpha_tile_pipeline_descriptions() {
    let size = Point2DI32::new(640, 480);
    let multi = create_alpha_tile_multicolor_pipeline_description(size);
    check_common(&multi, size);
    assert_eq!(multi.shader_name, "tile_alpha_multicolor");
    assert_eq!(multi.vertex_buffer_descriptions, buffers(MASK_TILE_INSTANCE_SIZE));
    assert_eq!(
        multi.attribute_descriptions,
        vec![attr(0, 0, R8_UINT, 0), attr(1, 1, R8_UINT, 0), attr(1, 1, R8_SINT, 3), attr(1, 1, R16_SINT, 4), attr(1, 2, R16_UINT, 8)]
    );
    assert_eq!(multi.blend_state, BlendState::RGBOneAlphaOneMinusSrcAlpha);
    let mono = create_alpha_tile_monochrome_pipeline_description(size);
    assert_eq!(mono.shader_name, "tile_alpha_monochrome");
    assert_eq!(multi.fragment_shader_name, "tile_alpha");
    assert_eq!(mono.fragment_shader_name, "tile_alpha");
    assert_eq!(mono.attribute_descriptions[4], attr(1, 2, R16_UINT, 6));
}

#[test]
fn postprocess_and_stencil_pipeline_descriptions() {
    let size = Point2DI32::new(100, 50);
    let post = create_postprocess_pipeline_description(size);
    check_common(&post, size);
    assert_eq!(post.shader_name, "post");
    assert_eq!(post.fragment_shader_name, "post");
    assert_eq!(post.vertex_buffer_descriptions, vec![VertexBufferDesc { binding: 0, stride: 0, rate: VertexInputRate::Vertex }]);
    assert_eq!(post.attribute_descriptions, vec![attr(0, 0, R8_UINT, 0)]);
    assert_eq!(post.blend_state, BlendState::Off);

    let stencil = create_stencil_pipeline_description(size);
    assert_eq!(stencil.shader_name, "stencil");
    assert_eq!(stencil.fragment_shader_name, "stencil");
    assert_eq!(stencil.vertex_buffer_descriptions, vec![VertexBufferDesc { binding: 0, stride: STENCIL_VERTEX_SIZE, rate: VertexInputRate::Vertex }]);
    assert_eq!(stencil.attribute_descriptions, vec![attr(0, 0, R32_SFLOAT, 0)]);
    assert_eq!(stencil.depth_stencil.depth, DepthTest::On { fun: Comparison::Less, write: true });
}

fn binding(binding: u32, ty: DescriptorType, stage_flags: u32) -> DescriptorSetLayoutBinding {
    DescriptorSetLayoutBinding { binding, ty, count: 1, stage_flags, immutable_samplers: false }
}

#[test]
fn fill_descriptor_bindings() {
    assert_eq!(
        fill_pipeline_descriptor_set_layout_bindings(),
        vec![
            binding(0, DescriptorType::UniformBuffer, STAGE_VERTEX),
            binding(1, DescriptorType::CombinedImageSampler, STAGE_FRAGMENT),
        ]
    );
}

#[test]
fn draw_descriptor_bindings() {
    let b = draw_pipeline_descriptor_set_layout_bindings();
    assert_eq!(b.len(), 8);
    for (i, x) in b.iter().enumerate() {
        assert_eq!(x.binding, i as u32);
        assert_eq!(x.count, 1);
    }
    assert_eq!(b[3], binding(3, DescriptorType::UniformBuffer, STAGE_VERTEX));
    assert_eq!(b[4], binding(4, DescriptorType::CombinedImageSampler, STAGE_VERTEX));
    assert_eq!(b[7], binding(7, DescriptorType::CombinedImageSampler, STAGE_FRAGMENT));
}

#[test]
fn device_layer_fill_pipeline_description() {
    let size = Point2DI32::new(256, 256);
    let (d, bindings) = create_device_fill_pipeline_description(size);
    check_common(&d, size);
    assert_eq!(d.shader_name, "fill");
    assert_eq!(d.vertex_buffer_descriptions, buffers(FILL_INSTANCE_SIZE));
    assert_eq!(d.vertex_buffer_descriptions[1].stride, 8);
    assert_eq!(d.attribute_descriptions[5], attr(1, 5, R16_UINT, 6));
    assert_eq!(d.attribute_descriptions[4], attr(1, 4, R8_UNORM, 4));
    assert_eq!(d.blend_state, BlendState::RGBOneAlphaOne);
    assert_eq!(
        bindings,
        vec![DescriptorSetLayoutBinding { binding: 0, ty: DescriptorType::UniformBuffer, count: 2, stage_flags: STAGE_VERTEX, immutable_samplers: false }]
    );
}

#[test]
fn fill_attributes_cover_the_instance_once() {
    let d = create_fill_pipeline_description(Point2DI32::new(16, 16));
    let sizes = [1u32, 1, 2, 2, 2];
    let mut end = 0;
    for (a, size) in d.attribute_descriptions[1..].iter().zip(sizes.iter()) {
        assert_eq!(a.binding, 1);
        assert_eq!(a.element.offset, end);
        end += size;
    }
    assert_eq!(end, FILL_INSTANCE_SIZE);
}

#[test]
fn fill_instance_is_sixty_four_bits() {
    // Whole-pixel endpoints (16 bits), subpixel endpoints (32 bits), tile index (16 bits).
    let bits = 8 * (std::mem::size_of::<u16>() + std::mem::size_of::<u32>() + std::mem::size_of::<u16>());
    assert_eq!(bits, 64);
    assert_eq!(FILL_INSTANCE_SIZE as usize * 8, bits);
}
