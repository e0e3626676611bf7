//! The descriptions of the renderer's graphics pipelines: which shader, how
//! the per-vertex and per-instance buffers are read, which tests run, how
//! colors blend, and the viewport.
use crate::format::{R16_SINT, R16_UINT, R32_SFLOAT, R8_SINT, R8_UINT, R8_UNORM};
use crate::gpu_types::{BlendState, StencilFunc};
use crate::primitives::Point2DI32;
use crate::pso::{
    attribute, generate_depth_test_for_stencil_shader, generate_object_attribute_desc,
    generate_px_attribute_desc, generate_stencil_position_attribute_desc, generate_stencil_test,
    generate_subpx_attribute_desc, generate_tess_coord_attribute_desc,
    generate_tile_index_attribute_desc, generate_solid_tile_origin_attribute_desc,
    generate_alpha_tile_origin_attribute_desc, generate_backdrop_attribute_desc, stencil_face,
    AttributeDesc, Comparison, DepthStencilDesc, DepthTest, DescriptorSetLayoutBinding,
    DescriptorType, StencilTest, VertexBufferDesc, VertexInputRate, STAGE_VERTEX,
};
use vstd::prelude::*;

verus! {

/// Bytes per fill instance.
pub const FILL_INSTANCE_SIZE: u32 = 8;
/// Bytes per solid tile instance.
pub const SOLID_TILE_INSTANCE_SIZE: u32 = 6;
/// Bytes per alpha (mask) tile instance.
pub const MASK_TILE_INSTANCE_SIZE: u32 = 8;
/// Bytes per stencil quad vertex (three floats, padded).
pub const STENCIL_VERTEX_SIZE: u32 = 16;

/// How polygons are rasterized.
#[derive(Clone, Copy, Debug, PartialEq, Eq, Structural)]
pub enum PolygonMode {
    Point,
    Line,
    Fill,
}

/// Which winding is front facing.
#[derive(Clone, Copy, Debug, PartialEq, Eq, Structural)]
pub enum FrontFace {
    Clockwise,
    CounterClockwise,
}

/// gfx-hal `Face::NONE`: no face is culled.
pub const CULL_NONE: u32 = 0;

/// The rasterizer state (no depth bias is ever set).
#[derive(Clone, Copy, Debug, PartialEq, Eq, Structural)]
pub struct Rasterizer {
    pub depth_clamping: bool,
    pub polygon_mode: PolygonMode,
    pub cull_face: u32,
    pub front_face: FrontFace,
    pub conservative: bool,
}

/// An integer rectangle in gfx-hal's 16-bit form.
#[derive(Clone, Copy, Debug, PartialEq, Eq, Structural)]
pub struct Rect {
    pub x: i16,
    pub y: i16,
    pub w: i16,
    pub h: i16,
}

/// The state baked into a pipeline: viewport rectangle (over the depth
/// range 0 to 1) and scissor rectangle; no blend color or depth bounds.
#[derive(Clone, Copy, Debug, PartialEq, Eq, Structural)]
pub struct BakedStates {
    pub viewport: Option<Rect>,
    pub scissor: Option<Rect>,
}

/// Everything a graphics pipeline is created from.
#[derive(Clone, Debug)]
pub struct PipelineDescription {
    pub size: Point2DI32,
    /// The vertex shader's name.
    pub shader_name: String,
    /// The fragment shader's name.
    pub fragment_shader_name: String,
    pub vertex_buffer_descriptions: Vec<VertexBufferDesc>,
    pub attribute_descriptions: Vec<AttributeDesc>,
    pub rasterizer: Rasterizer,
    pub depth_stencil: DepthStencilDesc,
    pub blend_state: BlendState,
    pub baked_states: BakedStates,
}

/// The rasterizer every pipeline uses: filled polygons, no culling,
/// counter-clockwise front faces, no clamping.
pub open spec fn fill_rasterizer() -> Rasterizer {
    Rasterizer {
        depth_clamping: false,
        polygon_mode: PolygonMode::Fill,
        cull_face: CULL_NONE,
        front_face: FrontFace::CounterClockwise,
        conservative: false,
    }
}

/// The rectangle at the origin covering `size`, in gfx-hal's 16-bit form.
pub open spec fn size_rect(size: Point2DI32) -> Rect {
    Rect { x: 0, y: 0, w: size.x as i16, h: size.y as i16 }
}

/// Viewport and scissor both cover `size`.
pub open spec fn full_size_baked_states(size: Point2DI32) -> BakedStates {
    BakedStates { viewport: Some(size_rect(size)), scissor: Some(size_rect(size)) }
}

/// A buffer advancing once per vertex.
pub open spec fn per_vertex_buffer(binding: u32, stride: u32) -> VertexBufferDesc {
    VertexBufferDesc { binding, stride, rate: VertexInputRate::Vertex }
}

/// The stencil test of the tile pipelines: draw only where the stencil
/// buffer holds 1, without writing it.
pub open spec fn tile_stencil() -> StencilTest {
    StencilTest::On {
        front: stencil_face(StencilFunc::Equal, 1, 1, false),
        back: stencil_face(StencilFunc::Equal, 1, 1, false),
    }
}

/// The parts every description shares: the given size, the fill rasterizer
/// and viewport and scissor covering the size.
pub open spec fn common_parts(d: PipelineDescription, size: Point2DI32) -> bool {
    &&& d.size == size
    &&& d.rasterizer == fill_rasterizer()
    &&& d.baked_states == full_size_baked_states(size)
}

fn rasterizer() -> (r: Rasterizer)
    ensures
        r == fill_rasterizer(),
{
    Rasterizer {
        depth_clamping: false,
        polygon_mode: PolygonMode::Fill,
        cull_face: CULL_NONE,
        front_face: FrontFace::CounterClockwise,
        conservative: false,
    }
}

fn baked_states(size: Point2DI32) -> (b: BakedStates)
    ensures
        b == full_size_baked_states(size),
{
    let rect = Rect { x: 0, y: 0, w: size.x as i16, h: size.y as i16 };
    BakedStates { viewport: Some(rect), scissor: Some(rect) }
}

fn quad_and_instance_buffers(instance_stride: u32) -> (v: Vec<VertexBufferDesc>)
    ensures
        v@ == seq![per_vertex_buffer(0, 0), per_vertex_buffer(1, instance_stride)],
{
    let v = vec![
        VertexBufferDesc { binding: 0, stride: 0, rate: VertexInputRate::Vertex },
        VertexBufferDesc { binding: 1, stride: instance_stride, rate: VertexInputRate::Vertex },
    ];
    assert(v@ =~= seq![per_vertex_buffer(0, 0), per_vertex_buffer(1, instance_stride)]);
    v
}

/// The fill pipeline: accumulates fills into the mask framebuffer of the
/// given size with additive blending, without depth or stencil tests.
///
/// A fill instance is 64 bits: the whole-pixel endpoints `from_px` and
/// `to_px` (a byte each), the subpixel endpoints `from_subpx` and `to_subpx`
/// (two bytes each) and a 16-bit tile index, laid end to end.
pub fn create_fill_pipeline_description(size: Point2DI32) -> (d: PipelineDescription)
    ensures
        common_parts(d, size),
        d.shader_name@ == "fill"@,
        d.fragment_shader_name@ == "fill"@,
        d.vertex_buffer_descriptions@ == seq![
            per_vertex_buffer(0, 0),
            per_vertex_buffer(1, FILL_INSTANCE_SIZE),
        ],
        d.attribute_descriptions@ == seq![
            attribute(0, 0, R8_UINT, 0),
            attribute(1, 1, R8_UINT, 0),
            attribute(1, 2, R8_UINT, 1),
            attribute(1, 3, R8_UNORM, 2),
            attribute(1, 4, R8_UNORM, 4),
            attribute(1, 5, R16_UINT, 6),
        ],
        d.depth_stencil == (DepthStencilDesc {
            depth: DepthTest::Off,
            depth_bounds: false,
            stencil: StencilTest::Off,
        }),
        d.blend_state == BlendState::RGBOneAlphaOne,
{
    let shader_name = String::from_str("fill");
    let vertex_buffer_descriptions = quad_and_instance_buffers(FILL_INSTANCE_SIZE);

    let quad_vertex_positions_buffer_cursor: u32 = 0;
    let fill_vertex_buffer_cursor: u32 = 0;
    let (_quad_cursor, tess_coord_attribute_desc) = generate_tess_coord_attribute_desc(
        0,
        0,
        quad_vertex_positions_buffer_cursor,
        2,
    );
    let (fill_vertex_buffer_cursor, from_px_attribute_desc) = generate_px_attribute_desc(
        1,
        1,
        fill_vertex_buffer_cursor,
        1,
    );
    let (fill_vertex_buffer_cursor, to_px_attribute_desc) = generate_px_attribute_desc(
        1,
        2,
        fill_vertex_buffer_cursor,
        1,
    );
    let (fill_vertex_buffer_cursor, from_subpx_attribute_desc) = generate_subpx_attribute_desc(
        1,
        3,
        fill_vertex_buffer_cursor,
        2,
    );
    let (fill_vertex_buffer_cursor, to_subpx_attribute_desc) = generate_subpx_attribute_desc(
        1,
        4,
        fill_vertex_buffer_cursor,
        2,
    );
    let (_end_cursor, tile_index_attribute_desc) = generate_tile_index_attribute_desc(
        1,
        5,
        fill_vertex_buffer_cursor,
        1,
    );
    let attribute_descriptions = vec![
        tess_coord_attribute_desc,
        from_px_attribute_desc,
        to_px_attribute_desc,
        from_subpx_attribute_desc,
        to_subpx_attribute_desc,
        tile_index_attribute_desc,
    ];

    let d = PipelineDescription {
        size,
        shader_name,
        fragment_shader_name: String::from_str("fill"),
        vertex_buffer_descriptions,
        attribute_descriptions,
        rasterizer: rasterizer(),
        depth_stencil: DepthStencilDesc {
            depth: DepthTest::Off,
            depth_bounds: false,
            stencil: StencilTest::Off,
        },
        blend_state: BlendState::RGBOneAlphaOne,
        baked_states: baked_states(size),
    };
    proof {
        reveal_strlit("fill");
    }
    assert(d.attribute_descriptions@ =~= seq![
        attribute(0, 0, R8_UINT, 0),
        attribute(1, 1, R8_UINT, 0),
        attribute(1, 2, R8_UINT, 1),
        attribute(1, 3, R8_UNORM, 2),
        attribute(1, 4, R8_UNORM, 4),
        attribute(1, 5, R16_UINT, 6),
    ]);
    d
}

fn solid_tile_attributes() -> (v: Vec<AttributeDesc>)
    ensures
        v@ == seq![
            attribute(0, 0, R8_UINT, 0),
            attribute(1, 1, R16_SINT, 0),
            attribute(1, 2, R16_SINT, 4),
        ],
{
    let quad_vertex_positions_buffer_cursor: u32 = 0;
    let solid_vertex_buffer_cursor: u32 = 0;
    let (_quad_cursor, tess_coord_attribute_desc) = generate_tess_coord_attribute_desc(
        0,
        0,
        quad_vertex_positions_buffer_cursor,
        2,
    );
    let (solid_vertex_buffer_cursor, tile_origin_attribute_desc) =
        generate_solid_tile_origin_attribute_desc(1, 1, solid_vertex_buffer_cursor, 2);
    let (_end_cursor, object_attribute_desc) = generate_object_attribute_desc(
        1,
        2,
        solid_vertex_buffer_cursor,
        1,
    );
    let v = vec![tess_coord_attribute_desc, tile_origin_attribute_desc, object_attribute_desc];
    assert(v@ =~= seq![
        attribute(0, 0, R8_UINT, 0),
        attribute(1, 1, R16_SINT, 0),
        attribute(1, 2, R16_SINT, 4),
    ]);
    v
}

/// The attributes of the alpha tile pipelines, whose object attribute has
/// `object_elements` values: the tile index starts after them. The tile
/// origin, backdrop and object attributes all use location 1.
pub open spec fn alpha_tile_attributes_spec(object_elements: u32) -> Seq<AttributeDesc> {
    seq![
        attribute(0, 0, R8_UINT, 0),
        attribute(1, 1, R8_UINT, 0),
        attribute(1, 1, R8_SINT, 3),
        attribute(1, 1, R16_SINT, 4),
        attribute(1, 2, R16_UINT, (4 + 2 * object_elements) as u32),
    ]
}

fn alpha_tile_attributes(object_elements: u32, tile_index_elements: u32) -> (v: Vec<AttributeDesc>)
    requires
        object_elements <= 2,
        tile_index_elements <= 2,
    ensures
        v@ == alpha_tile_attributes_spec(object_elements),
{
    let quad_vertex_positions_buffer_cursor: u32 = 0;
    let alpha_vertex_buffer_cursor: u32 = 0;
    let (_quad_cursor, tess_coord_attribute_desc) = generate_tess_coord_attribute_desc(
        0,
        0,
        quad_vertex_positions_buffer_cursor,
        2,
    );
    let (alpha_vertex_buffer_cursor, tile_origin_attribute_desc) =
        generate_alpha_tile_origin_attribute_desc(1, 1, alpha_vertex_buffer_cursor, 3);
    let (alpha_vertex_buffer_cursor, backdrop_attribute_desc) = generate_backdrop_attribute_desc(
        1,
        1,
        alpha_vertex_buffer_cursor,
        1,
    );
    let (alpha_vertex_buffer_cursor, object_attribute_desc) = generate_object_attribute_desc(
        1,
        1,
        alpha_vertex_buffer_cursor,
        object_elements,
    );
    let (_end_cursor, tile_index_attribute_desc) = generate_tile_index_attribute_desc(
        1,
        2,
        alpha_vertex_buffer_cursor,
        tile_index_elements,
    );
    let v = vec![
        tess_coord_attribute_desc,
        tile_origin_attribute_desc,
        backdrop_attribute_desc,
        object_attribute_desc,
        tile_index_attribute_desc,
    ];
    assert(v@ =~= alpha_tile_attributes_spec(object_elements));
    v
}

/// The solid tile pipeline for per-object colors: draws solid tiles where
/// the stencil holds 1, without blending.
pub fn create_solid_tile_multicolor_pipeline_description(size: Point2DI32) -> (d: PipelineDescription)
    ensures
        common_parts(d, size),
        d.shader_name@ == "tile_solid_multicolor"@,
        d.fragment_shader_name@ == "tile_solid"@,
        d.vertex_buffer_descriptions@ == seq![
            per_vertex_buffer(0, 0),
            per_vertex_buffer(1, SOLID_TILE_INSTANCE_SIZE),
        ],
        d.attribute_descriptions@ == seq![
            attribute(0, 0, R8_UINT, 0),
            attribute(1, 1, R16_SINT, 0),
            attribute(1, 2, R16_SINT, 4),
        ],
        d.depth_stencil == (DepthStencilDesc {
            depth: DepthTest::Off,
            depth_bounds: false,
            stencil: tile_stencil(),
        }),
        d.blend_state == BlendState::Off,
{
    proof {
        reveal_strlit("tile_solid_multicolor");
    }
    PipelineDescription {
        size,
        shader_name: String::from_str("tile_solid_multicolor"),
        fragment_shader_name: String::from_str("tile_solid"),
        vertex_buffer_descriptions: quad_and_instance_buffers(SOLID_TILE_INSTANCE_SIZE),
        attribute_descriptions: solid_tile_attributes(),
        rasterizer: rasterizer(),
        depth_stencil: DepthStencilDesc {
            depth: DepthTest::Off,
            depth_bounds: false,
            stencil: generate_stencil_test(StencilFunc::Equal, 1, 1, false),
        },
        blend_state: BlendState::Off,
        baked_states: baked_states(size),
    }
}

/// The solid tile pipeline for a single color: as the multicolor one, with
/// the monochrome shader.
pub fn create_solid_tile_monochrome_pipeline_description(size: Point2DI32) -> (d: PipelineDescription)
    ensures
        common_parts(d, size),
        d.shader_name@ == "tile_solid_monochrome"@,
        d.fragment_shader_name@ == "tile_solid"@,
        d.vertex_buffer_descriptions@ == seq![
            per_vertex_buffer(0, 0),
            per_vertex_buffer(1, SOLID_TILE_INSTANCE_SIZE),
        ],
        d.attribute_descriptions@ == seq![
            attribute(0, 0, R8_UINT, 0),
            attribute(1, 1, R16_SINT, 0),
            attribute(1, 2, R16_SINT, 4),
        ],
        d.depth_stencil == (DepthStencilDesc {
            depth: DepthTest::Off,
            depth_bounds: false,
            stencil: tile_stencil(),
        }),
        d.blend_state == BlendState::Off,
{
    proof {
        reveal_strlit("tile_solid_monochrome");
    }
    PipelineDescription {
        size,
        shader_name: String::from_str("tile_solid_monochrome"),
        fragment_shader_name: String::from_str("tile_solid"),
        vertex_buffer_descriptions: quad_and_instance_buffers(SOLID_TILE_INSTANCE_SIZE),
        attribute_descriptions: solid_tile_attributes(),
        rasterizer: rasterizer(),
        depth_stencil: DepthStencilDesc {
            depth: DepthTest::Off,
            depth_bounds: false,
            stencil: generate_stencil_test(StencilFunc::Equal, 1, 1, false),
        },
        blend_state: BlendState::Off,
        baked_states: baked_states(size),
    }
}

/// The alpha tile pipeline for per-object colors: draws mask tiles where
/// the stencil holds 1, blending with one-minus-source-alpha.
pub fn create_alpha_tile_multicolor_pipeline_description(size: Point2DI32) -> (d: PipelineDescription)
    ensures
        common_parts(d, size),
        d.shader_name@ == "tile_alpha_multicolor"@,
        d.fragment_shader_name@ == "tile_alpha"@,
        d.vertex_buffer_descriptions@ == seq![
            per_vertex_buffer(0, 0),
            per_vertex_buffer(1, MASK_TILE_INSTANCE_SIZE),
        ],
        d.attribute_descriptions@ == alpha_tile_attributes_spec(2),
        d.depth_stencil == (DepthStencilDesc {
            depth: DepthTest::Off,
            depth_bounds: false,
            stencil: tile_stencil(),
        }),
        d.blend_state == BlendState::RGBOneAlphaOneMinusSrcAlpha,
{
    proof {
        reveal_strlit("tile_alpha_multicolor");
    }
    PipelineDescription {
        size,
        shader_name: String::from_str("tile_alpha_multicolor"),
        fragment_shader_name: String::from_str("tile_alpha"),
        vertex_buffer_descriptions: quad_and_instance_buffers(MASK_TILE_INSTANCE_SIZE),
        attribute_descriptions: alpha_tile_attributes(2, 2),
        rasterizer: rasterizer(),
        depth_stencil: DepthStencilDesc {
            depth: DepthTest::Off,
            depth_bounds: false,
            stencil: generate_stencil_test(StencilFunc::Equal, 1, 1, false),
        },
        blend_state: BlendState::RGBOneAlphaOneMinusSrcAlpha,
        baked_states: baked_states(size),
    }
}

/// The alpha tile pipeline for a single color: as the multicolor one, with
/// the monochrome shader and one object and one tile index value.
pub fn create_alpha_tile_monochrome_pipeline_description(size: Point2DI32) -> (d: PipelineDescription)
    ensures
        common_parts(d, size),
        d.shader_name@ == "tile_alpha_monochrome"@,
        d.fragment_shader_name@ == "tile_alpha"@,
        d.vertex_buffer_descriptions@ == seq![
            per_vertex_buffer(0, 0),
            per_vertex_buffer(1, MASK_TILE_INSTANCE_SIZE),
        ],
        d.attribute_descriptions@ == alpha_tile_attributes_spec(1),
        d.depth_stencil == (DepthStencilDesc {
            depth: DepthTest::Off,
            depth_bounds: false,
            stencil: tile_stencil(),
        }),
        d.blend_state == BlendState::RGBOneAlphaOneMinusSrcAlpha,
{
    proof {
        reveal_strlit("tile_alpha_monochrome");
    }
    PipelineDescription {
        size,
        shader_name: String::from_str("tile_alpha_monochrome"),
        fragment_shader_name: String::from_str("tile_alpha"),
        vertex_buffer_descriptions: quad_and_instance_buffers(MASK_TILE_INSTANCE_SIZE),
        attribute_descriptions: alpha_tile_attributes(1, 1),
        rasterizer: rasterizer(),
        depth_stencil: DepthStencilDesc {
            depth: DepthTest::Off,
            depth_bounds: false,
            stencil: generate_stencil_test(StencilFunc::Equal, 1, 1, false),
        },
        blend_state: BlendState::RGBOneAlphaOneMinusSrcAlpha,
        baked_states: baked_states(size),
    }
}

/// The postprocessing pipeline: one full-screen quad, no tests, no blending.
pub fn create_postprocess_pipeline_description(size: Point2DI32) -> (d: PipelineDescription)
    ensures
        common_parts(d, size),
        d.shader_name@ == "post"@,
        d.fragment_shader_name@ == "post"@,
        d.vertex_buffer_descriptions@ == seq![per_vertex_buffer(0, 0)],
        d.attribute_descriptions@ == seq![attribute(0, 0, R8_UINT, 0)],
        d.depth_stencil == (DepthStencilDesc {
            depth: DepthTest::Off,
            depth_bounds: false,
            stencil: StencilTest::Off,
        }),
        d.blend_state == BlendState::Off,
{
    proof {
        reveal_strlit("post");
    }
    let quad_vertex_positions_buffer_cursor: u32 = 0;
    let (_end_cursor, tess_coord_attribute_desc) = generate_tess_coord_attribute_desc(
        0,
        0,
        quad_vertex_positions_buffer_cursor,
        2,
    );
    let vertex_buffer_descriptions = vec![
        VertexBufferDesc { binding: 0, stride: 0, rate: VertexInputRate::Vertex },
    ];
    let attribute_descriptions = vec![tess_coord_attribute_desc];
    assert(vertex_buffer_descriptions@ =~= seq![per_vertex_buffer(0, 0)]);
    assert(attribute_descriptions@ =~= seq![attribute(0, 0, R8_UINT, 0)]);
    PipelineDescription {
        size,
        shader_name: String::from_str("post"),
        fragment_shader_name: String::from_str("post"),
        vertex_buffer_descriptions,
        attribute_descriptions,
        rasterizer: rasterizer(),
        depth_stencil: DepthStencilDesc {
            depth: DepthTest::Off,
            depth_bounds: false,
            stencil: StencilTest::Off,
        },
        blend_state: BlendState::Off,
        baked_states: baked_states(size),
    }
}

/// The stencil pipeline: draws the scene's bounding quad, keeping nearer
/// fragments and writing depth, and sets the stencil to 1 wherever it draws.
pub fn create_stencil_pipeline_description(size: Point2DI32) -> (d: PipelineDescription)
    ensures
        common_parts(d, size),
        d.shader_name@ == "stencil"@,
        d.fragment_shader_name@ == "stencil"@,
        d.vertex_buffer_descriptions@ == seq![per_vertex_buffer(0, STENCIL_VERTEX_SIZE)],
        d.attribute_descriptions@ == seq![attribute(0, 0, R32_SFLOAT, 0)],
        d.depth_stencil == (DepthStencilDesc {
            depth: DepthTest::On { fun: Comparison::Less, write: true },
            depth_bounds: false,
            stencil: StencilTest::On {
                front: stencil_face(StencilFunc::Always, 1, 1, true),
                back: stencil_face(StencilFunc::Always, 1, 1, true),
            },
        }),
        d.blend_state == BlendState::Off,
{
    proof {
        reveal_strlit("stencil");
    }
    let stencil_vertex_buffer_cursor: u32 = 0;
    let (_end_cursor, position_attribute_desc) = generate_stencil_position_attribute_desc(
        0,
        0,
        stencil_vertex_buffer_cursor,
        3,
    );
    let vertex_buffer_descriptions = vec![
        VertexBufferDesc {
            binding: 0,
            stride: STENCIL_VERTEX_SIZE,
            rate: VertexInputRate::Vertex,
        },
    ];
    let attribute_descriptions = vec![position_attribute_desc];
    assert(vertex_buffer_descriptions@ =~= seq![per_vertex_buffer(0, STENCIL_VERTEX_SIZE)]);
    assert(attribute_descriptions@ =~= seq![attribute(0, 0, R32_SFLOAT, 0)]);
    PipelineDescription {
        size,
        shader_name: String::from_str("stencil"),
        fragment_shader_name: String::from_str("stencil"),
        vertex_buffer_descriptions,
        attribute_descriptions,
        rasterizer: rasterizer(),
        depth_stencil: DepthStencilDesc {
            depth: generate_depth_test_for_stencil_shader(),
            depth_bounds: false,
            stencil: generate_stencil_test(StencilFunc::Always, 1, 1, true),
        },
        blend_state: BlendState::Off,
        baked_states: baked_states(size),
    }
}

/// The fill pipeline together with the descriptor bindings of its layout:
/// one pair of uniform blocks for the vertex stage.
pub fn create_device_fill_pipeline_description(size: Point2DI32) -> (r: (PipelineDescription, Vec<DescriptorSetLayoutBinding>))
    ensures
        common_parts(r.0, size),
        r.0.shader_name@ == "fill"@,
        r.0.fragment_shader_name@ == "fill"@,
        r.0.vertex_buffer_descriptions@ == seq![
            per_vertex_buffer(0, 0),
            per_vertex_buffer(1, FILL_INSTANCE_SIZE),
        ],
        r.0.attribute_descriptions@ == seq![
            attribute(0, 0, R8_UINT, 0),
            attribute(1, 1, R8_UINT, 0),
            attribute(1, 2, R8_UINT, 1),
            attribute(1, 3, R8_UNORM, 2),
            attribute(1, 4, R8_UNORM, 4),
            attribute(1, 5, R16_UINT, 6),
        ],
        r.0.depth_stencil == (DepthStencilDesc {
            depth: DepthTest::Off,
            depth_bounds: false,
            stencil: StencilTest::Off,
        }),
        r.0.blend_state == BlendState::RGBOneAlphaOne,
        r.1@ == seq![
            DescriptorSetLayoutBinding {
                binding: 0,
                ty: DescriptorType::UniformBuffer,
                count: 2,
                stage_flags: STAGE_VERTEX,
                immutable_samplers: false,
            },
        ],
{
    let bindings = vec![
        DescriptorSetLayoutBinding {
            binding: 0,
            ty: DescriptorType::UniformBuffer,
            count: 2,
            stage_flags: STAGE_VERTEX,
            immutable_samplers: false,
        },
    ];
    assert(bindings@ =~= seq![
        DescriptorSetLayoutBinding {
            binding: 0,
            ty: DescriptorType::UniformBuffer,
            count: 2,
            stage_flags: STAGE_VERTEX,
            immutable_samplers: false,
        },
    ]);
    (create_fill_pipeline_description(size), bindings)
}

} // verus!
