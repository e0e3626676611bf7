//! The pipeline-state description a graphics pipeline is built from: vertex
//! input, depth and stencil tests, blending and descriptor bindings.
//!
//! These are plain-value counterparts of gfx-hal's `pso` types; formats are
//! gfx-hal format numbers and static states are held as their values.
use crate::format::{R16_SINT, R16_UINT, R32_SFLOAT, R8_SINT, R8_UINT, R8_UNORM};
use crate::gpu_types::{BlendState, StencilFunc};
use vstd::prelude::*;

verus! {

/// How often a vertex buffer advances.
#[derive(Clone, Copy, Debug, PartialEq, Eq, Structural)]
pub enum VertexInputRate {
    Vertex,
    Instance(u8),
}

/// A vertex buffer binding: its index, the byte distance between
/// consecutive elements, and its advance rate.
#[derive(Clone, Copy, Debug, PartialEq, Eq, Structural)]
pub struct VertexBufferDesc {
    pub binding: u32,
    pub stride: u32,
    pub rate: VertexInputRate,
}

/// The format and byte offset of an attribute inside its buffer element.
#[derive(Clone, Copy, Debug, PartialEq, Eq, Structural)]
pub struct Element {
    pub format: u32,
    pub offset: u32,
}

/// A vertex attribute: shader location, source buffer binding and element.
#[derive(Clone, Copy, Debug, PartialEq, Eq, Structural)]
pub struct AttributeDesc {
    pub location: u32,
    pub binding: u32,
    pub element: Element,
}

/// A comparison function of a depth or stencil test.
#[derive(Clone, Copy, Debug, PartialEq, Eq, Structural)]
pub enum Comparison {
    Never,
    Less,
    Equal,
    LessEqual,
    Greater,
    NotEqual,
    GreaterEqual,
    Always,
}

/// What a stencil test does to the stored value.
#[derive(Clone, Copy, Debug, PartialEq, Eq, Structural)]
pub enum StencilOp {
    Keep,
    Zero,
    Replace,
    IncrementClamp,
    DecrementClamp,
    Invert,
    IncrementWrap,
    DecrementWrap,
}

/// The stencil test of one face; masks and reference are static values.
#[derive(Clone, Copy, Debug, PartialEq, Eq, Structural)]
pub struct StencilFace {
    pub fun: Comparison,
    pub mask_read: u32,
    pub mask_write: u32,
    pub op_fail: StencilOp,
    pub op_depth_fail: StencilOp,
    pub op_pass: StencilOp,
    pub reference: u32,
}

/// A stencil test, on for both faces or off.
#[derive(Clone, Copy, Debug, PartialEq, Eq, Structural)]
pub enum StencilTest {
    On { front: StencilFace, back: StencilFace },
    Off,
}

/// A depth test, on with a comparison and a write flag, or off.
#[derive(Clone, Copy, Debug, PartialEq, Eq, Structural)]
pub enum DepthTest {
    On { fun: Comparison, write: bool },
    Off,
}

/// The depth and stencil state of a pipeline.
#[derive(Clone, Copy, Debug, PartialEq, Eq, Structural)]
pub struct DepthStencilDesc {
    pub depth: DepthTest,
    pub depth_bounds: bool,
    pub stencil: StencilTest,
}

/// A blend factor.
#[derive(Clone, Copy, Debug, PartialEq, Eq, Structural)]
pub enum Factor {
    Zero,
    One,
    SrcAlpha,
    OneMinusSrcAlpha,
}

/// A blend equation: the source and destination factors of an addition.
#[derive(Clone, Copy, Debug, PartialEq, Eq, Structural)]
pub enum BlendOp {
    Add { src: Factor, dst: Factor },
}

/// Blending of one color target: on with color and alpha equations, or off.
#[derive(Clone, Copy, Debug, PartialEq, Eq, Structural)]
pub enum TargetBlend {
    On { color: BlendOp, alpha: BlendOp },
    Off,
}

/// The channels a color target writes; gfx-hal's `ColorMask` bits.
pub const COLOR_MASK_ALL: u8 = 0xF;

/// A color target: its write mask and blending.
#[derive(Clone, Copy, Debug, PartialEq, Eq, Structural)]
pub struct ColorBlendDesc {
    pub mask: u8,
    pub blend: TargetBlend,
}

/// A logic operation on color targets.
#[derive(Clone, Copy, Debug, PartialEq, Eq, Structural)]
pub enum LogicOp {
    Copy,
}

/// The blending state of a pipeline.
#[derive(Clone, Debug)]
pub struct BlendDesc {
    pub logic_op: Option<LogicOp>,
    pub targets: Vec<ColorBlendDesc>,
}

/// The kind of resource a descriptor binds.
#[derive(Clone, Copy, Debug, PartialEq, Eq, Structural)]
pub enum DescriptorType {
    Sampler,
    CombinedImageSampler,
    SampledImage,
    StorageImage,
    UniformTexelBuffer,
    StorageTexelBuffer,
    UniformBuffer,
    StorageBuffer,
}

/// gfx-hal `ShaderStageFlags::VERTEX`.
pub const STAGE_VERTEX: u32 = 0x1;
/// gfx-hal `ShaderStageFlags::FRAGMENT`.
pub const STAGE_FRAGMENT: u32 = 0x10;

/// One binding of a descriptor set layout.
#[derive(Clone, Copy, Debug, PartialEq, Eq, Structural)]
pub struct DescriptorSetLayoutBinding {
    pub binding: u32,
    pub ty: DescriptorType,
    pub count: usize,
    pub stage_flags: u32,
    pub immutable_samplers: bool,
}

/// How many descriptors of one type a descriptor pool holds.
#[derive(Clone, Copy, Debug, PartialEq, Eq, Structural)]
pub struct DescriptorRangeDesc {
    pub ty: DescriptorType,
    pub count: usize,
}

/// An attribute read from element offset `offset` of buffer `binding`.
pub open spec fn attribute(binding: u32, location: u32, format: u32, offset: u32) -> AttributeDesc {
    AttributeDesc { location, binding, element: Element { format, offset } }
}

/// Describes the quad tessellation coordinate attribute (bytes) and returns
/// the offset after its `num_elements` bytes.
pub fn generate_tess_coord_attribute_desc(
    binding: u32,
    location: u32,
    offset: u32,
    num_elements: u32,
) -> (r: (u32, AttributeDesc))
    requires
        offset + num_elements <= u32::MAX,
    ensures
        r.0 == offset + num_elements,
        r.1 == attribute(binding, location, R8_UINT, offset),
{
    (
        offset + num_elements,
        AttributeDesc { location, binding, element: Element { format: R8_UINT, offset } },
    )
}

/// Describes a stencil-quad position attribute (32-bit floats) and returns
/// the offset advanced by `num_elements`.
pub fn generate_stencil_position_attribute_desc(
    binding: u32,
    location: u32,
    offset: u32,
    num_elements: u32,
) -> (r: (u32, AttributeDesc))
    requires
        offset + num_elements <= u32::MAX,
    ensures
        r.0 == offset + num_elements,
        r.1 == attribute(binding, location, R32_SFLOAT, offset),
{
    (
        offset + num_elements,
        AttributeDesc { location, binding, element: Element { format: R32_SFLOAT, offset } },
    )
}

/// Describes a whole-pixel coordinate attribute (bytes) and returns the
/// offset after its `num_elements` bytes.
pub fn generate_px_attribute_desc(
    binding: u32,
    location: u32,
    offset: u32,
    num_elements: u32,
) -> (r: (u32, AttributeDesc))
    requires
        offset + num_elements <= u32::MAX,
    ensures
        r.0 == offset + num_elements,
        r.1 == attribute(binding, location, R8_UINT, offset),
{
    (
        offset + num_elements,
        AttributeDesc { location, binding, element: Element { format: R8_UINT, offset } },
    )
}

/// Describes a subpixel coordinate attribute (normalized bytes) and returns
/// the offset after its `num_elements` bytes.
pub fn generate_subpx_attribute_desc(
    binding: u32,
    location: u32,
    offset: u32,
    num_elements: u32,
) -> (r: (u32, AttributeDesc))
    requires
        offset + num_elements <= u32::MAX,
    ensures
        r.0 == offset + num_elements,
        r.1 == attribute(binding, location, R8_UNORM, offset),
{
    (
        offset + num_elements,
        AttributeDesc { location, binding, element: Element { format: R8_UNORM, offset } },
    )
}

/// Describes a tile index attribute (unsigned 16-bit) and returns the
/// offset after its `num_elements` two-byte values.
pub fn generate_tile_index_attribute_desc(
    binding: u32,
    location: u32,
    offset: u32,
    num_elements: u32,
) -> (r: (u32, AttributeDesc))
    requires
        offset + 2 * num_elements <= u32::MAX,
    ensures
        r.0 == offset + 2 * num_elements,
        r.1 == attribute(binding, location, R16_UINT, offset),
{
    (
        offset + 2 * num_elements,
        AttributeDesc { location, binding, element: Element { format: R16_UINT, offset } },
    )
}

/// Describes a solid tile origin attribute (signed 16-bit) and returns the
/// offset after its `num_elements` two-byte values.
pub fn generate_solid_tile_origin_attribute_desc(
    binding: u32,
    location: u32,
    offset: u32,
    num_elements: u32,
) -> (r: (u32, AttributeDesc))
    requires
        offset + 2 * num_elements <= u32::MAX,
    ensures
        r.0 == offset + 2 * num_elements,
        r.1 == attribute(binding, location, R16_SINT, offset),
{
    (
        offset + 2 * num_elements,
        AttributeDesc { location, binding, element: Element { format: R16_SINT, offset } },
    )
}

/// Describes an alpha tile origin attribute (bytes) and returns the offset
/// after its `num_elements` bytes.
pub fn generate_alpha_tile_origin_attribute_desc(
    binding: u32,
    location: u32,
    offset: u32,
    num_elements: u32,
) -> (r: (u32, AttributeDesc))
    requires
        offset + num_elements <= u32::MAX,
    ensures
        r.0 == offset + num_elements,
        r.1 == attribute(binding, location, R8_UINT, offset),
{
    (
        offset + num_elements,
        AttributeDesc { location, binding, element: Element { format: R8_UINT, offset } },
    )
}

/// Describes an object index attribute (signed 16-bit) and returns the
/// offset after its `num_elements` two-byte values.
pub fn generate_object_attribute_desc(
    binding: u32,
    location: u32,
    offset: u32,
    num_elements: u32,
) -> (r: (u32, AttributeDesc))
    requires
        offset + 2 * num_elements <= u32::MAX,
    ensures
        r.0 == offset + 2 * num_elements,
        r.1 == attribute(binding, location, R16_SINT, offset),
{
    (
        offset + 2 * num_elements,
        AttributeDesc { location, binding, element: Element { format: R16_SINT, offset } },
    )
}

/// Describes a backdrop attribute (signed bytes) and returns the offset
/// after its `num_elements` bytes.
pub fn generate_backdrop_attribute_desc(
    binding: u32,
    location: u32,
    offset: u32,
    num_elements: u32,
) -> (r: (u32, AttributeDesc))
    requires
        offset + num_elements <= u32::MAX,
    ensures
        r.0 == offset + num_elements,
        r.1 == attribute(binding, location, R8_SINT, offset),
{
    (
        offset + num_elements,
        AttributeDesc { location, binding, element: Element { format: R8_SINT, offset } },
    )
}

/// The comparison a stencil function stands for.
pub open spec fn stencil_comparison(func: StencilFunc) -> Comparison {
    match func {
        StencilFunc::Always => Comparison::Always,
        StencilFunc::Equal => Comparison::Equal,
        StencilFunc::NotEqual => Comparison::NotEqual,
    }
}

/// The face state of a stencil test: compare with `func` under `mask`
/// against `reference`; when writing, replace the stored value (masked by
/// `mask`) where the test passes, otherwise keep it and write nothing.
pub open spec fn stencil_face(func: StencilFunc, reference: u32, mask: u32, write: bool) -> StencilFace {
    StencilFace {
        fun: stencil_comparison(func),
        mask_read: mask,
        mask_write: if write { mask } else { 0 },
        op_fail: StencilOp::Keep,
        op_depth_fail: StencilOp::Keep,
        op_pass: if write { StencilOp::Replace } else { StencilOp::Keep },
        reference,
    }
}

/// A stencil test that applies the same face state to front and back faces.
pub fn generate_stencil_test(func: StencilFunc, reference: u32, mask: u32, write: bool) -> (test: StencilTest)
    ensures
        test == (StencilTest::On {
            front: stencil_face(func, reference, mask, write),
            back: stencil_face(func, reference, mask, write),
        }),
{
    let (op_pass, mask_write) = if write {
        (StencilOp::Replace, mask)
    } else {
        (StencilOp::Keep, 0)
    };
    let fun = match func {
        StencilFunc::Always => Comparison::Always,
        StencilFunc::Equal => Comparison::Equal,
        StencilFunc::NotEqual => Comparison::NotEqual,
    };
    let face = StencilFace {
        fun,
        mask_read: mask,
        mask_write,
        op_fail: StencilOp::Keep,
        op_depth_fail: StencilOp::Keep,
        op_pass,
        reference,
    };
    StencilTest::On { front: face, back: face }
}

/// The color and alpha equations of a blending mode, or `None` when the
/// mode does not blend.
pub open spec fn blend_equations(blend_state: BlendState) -> Option<(BlendOp, BlendOp)> {
    match blend_state {
        BlendState::Off => None,
        BlendState::RGBOneAlphaOne => Some(
            (
                BlendOp::Add { src: Factor::One, dst: Factor::One },
                BlendOp::Add { src: Factor::One, dst: Factor::One },
            ),
        ),
        BlendState::RGBOneAlphaOneMinusSrcAlpha => Some(
            (
                BlendOp::Add { src: Factor::One, dst: Factor::OneMinusSrcAlpha },
                BlendOp::Add { src: Factor::One, dst: Factor::One },
            ),
        ),
        BlendState::RGBSrcAlphaAlphaOneMinusSrcAlpha => Some(
            (
                BlendOp::Add { src: Factor::SrcAlpha, dst: Factor::OneMinusSrcAlpha },
                BlendOp::Add { src: Factor::One, dst: Factor::One },
            ),
        ),
    }
}

/// The blend description of a blending mode: one color target writing all
/// channels; a blending mode uses the copy logic operation and its
/// equations, `Off` uses neither.
pub fn generate_blend_desc(blend_state: BlendState) -> (desc: BlendDesc)
    ensures
        desc.targets@.len() == 1,
        desc.targets@[0].mask == COLOR_MASK_ALL,
        match blend_equations(blend_state) {
            Some((color, alpha)) => {
                &&& desc.logic_op == Some(LogicOp::Copy)
                &&& desc.targets@[0].blend == (TargetBlend::On { color, alpha })
            },
            None => {
                &&& desc.logic_op == None::<LogicOp>
                &&& desc.targets@[0].blend == TargetBlend::Off
            },
        },
{
    let (logic_op, blend) = match blend_state {
        BlendState::RGBOneAlphaOne => (
            Some(LogicOp::Copy),
            TargetBlend::On {
                color: BlendOp::Add { src: Factor::One, dst: Factor::One },
                alpha: BlendOp::Add { src: Factor::One, dst: Factor::One },
            },
        ),
        BlendState::RGBOneAlphaOneMinusSrcAlpha => (
            Some(LogicOp::Copy),
            TargetBlend::On {
                color: BlendOp::Add { src: Factor::One, dst: Factor::OneMinusSrcAlpha },
                alpha: BlendOp::Add { src: Factor::One, dst: Factor::One },
            },
        ),
        BlendState::RGBSrcAlphaAlphaOneMinusSrcAlpha => (
            Some(LogicOp::Copy),
            TargetBlend::On {
                color: BlendOp::Add { src: Factor::SrcAlpha, dst: Factor::OneMinusSrcAlpha },
                alpha: BlendOp::Add { src: Factor::One, dst: Factor::One },
            },
        ),
        BlendState::Off => (None, TargetBlend::Off),
    };
    let mut targets = Vec::new();
    targets.push(ColorBlendDesc { mask: COLOR_MASK_ALL, blend });
    BlendDesc { logic_op, targets }
}

/// The depth test of the stencil shader: pass nearer fragments and write
/// their depth.
pub fn generate_depth_test_for_stencil_shader() -> (test: DepthTest)
    ensures
        test == (DepthTest::On { fun: Comparison::Less, write: true }),
{
    DepthTest::On { fun: Comparison::Less, write: true }
}

/// The pool ranges that a descriptor set layout needs: one range per
/// binding, of the binding's type and count, in binding order.
pub fn generate_descriptor_range_descs_from_layout_bindings(
    descriptor_set_layout_bindings: &[DescriptorSetLayoutBinding],
) -> (ranges: Vec<DescriptorRangeDesc>)
    ensures
        ranges@.len() == descriptor_set_layout_bindings@.len(),
        forall|i: int|
            0 <= i < ranges@.len() ==> #[trigger] ranges@[i] == (DescriptorRangeDesc {
                ty: descriptor_set_layout_bindings@[i].ty,
                count: descriptor_set_layout_bindings@[i].count,
            }),
{
    let mut ranges: Vec<DescriptorRangeDesc> = Vec::new();
    let n = descriptor_set_layout_bindings.len();
    for i in 0..n
        invariant
            n == descriptor_set_layout_bindings@.len(),
            ranges@.len() == i,
            forall|j: int|
                0 <= j < i ==> #[trigger] ranges@[j] == (DescriptorRangeDesc {
                    ty: descriptor_set_layout_bindings@[j].ty,
                    count: descriptor_set_layout_bindings@[j].count,
                }),
    {
        let binding = descriptor_set_layout_bindings[i];
        ranges.push(DescriptorRangeDesc { ty: binding.ty, count: binding.count });
    }
    ranges
}

} // verus!
