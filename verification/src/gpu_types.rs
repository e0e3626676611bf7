//! The small vocabulary types of the GPU layer.
use crate::format::{R16_SFLOAT, R8_UINT, RGBA8_SRGB};
use vstd::prelude::*;

verus! {

/// The comparison a stencil test applies.
#[derive(Clone, Copy, Debug, PartialEq, Eq, Structural)]
pub enum StencilFunc {
    Always,
    Equal,
    NotEqual,
}

/// The texture formats the renderer creates.
#[derive(Clone, Copy, Debug, PartialEq, Eq, Structural)]
pub enum TextureFormat {
    R8,
    R16F,
    RGBA8,
}

/// The gfx-hal format number of each texture format.
pub open spec fn texture_format_number(texture_format: TextureFormat) -> u32 {
    match texture_format {
        TextureFormat::R8 => R8_UINT,
        TextureFormat::R16F => R16_SFLOAT,
        TextureFormat::RGBA8 => RGBA8_SRGB,
    }
}

impl TextureFormat {
    /// The gfx-hal format a texture of this format is created with.
    pub fn to_hal_format(texture_format: TextureFormat) -> (format: u32)
        ensures
            format == texture_format_number(texture_format),
    {
        match texture_format {
            TextureFormat::R8 => R8_UINT,
            TextureFormat::R16F => R16_SFLOAT,
            TextureFormat::RGBA8 => RGBA8_SRGB,
        }
    }
}

/// The element type of a vertex attribute.
#[derive(Clone, Copy, Debug, PartialEq, Eq, Structural)]
pub enum VertexAttrType {
    F32,
    I16,
    I8,
    U16,
    U8,
}

/// What a buffer is filled with when it is allocated: nothing yet (room for
/// a number of elements), or a slice of elements.
#[derive(Clone, Copy, Debug)]
pub enum BufferData<'a, T> {
    Uninitialized(usize),
    Memory(&'a [T]),
}

/// The binding target of a buffer.
#[derive(Clone, Copy, Debug, PartialEq, Eq, Structural)]
pub enum BufferTarget {
    Vertex,
    Index,
}

/// How often a buffer is expected to be rewritten.
#[derive(Clone, Copy, Debug, PartialEq, Eq, Structural)]
pub enum BufferUploadMode {
    Static,
    Dynamic,
}

/// The dialect shaders are written in.
#[derive(PartialEq, Eq, Structural)]
pub enum GlslStyle {
    Spirv,
    OpenGL,
}

/// The primitive topology of a draw call.
#[derive(Clone, Copy, PartialEq, Eq, Structural)]
pub enum Primitive {
    Triangles,
    TriangleFan,
    Lines,
}

/// The blending modes the renderer draws with.
#[derive(Clone, Copy, Debug, PartialEq, Eq, Structural)]
pub enum BlendState {
    Off,
    RGBOneAlphaOne,
    RGBOneAlphaOneMinusSrcAlpha,
    RGBSrcAlphaAlphaOneMinusSrcAlpha,
}

/// A depth test and whether it writes depth.
#[derive(Clone, Copy, Default, Debug, PartialEq, Eq, Structural)]
pub struct DepthState {
    pub func: DepthFunc,
    pub write: bool,
}

/// The comparison a depth test applies.
#[derive(Clone, Copy, Debug, PartialEq, Eq, Structural)]
pub enum DepthFunc {
    Less,
    Always,
}

impl Default for DepthFunc {
    fn default() -> (func: DepthFunc)
        ensures
            func == DepthFunc::Less,
    {
        DepthFunc::Less
    }
}

/// The render passes of a frame.
#[derive(PartialEq, Eq, Structural)]
pub enum RenderPassVariants {
    Mask,
    Draw,
    Postprocess,
}

/// The graphics pipelines the renderer builds.
#[derive(Clone, Copy, Debug, PartialEq, Eq, Structural)]
pub enum PipelineVariant {
    Stencil,
    Fill,
    SolidMonochrome,
    SolidMulticolor,
    AlphaMonochrome,
    AlphaMulticolor,
    Postprocess,
}

/// The stage a shader module is compiled for.
#[derive(Clone, Copy, Debug, PartialEq, Eq, Structural)]
pub enum ShaderKind {
    Vertex,
    Fragment,
}

} // verus!
