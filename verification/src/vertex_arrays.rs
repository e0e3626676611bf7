//! The vertex arrays the renderer draws with: which shader attribute reads
//! which buffer, with how many components of which type, at which stride
//! and offset, and how often it advances.
use crate::gpu_types::VertexAttrType;
use crate::renderer::MAX_FILLS_PER_BATCH;
use vstd::prelude::*;

verus! {

/// Bytes per fill instance in a fill vertex buffer.
pub const FILL_INSTANCE_STRIDE: usize = 8;
/// Bytes per solid tile instance.
pub const SOLID_TILE_INSTANCE_STRIDE: usize = 6;
/// Bytes per alpha tile instance.
pub const MASK_TILE_INSTANCE_STRIDE: usize = 8;
/// Bytes per stencil quad vertex: three floats, padded to four.
pub const STENCIL_VERTEX_STRIDE: usize = 16;

/// The buffer bound when an attribute is configured: the shared unit quad's
/// vertex positions, or the array's own vertex buffer.
#[derive(Clone, Copy, Debug, PartialEq, Eq, Structural)]
pub enum AttrSource {
    QuadPositions,
    OwnBuffer,
}

/// How the shader receives an attribute: as floats (integers normalized to
/// 0..1 or converted as they are), or as integers.
#[derive(Clone, Copy, Debug, PartialEq, Eq, Structural)]
pub enum AttrClass {
    Float { normalized: bool },
    Int,
}

/// How one shader attribute is read.
#[derive(Clone, Copy, Debug)]
pub struct VertexAttrConfig {
    pub name: &'static str,
    pub source: AttrSource,
    pub class: AttrClass,
    pub size: u32,
    pub attr_type: VertexAttrType,
    pub stride: usize,
    pub offset: usize,
    pub divisor: u32,
}

/// The layout of a vertex array: the room its own vertex buffer is
/// allocated with when the array is created (in instances), if any, and its
/// attributes in the order they are configured.
#[derive(Clone, Debug)]
pub struct VertexArrayLayout {
    pub allocated_instances: Option<usize>,
    pub attributes: Vec<VertexAttrConfig>,
}

/// Whether `c` configures attribute `name` as given.
pub open spec fn configures(
    c: VertexAttrConfig,
    name: Seq<char>,
    source: AttrSource,
    class: AttrClass,
    size: u32,
    attr_type: VertexAttrType,
    stride: usize,
    offset: usize,
    divisor: u32,
) -> bool {
    &&& c.name@ == name
    &&& c.source == source
    &&& c.class == class
    &&& c.size == size
    &&& c.attr_type == attr_type
    &&& c.stride == stride
    &&& c.offset == offset
    &&& c.divisor == divisor
}

/// Whether `c` reads the unit quad's corner as two unnormalized bytes per
/// vertex, under the name `name`.
pub open spec fn quad_corner(c: VertexAttrConfig, name: Seq<char>) -> bool {
    configures(
        c,
        name,
        AttrSource::QuadPositions,
        AttrClass::Float { normalized: false },
        2,
        VertexAttrType::U8,
        0,
        0,
        0,
    )
}

fn attr(
    name: &'static str,
    source: AttrSource,
    class: AttrClass,
    size: u32,
    attr_type: VertexAttrType,
    stride: usize,
    offset: usize,
    divisor: u32,
) -> (c: VertexAttrConfig)
    ensures
        configures(c, name@, source, class, size, attr_type, stride, offset, divisor),
{
    VertexAttrConfig { name, source, class, size, attr_type, stride, offset, divisor }
}

fn quad_corner_attr(name: &'static str) -> (c: VertexAttrConfig)
    ensures
        quad_corner(c, name@),
{
    attr(name, AttrSource::QuadPositions, AttrClass::Float { normalized: false }, 2, VertexAttrType::U8, 0, 0, 0)
}

/// The fill vertex array: its buffer has room for a batch of fills; each
/// fill instance holds whole-pixel and subpixel endpoints and its tile.
pub fn fill_vertex_array_layout() -> (layout: VertexArrayLayout)
    ensures
        layout.allocated_instances == Some(MAX_FILLS_PER_BATCH),
        layout.attributes.len() == 6,
        quad_corner(layout.attributes[0], "TessCoord"@),
        configures(layout.attributes[1], "FromPx"@, AttrSource::OwnBuffer, AttrClass::Int, 1, VertexAttrType::U8, FILL_INSTANCE_STRIDE, 0, 1),
        configures(layout.attributes[2], "ToPx"@, AttrSource::OwnBuffer, AttrClass::Int, 1, VertexAttrType::U8, FILL_INSTANCE_STRIDE, 1, 1),
        configures(layout.attributes[3], "FromSubpx"@, AttrSource::OwnBuffer, AttrClass::Float { normalized: true }, 2, VertexAttrType::U8, FILL_INSTANCE_STRIDE, 2, 1),
        configures(layout.attributes[4], "ToSubpx"@, AttrSource::OwnBuffer, AttrClass::Float { normalized: true }, 2, VertexAttrType::U8, FILL_INSTANCE_STRIDE, 4, 1),
        configures(layout.attributes[5], "TileIndex"@, AttrSource::OwnBuffer, AttrClass::Int, 1, VertexAttrType::U16, FILL_INSTANCE_STRIDE, 6, 1),
{
    let attributes = vec![
        quad_corner_attr("TessCoord"),
        attr("FromPx", AttrSource::OwnBuffer, AttrClass::Int, 1, VertexAttrType::U8, FILL_INSTANCE_STRIDE, 0, 1),
        attr("ToPx", AttrSource::OwnBuffer, AttrClass::Int, 1, VertexAttrType::U8, FILL_INSTANCE_STRIDE, 1, 1),
        attr(
            "FromSubpx",
            AttrSource::OwnBuffer,
            AttrClass::Float { normalized: true },
            2,
            VertexAttrType::U8,
            FILL_INSTANCE_STRIDE,
            2,
            1,
        ),
        attr(
            "ToSubpx",
            AttrSource::OwnBuffer,
            AttrClass::Float { normalized: true },
            2,
            VertexAttrType::U8,
            FILL_INSTANCE_STRIDE,
            4,
            1,
        ),
        attr("TileIndex", AttrSource::OwnBuffer, AttrClass::Int, 1, VertexAttrType::U16, FILL_INSTANCE_STRIDE, 6, 1),
    ];
    VertexArrayLayout { allocated_instances: Some(MAX_FILLS_PER_BATCH), attributes }
}

/// The alpha tile vertex array: each instance holds the tile's origin, its
/// backdrop, its object and its mask tile. The object and tile index are
/// read as signed shorts, as some drivers require.
pub fn alpha_tile_vertex_array_layout() -> (layout: VertexArrayLayout)
    ensures
        layout.allocated_instances == None::<usize>,
        layout.attributes.len() == 5,
        quad_corner(layout.attributes[0], "TessCoord"@),
        configures(layout.attributes[1], "TileOrigin"@, AttrSource::OwnBuffer, AttrClass::Int, 3, VertexAttrType::U8, MASK_TILE_INSTANCE_STRIDE, 0, 1),
        configures(layout.attributes[2], "Backdrop"@, AttrSource::OwnBuffer, AttrClass::Int, 1, VertexAttrType::I8, MASK_TILE_INSTANCE_STRIDE, 3, 1),
        configures(layout.attributes[3], "Object"@, AttrSource::OwnBuffer, AttrClass::Int, 2, VertexAttrType::I16, MASK_TILE_INSTANCE_STRIDE, 4, 1),
        configures(layout.attributes[4], "TileIndex"@, AttrSource::OwnBuffer, AttrClass::Int, 2, VertexAttrType::I16, MASK_TILE_INSTANCE_STRIDE, 6, 1),
{
    let attributes = vec![
        quad_corner_attr("TessCoord"),
        attr("TileOrigin", AttrSource::OwnBuffer, AttrClass::Int, 3, VertexAttrType::U8, MASK_TILE_INSTANCE_STRIDE, 0, 1),
        attr("Backdrop", AttrSource::OwnBuffer, AttrClass::Int, 1, VertexAttrType::I8, MASK_TILE_INSTANCE_STRIDE, 3, 1),
        attr("Object", AttrSource::OwnBuffer, AttrClass::Int, 2, VertexAttrType::I16, MASK_TILE_INSTANCE_STRIDE, 4, 1),
        attr("TileIndex", AttrSource::OwnBuffer, AttrClass::Int, 2, VertexAttrType::I16, MASK_TILE_INSTANCE_STRIDE, 6, 1),
    ];
    VertexArrayLayout { allocated_instances: None, attributes }
}

/// The solid tile vertex array: each instance holds the tile's origin (as
/// floats converted from signed shorts) and its object.
pub fn solid_tile_vertex_array_layout() -> (layout: VertexArrayLayout)
    ensures
        layout.allocated_instances == None::<usize>,
        layout.attributes.len() == 3,
        quad_corner(layout.attributes[0], "TessCoord"@),
        configures(layout.attributes[1], "TileOrigin"@, AttrSource::OwnBuffer, AttrClass::Float { normalized: false }, 2, VertexAttrType::I16, SOLID_TILE_INSTANCE_STRIDE, 0, 1),
        configures(layout.attributes[2], "Object"@, AttrSource::OwnBuffer, AttrClass::Int, 1, VertexAttrType::I16, SOLID_TILE_INSTANCE_STRIDE, 4, 1),
{
    let attributes = vec![
        quad_corner_attr("TessCoord"),
        attr(
            "TileOrigin",
            AttrSource::OwnBuffer,
            AttrClass::Float { normalized: false },
            2,
            VertexAttrType::I16,
            SOLID_TILE_INSTANCE_STRIDE,
            0,
            1,
        ),
        attr("Object", AttrSource::OwnBuffer, AttrClass::Int, 1, VertexAttrType::I16, SOLID_TILE_INSTANCE_STRIDE, 4, 1),
    ];
    VertexArrayLayout { allocated_instances: None, attributes }
}

/// The postprocessing vertex array: the unit quad's corners as positions.
pub fn postprocess_vertex_array_layout() -> (layout: VertexArrayLayout)
    ensures
        layout.allocated_instances == None::<usize>,
        layout.attributes.len() == 1,
        quad_corner(layout.attributes[0], "Position"@),
{
    VertexArrayLayout { allocated_instances: None, attributes: vec![quad_corner_attr("Position")] }
}

/// The reprojection vertex array: the unit quad's corners as positions.
pub fn reprojection_vertex_array_layout() -> (layout: VertexArrayLayout)
    ensures
        layout.allocated_instances == None::<usize>,
        layout.attributes.len() == 1,
        quad_corner(layout.attributes[0], "Position"@),
{
    VertexArrayLayout { allocated_instances: None, attributes: vec![quad_corner_attr("Position")] }
}

/// The demo's ground vertex array: the unit quad's corners as positions.
pub fn ground_vertex_array_layout() -> (layout: VertexArrayLayout)
    ensures
        layout.allocated_instances == None::<usize>,
        layout.attributes.len() == 1,
        quad_corner(layout.attributes[0], "Position"@),
{
    VertexArrayLayout { allocated_instances: None, attributes: vec![quad_corner_attr("Position")] }
}

/// The stencil vertex array: three float coordinates per vertex of the
/// scene's bounding quad, one vertex every sixteen bytes.
pub fn stencil_vertex_array_layout() -> (layout: VertexArrayLayout)
    ensures
        layout.allocated_instances == None::<usize>,
        layout.attributes.len() == 1,
        configures(layout.attributes[0], "Position"@, AttrSource::OwnBuffer, AttrClass::Float { normalized: false }, 3, VertexAttrType::F32, STENCIL_VERTEX_STRIDE, 0, 0),
{
    let attributes = vec![
        attr(
            "Position",
            AttrSource::OwnBuffer,
            AttrClass::Float { normalized: false },
            3,
            VertexAttrType::F32,
            STENCIL_VERTEX_STRIDE,
            0,
            0,
        ),
    ];
    VertexArrayLayout { allocated_instances: None, attributes }
}

} // verus!
