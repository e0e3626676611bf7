//! Integer geometry and the packed per-instance records the renderer
//! uploads to vertex buffers.
use vstd::prelude::*;

verus! {

/// An integer point (or size).
#[derive(Clone, Copy, Debug, Default, PartialEq, Eq, Structural)]
pub struct Point2DI32 {
    pub x: i32,
    pub y: i32,
}

impl Point2DI32 {
    pub fn new(x: i32, y: i32) -> (p: Point2DI32)
        ensures
            p == (Point2DI32 { x, y }),
    {
        Point2DI32 { x, y }
    }
}

/// An integer rectangle given by its origin and size.
#[derive(Clone, Copy, Debug, Default, PartialEq, Eq, Structural)]
pub struct RectI32 {
    pub origin: Point2DI32,
    pub size: Point2DI32,
}

impl RectI32 {
    pub fn new(origin: Point2DI32, size: Point2DI32) -> (r: RectI32)
        ensures
            r == (RectI32 { origin, size }),
    {
        RectI32 { origin, size }
    }
}

/// A line segment inside a tile with 4-bit whole-pixel endpoints, packed
/// into 16 bits.
#[derive(Clone, Copy, Debug, Default, PartialEq, Eq, Structural)]
pub struct LineSegmentU4(pub u16);

/// A line segment's 8-bit subpixel endpoint parts, packed into 32 bits.
#[derive(Clone, Copy, Debug, Default, PartialEq, Eq, Structural)]
pub struct LineSegmentU8(pub u32);

/// The texels of the paint texture and its size.
#[derive(Clone, Debug)]
pub struct PaintData {
    pub size: Point2DI32,
    pub texels: Vec<u8>,
}

/// A fill of one path object, before it is assigned an alpha tile.
#[derive(Clone, Copy, Debug, PartialEq, Eq, Structural)]
pub struct FillObjectPrimitive {
    pub px: LineSegmentU4,
    pub subpx: LineSegmentU8,
    pub tile_x: i16,
    pub tile_y: i16,
}

/// The tile an object covers: an alpha tile index, or `u16::MAX` for a
/// solid tile, and the tile's backdrop winding.
#[derive(Clone, Copy, Debug, PartialEq, Eq, Structural)]
pub struct TileObjectPrimitive {
    /// If `u16::MAX`, then this is a solid tile.
    pub alpha_tile_index: u16,
    pub backdrop: i8,
}

impl TileObjectPrimitive {
    /// Whether the record stands for a solid tile.
    pub open spec fn spec_is_solid(self) -> bool {
        self.alpha_tile_index == u16::MAX
    }
}

/// One fill instance: a segment inside the alpha tile it accumulates into.
#[derive(Clone, Copy, Debug, Default, PartialEq, Eq, Structural)]
pub struct FillBatchPrimitive {
    pub px: LineSegmentU4,
    pub subpx: LineSegmentU8,
    pub alpha_tile_index: u16,
}

/// One solid tile instance.
#[derive(Clone, Copy, Debug, PartialEq, Eq, Structural)]
pub struct SolidTileBatchPrimitive {
    pub tile_x: i16,
    pub tile_y: i16,
    pub origin_u: u16,
    pub origin_v: u16,
    pub object_index: u16,
}

/// One alpha tile instance.
#[derive(Clone, Copy, Debug, Default, PartialEq, Eq, Structural)]
pub struct AlphaTileBatchPrimitive {
    pub tile_x_lo: u8,
    pub tile_y_lo: u8,
    pub tile_hi: u8,
    pub backdrop: i8,
    pub object_index: u16,
    pub tile_index: u16,
    pub origin_u: u16,
    pub origin_v: u16,
}

} // verus!
