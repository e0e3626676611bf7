use pathfinder_hal::gpu_types::VertexAttrType;
use pathfinder_hal::renderer::MAX_FILLS_PER_BATCH;
use pathfinder_hal::vertex_arrays::{
    alpha_tile_vertex_array_layout, fill_vertex_array_layout, ground_vertex_array_layout, postprocess_vertex_array_layout,
    reprojection_vertex_array_layout, solid_tile_vertex_array_layout, stencil_vertex_array_layout,
    AttrClass, AttrSource, VertexAttrConfig,
};

fn summary(c: &VertexAttrConfig) -> (&'static str, AttrSource, AttrClass, u32, VertexAttrType, usize, usize, u32) {
    (c.name, c.source, c.class, c.size, c.attr_type, c.stride, c.offset, c.divisor)
}

const QUAD: (AttrSource, AttrClass, u32, VertexAttrType, usize, usize, u32) =
    (AttrSource::QuadPositions, AttrClass::Float { normalized: false }, 2, VertexAttrType::U8, 0, 0, 0);

#[test]
fn fill_vertex_array() {
    let layout = fill_vertex_array_layout();
    assert_eq!(layout.allocated_instances, Some(MAX_FILLS_PER_BATCH));
    let names: Vec<&str> = layout.attributes.iter().map(|a| a.name).collect();
    assert_eq!(names, ["TessCoord", "FromPx", "ToPx", "FromSubpx", "ToSubpx", "TileIndex"]);
    let c = &layout.attributes;
    assert_eq!((c[0].source, c[0].class, c[0].size, c[0].attr_type, c[0].stride, c[0].offset, c[0].divisor), QUAD);
    assert_eq!(summary(&c[2]), ("ToPx", AttrSource::OwnBuffer, AttrClass::Int, 1, VertexAttrType::U8, 8, 1, 1));
    assert_eq!(summary(&c[3]), ("FromSubpx", AttrSource::OwnBuffer, AttrClass::Float { normalized: true }, 2, VertexAttrType::U8, 8, 2, 1));
    assert_eq!(summary(&c[5]), ("TileIndex", AttrSource::OwnBuffer, AttrClass::Int, 1, VertexAttrType::U16, 8, 6, 1));
}

#[test]
fn tile_vertex_arrays() {
    let alpha = alpha_tile_vertex_array_layout();
    assert_eq!(alpha.allocated_instances, None);
    assert_eq!(alpha.attributes.len(), 5);
    assert_eq!(summary(&alpha.attributes[1]), ("TileOrigin", AttrSource::OwnBuffer, AttrClass::Int, 3, VertexAttrType::U8, 8, 0, 1));
    assert_eq!(summary(&alpha.attributes[2]), ("Backdrop", AttrSource::OwnBuffer, AttrClass::Int, 1, VertexAttrType::I8, 8, 3, 1));
    assert_eq!(summary(&alpha.attributes[4]), ("TileIndex", AttrSource::OwnBuffer, AttrClass::Int, 2, VertexAttrType::I16, 8, 6, 1));
    let solid = solid_tile_vertex_array_layout();
    assert_eq!(solid.attributes.len(), 3);
    assert_eq!(summary(&solid.attributes[1]), ("TileOrigin", AttrSource::OwnBuffer, AttrClass::Float { normalized: false }, 2, VertexAttrType::I16, 6, 0, 1));
    assert_eq!(summary(&solid.attributes[2]), ("Object", AttrSource::OwnBuffer, AttrClass::Int, 1, VertexAttrType::I16, 6, 4, 1));
}

#[test]
fn quad_and_stencil_vertex_arrays() {
    for layout in [postprocess_vertex_array_layout(), reprojection_vertex_array_layout(), ground_vertex_array_layout()] {
        assert_eq!(layout.attributes.len(), 1);
        assert_eq!(layout.attributes[0].name, "Position");
        assert_eq!(layout.attributes[0].source, AttrSource::QuadPositions);
    }
    let stencil = stencil_vertex_array_layout();
    assert_eq!(
        summary(&stencil.attributes[0]),
        ("Position", AttrSource::OwnBuffer, AttrClass::Float { normalized: false }, 3, VertexAttrType::F32, 16, 0, 0)
    );
}
