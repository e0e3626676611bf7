use pathfinder_hal::color::ColorU;
use pathfinder_hal::svg::{
    BuildResultFlags, BuiltSVG, Paint, PathObject, PathObjectKind, SvgColor, SvgNode, SvgPaint, SvgTree,
    UNSUPPORTED_CLIP_PATH_ATTR, UNSUPPORTED_CLIP_PATH_NODE, UNSUPPORTED_DEFS_NODE,
    UNSUPPORTED_FILTER_ATTR, UNSUPPORTED_FILTER_NODE, UNSUPPORTED_IMAGE_NODE,
    UNSUPPORTED_LINEAR_GRADIENT_NODE, UNSUPPORTED_LINK_PAINT, UNSUPPORTED_MASK_ATTR,
    UNSUPPORTED_MASK_NODE, UNSUPPORTED_NESTED_SVG_NODE, UNSUPPORTED_OPACITY_ATTR,
    UNSUPPORTED_PATTERN_NODE, UNSUPPORTED_RADIAL_GRADIENT_NODE, UNSUPPORTED_TEXT_NODE,
};

const RED: SvgColor = SvgColor { red: 255, green: 0, blue: 0 };

fn empty_svg() -> BuiltSVG {
    BuiltSVG { objects: Vec::new(), result_flags: BuildResultFlags::empty() }
}

#[test]
fn empty_flags_describe_as_nothing() {
    let flags = BuildResultFlags::empty();
    assert!(flags.is_empty());
    assert_eq!(flags.bits(), 0);
    assert_eq!(flags.describe(), "");
}

#[test]
fn flags_are_described_in_bit_order() {
    let mut flags = BuildResultFlags::empty();
    flags.insert(UNSUPPORTED_TEXT_NODE);
    flags.insert(UNSUPPORTED_CLIP_PATH_NODE);
    assert_eq!(flags.describe(), "<clipPath>, <text>");
    assert!(!flags.is_empty());
}

#[test]
fn single_flag_has_no_separator() {
    let mut flags = BuildResultFlags::empty();
    flags.insert(UNSUPPORTED_OPACITY_ATTR);
    assert_eq!(flags.describe(), "opacity attribute");
}

#[test]
fn every_flag_is_described() {
    let flags = BuildResultFlags { bits: 0x7fff };
    assert_eq!(
        flags.describe(),
        "<clipPath>, <defs>, <filter>, <image>, <linearGradient>, <mask>, <pattern>, \
         <radialGradient>, nested <svg>, <text>, paint server element, clip-path attribute, \
         filter attribute, mask attribute, opacity attribute"
    );
}

#[test]
fn undefined_bit_is_not_described() {
    assert_eq!(BuildResultFlags { bits: 0x8000 }.describe(), "");
    assert_eq!(BuildResultFlags { bits: 0x8001 }.describe(), "<clipPath>");
}

#[test]
fn insert_adds_and_contains_checks() {
    let mut flags = BuildResultFlags::empty();
    flags.insert(UNSUPPORTED_MASK_NODE);
    flags.insert(UNSUPPORTED_MASK_NODE);
    assert_eq!(flags.bits(), UNSUPPORTED_MASK_NODE);
    assert!(flags.contains(UNSUPPORTED_MASK_NODE));
    assert!(!flags.contains(UNSUPPORTED_MASK_ATTR));
    assert!(!flags.contains(UNSUPPORTED_MASK_NODE | UNSUPPORTED_MASK_ATTR));
}

#[test]
fn color_paint_keeps_its_color() {
    let mut flags = BuildResultFlags::empty();
    let p = Paint::from_svg_paint(&SvgPaint::Color(SvgColor { red: 1, green: 2, blue: 3 }), &mut flags);
    assert_eq!(p, Paint { color: ColorU { r: 1, g: 2, b: 3, a: 255 } });
    assert!(flags.is_empty());
}

#[test]
fn link_paint_is_drawn_black_and_reported() {
    let mut flags = BuildResultFlags::empty();
    let p = Paint::from_svg_paint(&SvgPaint::Link, &mut flags);
    assert_eq!(p, Paint { color: ColorU::black() });
    assert_eq!(flags.bits(), UNSUPPORTED_LINK_PAINT);
}

#[test]
fn group_attributes_are_reported() {
    let mut svg = empty_svg();
    svg.process_node(&SvgNode::Group { clip_path: true, filter: false, mask: true, opacity: true });
    assert_eq!(
        svg.result_flags.bits(),
        UNSUPPORTED_CLIP_PATH_ATTR | UNSUPPORTED_MASK_ATTR | UNSUPPORTED_OPACITY_ATTR
    );
    assert!(svg.objects.is_empty());
    svg.process_node(&SvgNode::Group { clip_path: false, filter: true, mask: false, opacity: false });
    assert!(svg.result_flags.contains(UNSUPPORTED_FILTER_ATTR));
}

#[test]
fn plain_group_reports_nothing() {
    let mut svg = empty_svg();
    svg.process_node(&SvgNode::Group { clip_path: false, filter: false, mask: false, opacity: false });
    assert!(svg.result_flags.is_empty());
}

#[test]
fn unsupported_elements_are_reported() {
    let cases = [
        (SvgNode::ClipPath, UNSUPPORTED_CLIP_PATH_NODE),
        (SvgNode::Filter, UNSUPPORTED_FILTER_NODE),
        (SvgNode::Image, UNSUPPORTED_IMAGE_NODE),
        (SvgNode::LinearGradient, UNSUPPORTED_LINEAR_GRADIENT_NODE),
        (SvgNode::Mask, UNSUPPORTED_MASK_NODE),
        (SvgNode::Pattern, UNSUPPORTED_PATTERN_NODE),
        (SvgNode::RadialGradient, UNSUPPORTED_RADIAL_GRADIENT_NODE),
        (SvgNode::Svg, UNSUPPORTED_NESTED_SVG_NODE),
        (SvgNode::Text, UNSUPPORTED_TEXT_NODE),
    ];
    for (node, flag) in cases {
        let mut svg = empty_svg();
        svg.process_node(&node);
        assert_eq!(svg.result_flags.bits(), flag);
        assert!(svg.objects.is_empty());
    }
}

#[test]
fn only_nonempty_defs_are_reported() {
    let mut svg = empty_svg();
    svg.process_node(&SvgNode::Defs { has_children: false });
    assert!(svg.result_flags.is_empty());
    svg.process_node(&SvgNode::Defs { has_children: true });
    assert_eq!(svg.result_flags.bits(), UNSUPPORTED_DEFS_NODE);
}

#[test]
fn hidden_path_yields_nothing() {
    let mut svg = empty_svg();
    svg.process_node(&SvgNode::Path { id: "hidden".to_string(), visible: false, fill: Some(SvgPaint::Link), stroke: Some(SvgPaint::Color(RED)) });
    assert!(svg.objects.is_empty());
    assert!(svg.result_flags.is_empty());
}

#[test]
fn visible_path_yields_fill_then_stroke() {
    let mut svg = empty_svg();
    svg.process_node(&SvgNode::Path { id: "logo".to_string(), visible: true, fill: Some(SvgPaint::Link), stroke: Some(SvgPaint::Color(RED)) });
    assert_eq!(
        svg.objects,
        vec![
            PathObject { paint: Paint { color: ColorU::black() }, kind: PathObjectKind::Fill, name: "logo".to_string() },
            PathObject { paint: Paint { color: ColorU { r: 255, g: 0, b: 0, a: 255 } }, kind: PathObjectKind::Stroke, name: "logo".to_string() },
        ]
    );
    assert_eq!(svg.result_flags.bits(), UNSUPPORTED_LINK_PAINT);
}

#[test]
fn stroke_only_path() {
    let mut svg = empty_svg();
    svg.process_node(&SvgNode::Path { id: String::new(), visible: true, fill: None, stroke: Some(SvgPaint::Color(RED)) });
    assert_eq!(svg.objects.len(), 1);
    assert_eq!(svg.objects[0].kind, PathObjectKind::Stroke);
}

#[test]
fn document_import_reports_exactly_what_it_met() {
    let nodes = vec![
        SvgNode::Group { clip_path: false, filter: false, mask: false, opacity: true },
        SvgNode::Path { id: "a".to_string(), visible: true, fill: Some(SvgPaint::Color(RED)), stroke: None },
        SvgNode::Text,
        SvgNode::Path { id: "b".to_string(), visible: true, fill: None, stroke: Some(SvgPaint::Link) },
        SvgNode::Defs { has_children: false },
    ];
    let built = BuiltSVG::from_nodes(&nodes);
    assert_eq!(
        built.result_flags.bits(),
        UNSUPPORTED_OPACITY_ATTR | UNSUPPORTED_TEXT_NODE | UNSUPPORTED_LINK_PAINT
    );
    assert_eq!(built.result_flags.describe(), "<text>, paint server element, opacity attribute");
    assert_eq!(built.objects.len(), 2);
    assert_eq!(built.objects[0].kind, PathObjectKind::Fill);
    assert_eq!(built.objects[0].paint.color, ColorU { r: 255, g: 0, b: 0, a: 255 });
    assert_eq!(built.objects[1].kind, PathObjectKind::Stroke);
    assert_eq!(built.objects[1].paint.color, ColorU::black());
    assert_eq!(built.objects[0].name, "a");
    assert_eq!(built.objects[1].name, "b");
}

#[test]
fn empty_document_yields_nothing() {
    let built = BuiltSVG::from_nodes(&vec![]);
    assert!(built.objects.is_empty());
    assert!(built.result_flags.is_empty());
}

fn leaf(node: SvgNode) -> SvgTree {
    SvgTree { node, children: vec![] }
}

fn path(id: &str) -> SvgNode {
    SvgNode::Path { id: id.to_string(), visible: true, fill: Some(SvgPaint::Color(RED)), stroke: None }
}

#[test]
fn group_children_are_imported_in_document_order() {
    let tree = SvgTree {
        node: SvgNode::Svg,
        children: vec![
            leaf(path("first")),
            SvgTree {
                node: SvgNode::Group { clip_path: false, filter: false, mask: true, opacity: false },
                children: vec![
                    leaf(path("second")),
                    SvgTree {
                        node: SvgNode::Group { clip_path: false, filter: false, mask: false, opacity: false },
                        children: vec![leaf(path("third"))],
                    },
                    leaf(path("fourth")),
                ],
            },
            leaf(path("fifth")),
        ],
    };
    let built = BuiltSVG::from_tree(&tree);
    let names: Vec<&str> = built.objects.iter().map(|o| o.name.as_str()).collect();
    assert_eq!(names, ["first", "second", "third", "fourth", "fifth"]);
    assert_eq!(built.result_flags.bits(), UNSUPPORTED_MASK_ATTR);
}

#[test]
fn children_of_other_elements_are_not_imported() {
    let tree = SvgTree {
        node: SvgNode::Svg,
        children: vec![
            SvgTree { node: SvgNode::Defs { has_children: true }, children: vec![leaf(path("in defs"))] },
            SvgTree { node: SvgNode::Svg, children: vec![leaf(path("nested"))] },
            SvgTree { node: SvgNode::ClipPath, children: vec![leaf(SvgNode::Text)] },
        ],
    };
    let built = BuiltSVG::from_tree(&tree);
    assert!(built.objects.is_empty());
    assert_eq!(
        built.result_flags.bits(),
        UNSUPPORTED_DEFS_NODE | UNSUPPORTED_NESTED_SVG_NODE | UNSUPPORTED_CLIP_PATH_NODE
    );
}
