//! The SVG import rules: which path objects a document yields, with which
//! paint, and which unsupported features it reports.
//!
//! A document is given as its nodes below the root `<svg>` element, in
//! document order (a group comes before its children); each node carries
//! what the rules read of it.
use crate::color::ColorU;
use vstd::prelude::*;

verus! {

/// A `<clipPath>` element was skipped.
pub const UNSUPPORTED_CLIP_PATH_NODE: u16 = 0x0001;
/// A `<defs>` element with children was skipped.
pub const UNSUPPORTED_DEFS_NODE: u16 = 0x0002;
/// A `<filter>` element was skipped.
pub const UNSUPPORTED_FILTER_NODE: u16 = 0x0004;
/// An `<image>` element was skipped.
pub const UNSUPPORTED_IMAGE_NODE: u16 = 0x0008;
/// A `<linearGradient>` element was skipped.
pub const UNSUPPORTED_LINEAR_GRADIENT_NODE: u16 = 0x0010;
/// A `<mask>` element was skipped.
pub const UNSUPPORTED_MASK_NODE: u16 = 0x0020;
/// A `<pattern>` element was skipped.
pub const UNSUPPORTED_PATTERN_NODE: u16 = 0x0040;
/// A `<radialGradient>` element was skipped.
pub const UNSUPPORTED_RADIAL_GRADIENT_NODE: u16 = 0x0080;
/// A nested `<svg>` element was skipped.
pub const UNSUPPORTED_NESTED_SVG_NODE: u16 = 0x0100;
/// A `<text>` element was skipped.
pub const UNSUPPORTED_TEXT_NODE: u16 = 0x0200;
/// A paint referring to a paint server was drawn black.
pub const UNSUPPORTED_LINK_PAINT: u16 = 0x0400;
/// A group's `clip-path` attribute was ignored.
pub const UNSUPPORTED_CLIP_PATH_ATTR: u16 = 0x0800;
/// A group's `filter` attribute was ignored.
pub const UNSUPPORTED_FILTER_ATTR: u16 = 0x1000;
/// A group's `mask` attribute was ignored.
pub const UNSUPPORTED_MASK_ATTR: u16 = 0x2000;
/// A group's `opacity` attribute was ignored.
pub const UNSUPPORTED_OPACITY_ATTR: u16 = 0x4000;
/// The number of flags; flag `i` is bit `i`.
pub const FLAG_COUNT: u16 = 15;

/// The set of unsupported features met while importing, one bit per flag.
#[derive(Clone, Copy, Debug, PartialEq, Eq, Structural)]
pub struct BuildResultFlags {
    pub bits: u16,
}

/// Whether bit `i` of `bits` is set.
pub open spec fn has_bit(bits: u16, i: u16) -> bool {
    (bits >> i) & 1u16 == 1u16
}

/// `bits` with every flag of `flags` added, first to last.
pub open spec fn or_all(bits: u16, flags: Seq<u16>) -> u16
    decreases flags.len(),
{
    if flags.len() == 0 {
        bits
    } else {
        or_all(bits, flags.drop_last()) | flags.last()
    }
}

/// How a flag is written when the flags are described.
pub open spec fn flag_name(bit: int) -> Seq<char> {
    if bit == 0 {
        "<clipPath>"@
    } else if bit == 1 {
        "<defs>"@
    } else if bit == 2 {
        "<filter>"@
    } else if bit == 3 {
        "<image>"@
    } else if bit == 4 {
        "<linearGradient>"@
    } else if bit == 5 {
        "<mask>"@
    } else if bit == 6 {
        "<pattern>"@
    } else if bit == 7 {
        "<radialGradient>"@
    } else if bit == 8 {
        "nested <svg>"@
    } else if bit == 9 {
        "<text>"@
    } else if bit == 10 {
        "paint server element"@
    } else if bit == 11 {
        "clip-path attribute"@
    } else if bit == 12 {
        "filter attribute"@
    } else if bit == 13 {
        "mask attribute"@
    } else {
        "opacity attribute"@
    }
}

/// The names of the flags set in `bits` among the first `count`, in bit
/// order.
pub open spec fn set_flag_names(bits: u16, count: int) -> Seq<Seq<char>>
    decreases count,
{
    if count <= 0 {
        seq![]
    } else if has_bit(bits, (count - 1) as u16) {
        set_flag_names(bits, count - 1).push(flag_name(count - 1))
    } else {
        set_flag_names(bits, count - 1)
    }
}

/// The names separated by `", "`.
pub open spec fn joined(names: Seq<Seq<char>>) -> Seq<char>
    decreases names.len(),
{
    if names.len() == 0 {
        seq![]
    } else if names.len() == 1 {
        names[0]
    } else {
        joined(names.drop_last()) + ", "@ + names.last()
    }
}

fn flag_name_str(bit: u16) -> (s: &'static str)
    requires
        bit < FLAG_COUNT,
    ensures
        s@ == flag_name(bit as int),
{
    match bit {
        0 => "<clipPath>",
        1 => "<defs>",
        2 => "<filter>",
        3 => "<image>",
        4 => "<linearGradient>",
        5 => "<mask>",
        6 => "<pattern>",
        7 => "<radialGradient>",
        8 => "nested <svg>",
        9 => "<text>",
        10 => "paint server element",
        11 => "clip-path attribute",
        12 => "filter attribute",
        13 => "mask attribute",
        _ => "opacity attribute",
    }
}

impl BuildResultFlags {
    /// No flag set.
    pub fn empty() -> (f: BuildResultFlags)
        ensures
            f.bits == 0,
    {
        BuildResultFlags { bits: 0 }
    }

    /// The bits of the set flags.
    pub fn bits(&self) -> (b: u16)
        ensures
            b == self.bits,
    {
        self.bits
    }

    /// Whether no flag is set.
    pub fn is_empty(&self) -> (b: bool)
        ensures
            b == (self.bits == 0),
    {
        self.bits == 0
    }

    /// Adds the flags of `flags`.
    pub fn insert(&mut self, flags: u16)
        ensures
            final(self).bits == old(self).bits | flags,
    {
        self.bits = self.bits | flags;
    }

    /// Whether every flag of `flags` is set.
    pub fn contains(&self, flags: u16) -> (b: bool)
        ensures
            b == (self.bits & flags == flags),
    {
        self.bits & flags == flags
    }

    /// The names of the set flags, in bit order, separated by `", "`; empty
    /// when no flag is set. This is how the flags are displayed.
    pub fn describe(&self) -> (s: String)
        ensures
            s@ == joined(set_flag_names(self.bits, FLAG_COUNT as int)),
    {
        let mut s = String::new();
        let mut first = true;
        let mut bit: u16 = 0;
        while bit < FLAG_COUNT
            invariant
                bit <= FLAG_COUNT,
                s@ == joined(set_flag_names(self.bits, bit as int)),
                first == (set_flag_names(self.bits, bit as int).len() == 0),
            decreases FLAG_COUNT - bit,
        {
            let ghost prev = set_flag_names(self.bits, bit as int);
            if (self.bits >> bit) & 1 == 1 {
                let name = flag_name_str(bit);
                let ghost names = prev.push(flag_name(bit as int));
                assert(names.drop_last() =~= prev);
                if !first {
                    s.append(", ");
                } else {
                    assert(s@ =~= Seq::<char>::empty());
                }
                s.append(name);
                first = false;
                assert(set_flag_names(self.bits, bit as int + 1) == names);
            }
            bit = bit + 1;
        }
        s
    }
}

/// An sRGB color as an SVG document gives it.
#[derive(Clone, Copy, Debug, PartialEq, Eq, Structural)]
pub struct SvgColor {
    pub red: u8,
    pub green: u8,
    pub blue: u8,
}

/// How an SVG shape is painted: with a color, or through a paint server
/// (a gradient or pattern element).
#[derive(Clone, Copy, Debug, PartialEq, Eq, Structural)]
pub enum SvgPaint {
    Color(SvgColor),
    Link,
}

/// The paint of a path object.
#[derive(Clone, Copy, Debug, PartialEq, Eq, Structural)]
pub struct Paint {
    pub color: ColorU,
}

/// Whether a path object fills its outline or strokes it.
#[derive(Clone, Copy, Debug, PartialEq, Eq, Structural)]
pub enum PathObjectKind {
    Fill,
    Stroke,
}

/// A path object of the scene: its paint, its kind, and its name (the
/// identifier of the path it comes from).
#[derive(Clone, Debug, PartialEq, Eq)]
pub struct PathObject {
    pub paint: Paint,
    pub kind: PathObjectKind,
    pub name: String,
}

/// A path object as the contracts speak of it.
pub struct PathObjectView {
    pub paint: Paint,
    pub kind: PathObjectKind,
    pub name: Seq<char>,
}

impl View for PathObject {
    type V = PathObjectView;

    open spec fn view(&self) -> PathObjectView {
        PathObjectView { paint: self.paint, kind: self.kind, name: self.name@ }
    }
}

/// The views of path objects, in order.
pub open spec fn object_views(objects: Seq<PathObject>) -> Seq<PathObjectView> {
    objects.map_values(|o: PathObject| o@)
}

/// A node of an SVG document, with what the import rules read of it.
#[derive(Clone, Debug, PartialEq, Eq)]
pub enum SvgNode {
    /// A group, with whether each unsupported attribute is present.
    Group { clip_path: bool, filter: bool, mask: bool, opacity: bool },
    /// A path, with its identifier, its visibility and its fill and stroke
    /// paints.
    Path { id: String, visible: bool, fill: Option<SvgPaint>, stroke: Option<SvgPaint> },
    ClipPath,
    /// A `<defs>` element, with whether it has children.
    Defs { has_children: bool },
    Filter,
    Image,
    LinearGradient,
    Mask,
    Pattern,
    RadialGradient,
    /// A nested `<svg>` element.
    Svg,
    Text,
}

/// The color an SVG color is drawn with: its channels, fully opaque.
pub open spec fn drawn_color(c: SvgColor) -> ColorU {
    ColorU { r: c.red, g: c.green, b: c.blue, a: 255 }
}

/// The paint an SVG paint becomes; a paint server is drawn black.
pub open spec fn paint_of(p: SvgPaint) -> Paint {
    match p {
        SvgPaint::Color(c) => Paint { color: drawn_color(c) },
        SvgPaint::Link => Paint { color: ColorU { r: 0, g: 0, b: 0, a: 255 } },
    }
}

/// The flags converting an SVG paint raises.
pub open spec fn paint_flags(p: SvgPaint) -> Seq<u16> {
    match p {
        SvgPaint::Color(_) => seq![],
        SvgPaint::Link => seq![UNSUPPORTED_LINK_PAINT],
    }
}

/// The flags raised by a paint that may be absent.
pub open spec fn optional_paint_flags(p: Option<SvgPaint>) -> Seq<u16> {
    match p {
        Some(p) => paint_flags(p),
        None => seq![],
    }
}

/// The flag raised when `present` holds.
pub open spec fn flag_if(present: bool, flag: u16) -> Seq<u16> {
    if present {
        seq![flag]
    } else {
        seq![]
    }
}

/// The color a paint is drawn with: an SVG color's own channels, opaque;
/// black for a paint server.
pub open spec fn color_drawn_for(p: SvgPaint) -> ColorU {
    match p {
        SvgPaint::Color(c) => ColorU { r: c.red, g: c.green, b: c.blue, a: 255 },
        SvgPaint::Link => ColorU { r: 0, g: 0, b: 0, a: 255 },
    }
}

/// A visible path yields its fill object, then its stroke object, each
/// named after the path and painted with its own paint: the stroke object's
/// color depends on the stroke paint alone, whatever the fill. An invisible
/// path yields nothing.
pub proof fn lemma_path_objects(id: String, visible: bool, fill: Option<SvgPaint>, stroke: Option<SvgPaint>)
    ensures
        ({
            let objects = node_objects(SvgNode::Path { id, visible, fill, stroke });
            &&& !visible ==> objects.len() == 0
            &&& visible ==> objects.len() == (if fill is Some { 1int } else { 0int }) + (if stroke is Some {
                1int
            } else {
                0int
            })
            &&& visible && fill is Some ==> objects[0] == (PathObjectView {
                paint: Paint { color: color_drawn_for(fill->0) },
                kind: PathObjectKind::Fill,
                name: id@,
            })
            &&& visible && stroke is Some ==> objects.last() == (PathObjectView {
                paint: Paint { color: color_drawn_for(stroke->0) },
                kind: PathObjectKind::Stroke,
                name: id@,
            })
        }),
{
}

/// The flags a node raises, in the order the import raises them.
pub open spec fn node_flags(node: SvgNode) -> Seq<u16> {
    match node {
        SvgNode::Group { clip_path, filter, mask, opacity } => flag_if(
            clip_path,
            UNSUPPORTED_CLIP_PATH_ATTR,
        ) + flag_if(filter, UNSUPPORTED_FILTER_ATTR) + flag_if(mask, UNSUPPORTED_MASK_ATTR)
            + flag_if(opacity, UNSUPPORTED_OPACITY_ATTR),
        SvgNode::Path { visible, fill, stroke, .. } => if visible {
            optional_paint_flags(fill) + optional_paint_flags(stroke)
        } else {
            seq![]
        },
        SvgNode::ClipPath => seq![UNSUPPORTED_CLIP_PATH_NODE],
        SvgNode::Defs { has_children } => flag_if(has_children, UNSUPPORTED_DEFS_NODE),
        SvgNode::Filter => seq![UNSUPPORTED_FILTER_NODE],
        SvgNode::Image => seq![UNSUPPORTED_IMAGE_NODE],
        SvgNode::LinearGradient => seq![UNSUPPORTED_LINEAR_GRADIENT_NODE],
        SvgNode::Mask => seq![UNSUPPORTED_MASK_NODE],
        SvgNode::Pattern => seq![UNSUPPORTED_PATTERN_NODE],
        SvgNode::RadialGradient => seq![UNSUPPORTED_RADIAL_GRADIENT_NODE],
        SvgNode::Svg => seq![UNSUPPORTED_NESTED_SVG_NODE],
        SvgNode::Text => seq![UNSUPPORTED_TEXT_NODE],
    }
}

/// The path object named `name` that a paint that may be absent yields.
pub open spec fn optional_object(p: Option<SvgPaint>, kind: PathObjectKind, name: Seq<char>) -> Seq<PathObjectView> {
    match p {
        Some(p) => seq![PathObjectView { paint: paint_of(p), kind, name }],
        None => seq![],
    }
}

/// The path objects a node yields: a visible path yields its fill, then
/// its stroke, both named after the path; nothing else yields any.
pub open spec fn node_objects(node: SvgNode) -> Seq<PathObjectView> {
    match node {
        SvgNode::Path { id, visible, fill, stroke } => if visible {
            optional_object(fill, PathObjectKind::Fill, id@) + optional_object(
                stroke,
                PathObjectKind::Stroke,
                id@,
            )
        } else {
            seq![]
        },
        _ => seq![],
    }
}

/// The flags the nodes raise, node after node.
pub open spec fn nodes_flags(nodes: Seq<SvgNode>) -> Seq<u16>
    decreases nodes.len(),
{
    if nodes.len() == 0 {
        seq![]
    } else {
        nodes_flags(nodes.drop_last()) + node_flags(nodes.last())
    }
}

/// The path objects the nodes yield, node after node.
pub open spec fn nodes_objects(nodes: Seq<SvgNode>) -> Seq<PathObjectView>
    decreases nodes.len(),
{
    if nodes.len() == 0 {
        seq![]
    } else {
        nodes_objects(nodes.drop_last()) + node_objects(nodes.last())
    }
}

/// Adding the flags of `a + b` adds those of `a`, then those of `b`.
pub proof fn lemma_or_all_concat(bits: u16, a: Seq<u16>, b: Seq<u16>)
    ensures
        or_all(bits, a + b) == or_all(or_all(bits, a), b),
    decreases b.len(),
{
    if b.len() == 0 {
        assert(a + b =~= a);
    } else {
        assert((a + b).drop_last() =~= a + b.drop_last());
        lemma_or_all_concat(bits, a, b.drop_last());
    }
}

/// The flag of bit `i`.
pub open spec fn flag_bit(i: u16) -> u16 {
    1u16 << i
}

/// Whether `f` is one of the import's flags.
pub open spec fn is_flag(f: u16) -> bool {
    exists|i: u16| i < FLAG_COUNT && f == flag_bit(i)
}

proof fn lemma_has_bit_or(a: u16, c: u16, i: u16)
    requires
        i < 16,
    ensures
        has_bit(a | c, i) == (has_bit(a, i) || has_bit(c, i)),
{
    assert(((a | c) >> i) & 1u16 == 1u16 <==> ((a >> i) & 1u16 == 1u16 || (c >> i) & 1u16
        == 1u16)) by (bit_vector)
        requires
            i < 16,
    ;
}

proof fn lemma_flag_bits(i: u16, j: u16)
    requires
        i < 16,
        j < 16,
    ensures
        has_bit(flag_bit(j), i) == (i == j),
{
    assert((((1u16 << j) >> i) & 1u16 == 1u16) == (i == j)) by (bit_vector)
        requires
            i < 16,
            j < 16,
    ;
}

/// Adding flags never clears one: after adding `flags` to `bits`, bit `i`
/// is set exactly when it was set before or one of the added flags has it.
pub proof fn lemma_or_all_bits(bits: u16, flags: Seq<u16>, i: u16)
    requires
        i < 16,
    ensures
        has_bit(or_all(bits, flags), i) <==> (has_bit(bits, i) || exists|j: int|
            0 <= j < flags.len() && #[trigger] has_bit(flags[j], i)),
    decreases flags.len(),
{
    if flags.len() > 0 {
        let rest = flags.drop_last();
        lemma_or_all_bits(bits, rest, i);
        lemma_has_bit_or(or_all(bits, rest), flags.last(), i);
        if exists|j: int| 0 <= j < rest.len() && #[trigger] has_bit(rest[j], i) {
            let j = choose|j: int| 0 <= j < rest.len() && #[trigger] has_bit(rest[j], i);
            assert(has_bit(flags[j], i));
        }
        if exists|j: int| 0 <= j < flags.len() && #[trigger] has_bit(flags[j], i) {
            let j = choose|j: int| 0 <= j < flags.len() && #[trigger] has_bit(flags[j], i);
            if j < flags.len() - 1 {
                assert(has_bit(rest[j], i));
            }
        }
    }
}

proof fn lemma_constants_are_flags()
    ensures
        UNSUPPORTED_CLIP_PATH_NODE == flag_bit(0),
        UNSUPPORTED_DEFS_NODE == flag_bit(1),
        UNSUPPORTED_FILTER_NODE == flag_bit(2),
        UNSUPPORTED_IMAGE_NODE == flag_bit(3),
        UNSUPPORTED_LINEAR_GRADIENT_NODE == flag_bit(4),
        UNSUPPORTED_MASK_NODE == flag_bit(5),
        UNSUPPORTED_PATTERN_NODE == flag_bit(6),
        UNSUPPORTED_RADIAL_GRADIENT_NODE == flag_bit(7),
        UNSUPPORTED_NESTED_SVG_NODE == flag_bit(8),
        UNSUPPORTED_TEXT_NODE == flag_bit(9),
        UNSUPPORTED_LINK_PAINT == flag_bit(10),
        UNSUPPORTED_CLIP_PATH_ATTR == flag_bit(11),
        UNSUPPORTED_FILTER_ATTR == flag_bit(12),
        UNSUPPORTED_MASK_ATTR == flag_bit(13),
        UNSUPPORTED_OPACITY_ATTR == flag_bit(14),
{
    assert(1u16 << 0u16 == 0x0001u16) by (bit_vector);
    assert(1u16 << 1u16 == 0x0002u16) by (bit_vector);
    assert(1u16 << 2u16 == 0x0004u16) by (bit_vector);
    assert(1u16 << 3u16 == 0x0008u16) by (bit_vector);
    assert(1u16 << 4u16 == 0x0010u16) by (bit_vector);
    assert(1u16 << 5u16 == 0x0020u16) by (bit_vector);
    assert(1u16 << 6u16 == 0x0040u16) by (bit_vector);
    assert(1u16 << 7u16 == 0x0080u16) by (bit_vector);
    assert(1u16 << 8u16 == 0x0100u16) by (bit_vector);
    assert(1u16 << 9u16 == 0x0200u16) by (bit_vector);
    assert(1u16 << 10u16 == 0x0400u16) by (bit_vector);
    assert(1u16 << 11u16 == 0x0800u16) by (bit_vector);
    assert(1u16 << 12u16 == 0x1000u16) by (bit_vector);
    assert(1u16 << 13u16 == 0x2000u16) by (bit_vector);
    assert(1u16 << 14u16 == 0x4000u16) by (bit_vector);
}

proof fn lemma_node_flags_are_flags(node: SvgNode)
    ensures
        forall|j: int| 0 <= j < node_flags(node).len() ==> is_flag(#[trigger] node_flags(node)[j]),
{
    lemma_constants_are_flags();
    assert(is_flag(flag_bit(0)) && is_flag(flag_bit(1)) && is_flag(flag_bit(2)) && is_flag(
        flag_bit(3),
    ) && is_flag(flag_bit(4)) && is_flag(flag_bit(5)) && is_flag(flag_bit(6)) && is_flag(
        flag_bit(7),
    ) && is_flag(flag_bit(8)) && is_flag(flag_bit(9)) && is_flag(flag_bit(10)) && is_flag(
        flag_bit(11),
    ) && is_flag(flag_bit(12)) && is_flag(flag_bit(13)) && is_flag(flag_bit(14)));
    match node {
        SvgNode::Group { clip_path, filter, mask, opacity } => {
            let f1 = flag_if(clip_path, UNSUPPORTED_CLIP_PATH_ATTR);
            let f2 = flag_if(filter, UNSUPPORTED_FILTER_ATTR);
            let f3 = flag_if(mask, UNSUPPORTED_MASK_ATTR);
            let f4 = flag_if(opacity, UNSUPPORTED_OPACITY_ATTR);
            assert forall|j: int| 0 <= j < node_flags(node).len() implies is_flag(
                #[trigger] node_flags(node)[j],
            ) by {
                let all = f1 + f2 + f3 + f4;
                assert(node_flags(node) == all);
                assert(all[j] == UNSUPPORTED_CLIP_PATH_ATTR || all[j] == UNSUPPORTED_FILTER_ATTR
                    || all[j] == UNSUPPORTED_MASK_ATTR || all[j] == UNSUPPORTED_OPACITY_ATTR);
            }
        },
        SvgNode::Path { visible, fill, stroke, .. } => {
            assert forall|j: int| 0 <= j < node_flags(node).len() implies is_flag(
                #[trigger] node_flags(node)[j],
            ) by {
                let all = optional_paint_flags(fill) + optional_paint_flags(stroke);
                assert(visible && node_flags(node) == all);
                assert(all[j] == UNSUPPORTED_LINK_PAINT);
            }
        },
        _ => {},
    }
}

proof fn lemma_nodes_flags_are_flags(nodes: Seq<SvgNode>)
    ensures
        forall|j: int| 0 <= j < nodes_flags(nodes).len() ==> is_flag(#[trigger] nodes_flags(nodes)[j]),
    decreases nodes.len(),
{
    if nodes.len() > 0 {
        lemma_nodes_flags_are_flags(nodes.drop_last());
        lemma_node_flags_are_flags(nodes.last());
        let a = nodes_flags(nodes.drop_last());
        let b = node_flags(nodes.last());
        assert forall|j: int| 0 <= j < nodes_flags(nodes).len() implies is_flag(
            #[trigger] nodes_flags(nodes)[j],
        ) by {
            if j < a.len() {
                assert(nodes_flags(nodes)[j] == a[j]);
            } else {
                assert(nodes_flags(nodes)[j] == b[j - a.len()]);
            }
        }
    }
}

/// An import reports exactly what it met: after importing `nodes`, flag
/// `i` is set if and only if some node raised it.
pub proof fn lemma_import_reports_exactly(nodes: Seq<SvgNode>, i: u16)
    requires
        i < FLAG_COUNT,
    ensures
        has_bit(or_all(0, nodes_flags(nodes)), i) <==> nodes_flags(nodes).contains(flag_bit(i)),
{
    let flags = nodes_flags(nodes);
    lemma_or_all_bits(0, flags, i);
    lemma_nodes_flags_are_flags(nodes);
    assert(!has_bit(0, i)) by (bit_vector);
    if flags.contains(flag_bit(i)) {
        let j = choose|j: int| 0 <= j < flags.len() && flags[j] == flag_bit(i);
        lemma_flag_bits(i, i);
        assert(has_bit(flags[j], i));
    }
    if exists|j: int| 0 <= j < flags.len() && #[trigger] has_bit(flags[j], i) {
        let j = choose|j: int| 0 <= j < flags.len() && #[trigger] has_bit(flags[j], i);
        assert(is_flag(flags[j]));
        let k = choose|k: u16| k < FLAG_COUNT && flags[j] == flag_bit(k);
        lemma_flag_bits(i, k);
        assert(flags[j] == flag_bit(i));
    }
}

impl ColorU {
    /// The color an SVG color is drawn with: its channels, fully opaque.
    pub fn from_svg_color(svg_color: SvgColor) -> (c: ColorU)
        ensures
            c == drawn_color(svg_color),
    {
        ColorU { r: svg_color.red, g: svg_color.green, b: svg_color.blue, a: 255 }
    }
}

impl Paint {
    /// Converts an SVG paint. A paint server is not supported: it is drawn
    /// black and reported.
    pub fn from_svg_paint(svg_paint: &SvgPaint, result_flags: &mut BuildResultFlags) -> (p: Paint)
        ensures
            p == paint_of(*svg_paint),
            final(result_flags).bits == or_all(old(result_flags).bits, paint_flags(*svg_paint)),
    {
        let paint = match *svg_paint {
            SvgPaint::Color(color) => Paint { color: ColorU::from_svg_color(color) },
            SvgPaint::Link => Paint { color: ColorU::black() },
        };
        if paint_is_link(svg_paint) {
            result_flags.insert(UNSUPPORTED_LINK_PAINT);
            assert(seq![UNSUPPORTED_LINK_PAINT].drop_last() =~= Seq::<u16>::empty());
            assert(or_all(old(result_flags).bits, Seq::<u16>::empty()) == old(result_flags).bits);
            assert(paint_flags(*svg_paint) == seq![UNSUPPORTED_LINK_PAINT]);
        } else {
            assert(paint_flags(*svg_paint).len() == 0);
            assert(or_all(old(result_flags).bits, paint_flags(*svg_paint)) == old(result_flags).bits);
        }
        paint
    }
}

fn paint_is_link(p: &SvgPaint) -> (b: bool)
    ensures
        b == (*p is Link),
{
    match p {
        SvgPaint::Color(_) => false,
        SvgPaint::Link => true,
    }
}

/// The result of importing an SVG document: its path objects and the
/// unsupported features met.
#[derive(Clone, Debug)]
pub struct BuiltSVG {
    pub objects: Vec<PathObject>,
    pub result_flags: BuildResultFlags,
}

fn insert_if(flags: &mut BuildResultFlags, present: bool, flag: u16)
    ensures
        final(flags).bits == or_all(old(flags).bits, flag_if(present, flag)),
{
    if present {
        let ghost before = flags.bits;
        flags.insert(flag);
        assert(seq![flag].drop_last() =~= Seq::<u16>::empty());
        assert(or_all(before, Seq::<u16>::empty()) == before);
        assert(flags.bits == or_all(before, seq![flag]));
    } else {
        assert(flag_if(present, flag).len() == 0);
        assert(flags.bits == or_all(flags.bits, flag_if(present, flag)));
    }
}

fn insert_group_flags(
    flags: &mut BuildResultFlags,
    clip_path: bool,
    filter: bool,
    mask: bool,
    opacity: bool,
)
    ensures
        final(flags).bits == or_all(
            old(flags).bits,
            flag_if(clip_path, UNSUPPORTED_CLIP_PATH_ATTR) + flag_if(filter, UNSUPPORTED_FILTER_ATTR)
                + flag_if(mask, UNSUPPORTED_MASK_ATTR) + flag_if(opacity, UNSUPPORTED_OPACITY_ATTR),
        ),
{
    let ghost b1 = flags.bits;
    insert_if(flags, clip_path, UNSUPPORTED_CLIP_PATH_ATTR);
    insert_if(flags, filter, UNSUPPORTED_FILTER_ATTR);
    insert_if(flags, mask, UNSUPPORTED_MASK_ATTR);
    insert_if(flags, opacity, UNSUPPORTED_OPACITY_ATTR);
    proof {
        let f1 = flag_if(clip_path, UNSUPPORTED_CLIP_PATH_ATTR);
        let f2 = flag_if(filter, UNSUPPORTED_FILTER_ATTR);
        let f3 = flag_if(mask, UNSUPPORTED_MASK_ATTR);
        let f4 = flag_if(opacity, UNSUPPORTED_OPACITY_ATTR);
        lemma_or_all_concat(b1, f1, f2);
        lemma_or_all_concat(b1, f1 + f2, f3);
        lemma_or_all_concat(b1, f1 + f2 + f3, f4);
    }
}

impl BuiltSVG {
    /// Imports one node: raises the node's flags and appends the path
    /// objects it yields.
    pub fn process_node(&mut self, node: &SvgNode)
        ensures
            final(self).result_flags.bits == or_all(old(self).result_flags.bits, node_flags(*node)),
            object_views(final(self).objects@) == object_views(old(self).objects@) + node_objects(*node),
    {
        let ghost bits0 = self.result_flags.bits;
        match node {
            SvgNode::Path { id, visible, fill, stroke } => {
                if *visible {
                    let ghost b1 = self.result_flags.bits;
                    let ghost o1 = self.objects@;
                    match fill {
                        Some(paint) => {
                            let p = Paint::from_svg_paint(paint, &mut self.result_flags);
                            self.objects.push(PathObject { paint: p, kind: PathObjectKind::Fill, name: id.clone() });
                        },
                        None => {
                            assert(or_all(b1, seq![]) == b1);
                        },
                    }
                    let ghost b2 = self.result_flags.bits;
                    assert(object_views(self.objects@) =~= object_views(o1) + optional_object(*fill, PathObjectKind::Fill, id@));
                    let ghost o2 = self.objects@;
                    match stroke {
                        Some(paint) => {
                            let p = Paint::from_svg_paint(paint, &mut self.result_flags);
                            self.objects.push(PathObject { paint: p, kind: PathObjectKind::Stroke, name: id.clone() });
                        },
                        None => {
                            assert(or_all(b2, seq![]) == b2);
                        },
                    }
                    proof {
                        lemma_or_all_concat(
                            b1,
                            optional_paint_flags(*fill),
                            optional_paint_flags(*stroke),
                        );
                    }
                    assert(object_views(self.objects@) =~= object_views(o2) + optional_object(*stroke, PathObjectKind::Stroke, id@));
                    assert(object_views(self.objects@) =~= object_views(old(self).objects@) + node_objects(*node));
                } else {
                    assert(or_all(bits0, seq![]) == bits0);
                    assert(object_views(self.objects@) =~= object_views(old(self).objects@) + node_objects(*node));
                }
            },
            SvgNode::Group { clip_path, filter, mask, opacity } => {
                let (c, f, m, o) = (*clip_path, *filter, *mask, *opacity);
                insert_group_flags(&mut self.result_flags, c, f, m, o);
                assert(object_views(self.objects@) =~= object_views(old(self).objects@) + node_objects(*node));
            },
            SvgNode::Defs { has_children } => {
                insert_if(&mut self.result_flags, *has_children, UNSUPPORTED_DEFS_NODE);
                assert(object_views(self.objects@) =~= object_views(old(self).objects@) + node_objects(*node));
            },
            _ => {
                let flag = match node {
                    SvgNode::ClipPath => UNSUPPORTED_CLIP_PATH_NODE,
                    SvgNode::Filter => UNSUPPORTED_FILTER_NODE,
                    SvgNode::Image => UNSUPPORTED_IMAGE_NODE,
                    SvgNode::LinearGradient => UNSUPPORTED_LINEAR_GRADIENT_NODE,
                    SvgNode::Mask => UNSUPPORTED_MASK_NODE,
                    SvgNode::Pattern => UNSUPPORTED_PATTERN_NODE,
                    SvgNode::RadialGradient => UNSUPPORTED_RADIAL_GRADIENT_NODE,
                    SvgNode::Svg => UNSUPPORTED_NESTED_SVG_NODE,
                    _ => UNSUPPORTED_TEXT_NODE,
                };
                self.result_flags.insert(flag);
                assert(self.result_flags.bits == bits0 | flag);
                assert(seq![flag].drop_last() =~= Seq::<u16>::empty());
                assert(or_all(bits0, seq![flag]) == (or_all(bits0, Seq::<u16>::empty()) | flag));
                assert(node_flags(*node) == seq![flag]);
                assert(self.result_flags.bits == or_all(bits0, node_flags(*node)));
                assert(object_views(self.objects@) =~= object_views(old(self).objects@) + node_objects(*node));
            },
        }
    }

    /// Imports a document given as the nodes below its root `<svg>`
    /// element, in document order: the path objects are those the nodes
    /// yield, in order, and the flags those the nodes raise.
    pub fn from_nodes(nodes: &Vec<SvgNode>) -> (built: BuiltSVG)
        ensures
            built.result_flags.bits == or_all(0, nodes_flags(nodes@)),
            object_views(built.objects@) == nodes_objects(nodes@),
    {
        let mut built = BuiltSVG { objects: Vec::new(), result_flags: BuildResultFlags::empty() };
        let mut i: usize = 0;
        while i < nodes.len()
            invariant
                i <= nodes.len(),
                built.result_flags.bits == or_all(0, nodes_flags(nodes@.subrange(0, i as int))),
                object_views(built.objects@) == nodes_objects(nodes@.subrange(0, i as int)),
            decreases nodes.len() - i,
        {
            let ghost before = nodes@.subrange(0, i as int);
            built.process_node(&nodes[i]);
            proof {
                let after = nodes@.subrange(0, i + 1);
                assert(after.drop_last() =~= before);
                assert(after.last() == nodes@[i as int]);
                lemma_or_all_concat(0, nodes_flags(before), node_flags(nodes@[i as int]));
            }
            i = i + 1;
        }
        assert(nodes@.subrange(0, nodes.len() as int) =~= nodes@);
        built
    }
}

/// A node of an SVG document with its children, in document order.
#[derive(Debug)]
pub struct SvgTree {
    pub node: SvgNode,
    pub children: Vec<SvgTree>,
}

/// The nodes an import visits in a tree, in order: the node, then, when it
/// is a group, the trees of its children one after another. The children
/// of any other node are not visited.
pub open spec fn visited(tree: SvgTree) -> Seq<SvgNode>
    decreases tree,
{
    seq![tree.node] + if tree.node is Group {
        visited_forest(tree.children@)
    } else {
        Seq::<SvgNode>::empty()
    }
}

/// The nodes an import visits in a sequence of trees, tree after tree.
pub open spec fn visited_forest(trees: Seq<SvgTree>) -> Seq<SvgNode>
    decreases trees,
{
    if trees.len() == 0 {
        Seq::<SvgNode>::empty()
    } else {
        visited_forest(trees.subrange(0, trees.len() - 1)) + visited(trees[trees.len() - 1])
    }
}

/// The flags of two runs of nodes are those of the first, then those of
/// the second.
pub proof fn lemma_nodes_flags_concat(a: Seq<SvgNode>, b: Seq<SvgNode>)
    ensures
        nodes_flags(a + b) == nodes_flags(a) + nodes_flags(b),
        nodes_objects(a + b) == nodes_objects(a) + nodes_objects(b),
    decreases b.len(),
{
    if b.len() == 0 {
        assert(a + b =~= a);
        assert(nodes_flags(a) + nodes_flags(b) =~= nodes_flags(a));
        assert(nodes_objects(a) + nodes_objects(b) =~= nodes_objects(a));
    } else {
        lemma_nodes_flags_concat(a, b.drop_last());
        assert((a + b).drop_last() =~= a + b.drop_last());
        assert((a + b).last() == b.last());
        assert(nodes_flags(a + b) =~= nodes_flags(a) + nodes_flags(b));
        assert(nodes_objects(a + b) =~= nodes_objects(a) + nodes_objects(b));
    }
}

impl BuiltSVG {
    /// Imports a tree: its node, then, for a group, each child's tree in
    /// document order.
    pub fn process_tree(&mut self, tree: &SvgTree)
        ensures
            final(self).result_flags.bits == or_all(old(self).result_flags.bits, nodes_flags(visited(*tree))),
            object_views(final(self).objects@) == object_views(old(self).objects@) + nodes_objects(visited(*tree)),
        decreases tree,
    {
        let ghost bits0 = self.result_flags.bits;
        let ghost objects0 = object_views(self.objects@);
        self.process_node(&tree.node);
        proof {
            assert(nodes_flags(seq![tree.node]) =~= node_flags(tree.node)) by {
                assert(seq![tree.node].drop_last() =~= Seq::<SvgNode>::empty());
                assert(nodes_flags(Seq::<SvgNode>::empty()).len() == 0);
                assert(nodes_flags(seq![tree.node]) == nodes_flags(Seq::<SvgNode>::empty()) + node_flags(tree.node));
            }
            assert(nodes_objects(seq![tree.node]) =~= node_objects(tree.node)) by {
                assert(seq![tree.node].drop_last() =~= Seq::<SvgNode>::empty());
                assert(nodes_objects(Seq::<SvgNode>::empty()).len() == 0);
                assert(nodes_objects(seq![tree.node]) == nodes_objects(Seq::<SvgNode>::empty()) + node_objects(tree.node));
            }
        }
        let is_group = match tree.node {
            SvgNode::Group { .. } => true,
            _ => false,
        };
        if is_group {
            let mut i: usize = 0;
            while i < tree.children.len()
                invariant
                    is_group == tree.node is Group,
                    is_group,
                    i <= tree.children@.len(),
                    self.result_flags.bits == or_all(
                        bits0,
                        nodes_flags(seq![tree.node] + visited_forest(tree.children@.subrange(0, i as int))),
                    ),
                    object_views(self.objects@) == objects0 + nodes_objects(
                        seq![tree.node] + visited_forest(tree.children@.subrange(0, i as int)),
                    ),
                decreases tree.children@.len() - i,
            {
                let ghost head = seq![tree.node] + visited_forest(tree.children@.subrange(0, i as int));
                let ghost mid_bits = self.result_flags.bits;
                let ghost mid_objects = object_views(self.objects@);
                proof {
                    assert(decreases_to!(tree => tree.children@[i as int]));
                }
                self.process_tree(&tree.children[i]);
                proof {
                    let child = tree.children@[i as int];
                    let next = tree.children@.subrange(0, i + 1);
                    assert(next.subrange(0, next.len() - 1) =~= tree.children@.subrange(0, i as int));
                    assert(next[next.len() - 1] == child);
                    assert(seq![tree.node] + visited_forest(next) =~= head + visited(child));
                    lemma_nodes_flags_concat(head, visited(child));
                    lemma_or_all_concat(bits0, nodes_flags(head), nodes_flags(visited(child)));
                    assert(object_views(self.objects@) =~= objects0 + nodes_objects(head + visited(child)));
                }
                i = i + 1;
            }
            assert(tree.children@.subrange(0, tree.children@.len() as int) =~= tree.children@);
        } else {
            assert(visited(*tree) =~= seq![tree.node]);
            assert(object_views(self.objects@) =~= objects0 + nodes_objects(visited(*tree)));
        }
        proof {
            if is_group {
                assert(visited(*tree) =~= seq![tree.node] + visited_forest(tree.children@));
            }
            assert(or_all(bits0, Seq::<u16>::empty()) == bits0);
        }
    }

    /// Imports a document given as its tree, whose root is the `<svg>`
    /// element: each child of the root is imported in document order.
    pub fn from_tree(tree: &SvgTree) -> (built: BuiltSVG)
        requires
            tree.node is Svg,
        ensures
            built.result_flags.bits == or_all(0, nodes_flags(visited_forest(tree.children@))),
            object_views(built.objects@) == nodes_objects(visited_forest(tree.children@)),
    {
        let mut built = BuiltSVG { objects: Vec::new(), result_flags: BuildResultFlags::empty() };
        let mut i: usize = 0;
        assert(visited_forest(tree.children@.subrange(0, 0)) =~= Seq::<SvgNode>::empty());
        assert(object_views(built.objects@) =~= Seq::<PathObjectView>::empty());
        while i < tree.children.len()
            invariant
                i <= tree.children@.len(),
                built.result_flags.bits == or_all(0, nodes_flags(visited_forest(tree.children@.subrange(0, i as int)))),
                object_views(built.objects@) == nodes_objects(visited_forest(tree.children@.subrange(0, i as int))),
            decreases tree.children@.len() - i,
        {
            let ghost head = visited_forest(tree.children@.subrange(0, i as int));
            built.process_tree(&tree.children[i]);
            proof {
                let child = tree.children@[i as int];
                let next = tree.children@.subrange(0, i + 1);
                assert(next.subrange(0, next.len() - 1) =~= tree.children@.subrange(0, i as int));
                assert(next[next.len() - 1] == child);
                lemma_nodes_flags_concat(head, visited(child));
                lemma_or_all_concat(0, nodes_flags(head), nodes_flags(visited(child)));
            }
            i = i + 1;
        }
        assert(tree.children@.subrange(0, tree.children@.len() as int) =~= tree.children@);
        built
    }
}

} // verus!
