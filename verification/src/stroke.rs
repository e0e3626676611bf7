//! The decisions of converting a path's stroke into fills: which join is
//! drawn between offset segments and when joins and caps are added.
//!
//! The offset geometry itself is floating-point work outside the library;
//! what is decided here depends only on the style and on how many points a
//! contour holds.
use vstd::prelude::*;

verus! {

/// How the open ends of a stroked contour are drawn.
#[derive(Clone, Copy, Debug, PartialEq, Eq, Structural)]
pub enum LineCap {
    /// The stroke ends flush with the end point.
    Butt,
    /// The stroke extends half its width past the end point.
    Square,
}

/// How two stroked segments are joined.
#[derive(Clone, Copy, Debug, PartialEq, Eq, Structural)]
pub enum LineJoin {
    /// The offset edges are extended until they meet.
    Miter,
    /// The offset edges are connected directly.
    Bevel,
}

impl Default for LineCap {
    fn default() -> (cap: LineCap)
        ensures
            cap == LineCap::Butt,
    {
        LineCap::Butt
    }
}

impl Default for LineJoin {
    fn default() -> (join: LineJoin)
        ensures
            join == LineJoin::Miter,
    {
        LineJoin::Miter
    }
}

/// Whether a join is added before the next segment of a contour that holds
/// `contour_len` points: only miter joins are drawn, and only once the
/// contour has a previous segment (two points).
pub fn needs_join(join: LineJoin, contour_len: usize) -> (needed: bool)
    ensures
        needed == (join == LineJoin::Miter && contour_len >= 2),
{
    match join {
        LineJoin::Miter => contour_len >= 2,
        LineJoin::Bevel => false,
    }
}

/// The join drawn before the offset of the segment at `segment_index` when
/// a contour is offset in one direction: the first segment starts the
/// offset contour with a bevel, every later one with the style's join.
pub fn join_for_segment(segment_index: usize, join: LineJoin) -> (j: LineJoin)
    ensures
        j == if segment_index == 0 {
            LineJoin::Bevel
        } else {
            join
        },
{
    if segment_index == 0 {
        LineJoin::Bevel
    } else {
        join
    }
}

/// Whether a cap is added at the end of an open offset contour that holds
/// `contour_len` points: butt caps add nothing, and a cap needs the last
/// segment's direction (two points).
pub fn needs_cap(cap: LineCap, contour_len: usize) -> (needed: bool)
    ensures
        needed == (cap == LineCap::Square && contour_len >= 2),
{
    match cap {
        LineCap::Butt => false,
        LineCap::Square => contour_len >= 2,
    }
}

/// A step of stroking one contour.
#[derive(Clone, Copy, Debug, PartialEq, Eq, Structural)]
pub enum StrokeStep {
    /// Offset the contour's segments, first to last, into the output.
    OffsetForward,
    /// Offset the reversed segments, last to first, into the output.
    OffsetBackward,
    /// Add the style's cap at the output's end (when [`needs_cap`] says so).
    AddCap,
    /// Close the output and add it to the stroked outline; for a closed
    /// contour, first join its end to its start (when [`needs_join`] says
    /// so).
    PushContour { closed: bool },
    /// Start a new, empty output contour.
    RestartOutput,
}

/// The steps of stroking one contour.
pub open spec fn contour_steps(closed: bool) -> Seq<StrokeStep> {
    if closed {
        seq![
            StrokeStep::OffsetForward,
            StrokeStep::PushContour { closed: true },
            StrokeStep::RestartOutput,
            StrokeStep::OffsetBackward,
            StrokeStep::PushContour { closed: true },
        ]
    } else {
        seq![
            StrokeStep::OffsetForward,
            StrokeStep::AddCap,
            StrokeStep::OffsetBackward,
            StrokeStep::AddCap,
            StrokeStep::PushContour { closed: false },
        ]
    }
}

/// How many contours a run of steps adds to the stroked outline.
pub open spec fn pushes(steps: Seq<StrokeStep>) -> nat
    decreases steps.len(),
{
    if steps.len() == 0 {
        0
    } else {
        pushes(steps.drop_last()) + if steps.last() is PushContour {
            1nat
        } else {
            0nat
        }
    }
}

/// The number of contours an outline's stroke has, given whether each of
/// its contours is closed: two per closed contour, one per open one.
pub open spec fn stroked_count(closed: Seq<bool>) -> nat
    decreases closed.len(),
{
    if closed.len() == 0 {
        0
    } else {
        stroked_count(closed.drop_last()) + if closed.last() {
            2nat
        } else {
            1nat
        }
    }
}

/// Stroking a contour adds two contours to the outline when it is closed
/// and one when it is open; every contour added is closed.
pub proof fn lemma_contours_per_stroked_contour(closed: bool)
    ensures
        pushes(contour_steps(closed)) == if closed {
            2nat
        } else {
            1nat
        },
        forall|i: int|
            0 <= i < contour_steps(closed).len() && contour_steps(closed)[i] is PushContour
                ==> #[trigger] contour_steps(closed)[i] == (StrokeStep::PushContour { closed }),
{
    let steps = contour_steps(closed);
    reveal_with_fuel(pushes, 6);
    assert(steps.drop_last().drop_last().drop_last().drop_last().drop_last() =~= Seq::<StrokeStep>::empty());
}

/// The number of contours the stroke of an outline has, given whether each
/// of its contours is closed: each contour is stroked as
/// [`contour_stroke_steps`] says.
pub fn stroked_contour_count(closed: &Vec<bool>) -> (count: usize)
    requires
        2 * closed@.len() <= usize::MAX,
    ensures
        count == stroked_count(closed@),
{
    let mut count: usize = 0;
    let mut i: usize = 0;
    while i < closed.len()
        invariant
            i <= closed@.len(),
            2 * closed@.len() <= usize::MAX,
            count == stroked_count(closed@.subrange(0, i as int)),
            count <= 2 * i,
        decreases closed@.len() - i,
    {
        proof {
            let next = closed@.subrange(0, i + 1);
            assert(next.drop_last() =~= closed@.subrange(0, i as int));
        }
        count = count + if closed[i] {
            2
        } else {
            1
        };
        i = i + 1;
    }
    assert(closed@.subrange(0, closed@.len() as int) =~= closed@);
    count
}

/// How one contour is stroked: a closed contour becomes two closed
/// contours, its outer and inner edges; an open one becomes a single
/// contour around it, capped at both ends.
pub fn contour_stroke_steps(closed: bool) -> (steps: Vec<StrokeStep>)
    ensures
        steps@ == contour_steps(closed),
{
    let mut steps = vec![StrokeStep::OffsetForward];
    if closed {
        steps.push(StrokeStep::PushContour { closed: true });
        steps.push(StrokeStep::RestartOutput);
    } else {
        steps.push(StrokeStep::AddCap);
    }
    steps.push(StrokeStep::OffsetBackward);
    if !closed {
        steps.push(StrokeStep::AddCap);
    }
    steps.push(StrokeStep::PushContour { closed });
    assert(steps@ =~= contour_steps(closed));
    steps
}

} // verus!
