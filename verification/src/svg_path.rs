//! Turning an SVG path's commands into outline segments: which points each
//! segment joins, whether it is a line or a cubic curve, and which
//! segments start or close a subpath.
//!
//! Points are named by identifiers; their coordinates (floating point) are
//! kept by the caller, which also names the origin, where a path that does
//! not begin with a move starts.
use vstd::prelude::*;

verus! {

/// A command of an SVG path, its points given by identifier.
#[derive(Clone, Copy, Debug, PartialEq, Eq, Structural)]
pub enum PathCommand {
    MoveTo(u32),
    LineTo(u32),
    CurveTo { ctrl0: u32, ctrl1: u32, to: u32 },
    ClosePath,
}

/// The shape of a segment: a line, or a cubic curve with two control points.
#[derive(Clone, Copy, Debug, PartialEq, Eq, Structural)]
pub enum SegmentKind {
    Line,
    Cubic { ctrl0: u32, ctrl1: u32 },
}

/// A segment of an outline: its shape, its end points, and whether it
/// starts a subpath or closes one.
#[derive(Clone, Copy, Debug, PartialEq, Eq, Structural)]
pub struct PathSegment {
    pub kind: SegmentKind,
    pub from: u32,
    pub to: u32,
    pub first_in_subpath: bool,
    pub closes_subpath: bool,
}

/// Where the conversion stands: the first point of the current subpath,
/// the point the last segment ended at, and whether the last command was a
/// move.
#[derive(Clone, Copy, Debug, PartialEq, Eq, Structural)]
pub struct PathToSegments {
    pub first_subpath_point: u32,
    pub last_subpath_point: u32,
    pub just_moved: bool,
}

/// The state before the first command: both points at `origin`, no move
/// yet.
pub open spec fn start_state(origin: u32) -> PathToSegments {
    PathToSegments { first_subpath_point: origin, last_subpath_point: origin, just_moved: false }
}

/// What a command does: the next state and the segment it yields, if any.
/// A move yields none; a line or curve runs from the last point to its end
/// point and starts a subpath right after a move; a close runs back to the
/// subpath's first point.
pub open spec fn step_of(state: PathToSegments, command: PathCommand) -> (PathToSegments, Option<PathSegment>) {
    match command {
        PathCommand::MoveTo(to) => (
            PathToSegments { first_subpath_point: to, last_subpath_point: to, just_moved: true },
            None,
        ),
        PathCommand::LineTo(to) => (
            PathToSegments { last_subpath_point: to, just_moved: false, ..state },
            Some(
                PathSegment {
                    kind: SegmentKind::Line,
                    from: state.last_subpath_point,
                    to,
                    first_in_subpath: state.just_moved,
                    closes_subpath: false,
                },
            ),
        ),
        PathCommand::CurveTo { ctrl0, ctrl1, to } => (
            PathToSegments { last_subpath_point: to, just_moved: false, ..state },
            Some(
                PathSegment {
                    kind: SegmentKind::Cubic { ctrl0, ctrl1 },
                    from: state.last_subpath_point,
                    to,
                    first_in_subpath: state.just_moved,
                    closes_subpath: false,
                },
            ),
        ),
        PathCommand::ClosePath => (
            PathToSegments {
                last_subpath_point: state.first_subpath_point,
                just_moved: false,
                ..state
            },
            Some(
                PathSegment {
                    kind: SegmentKind::Line,
                    from: state.last_subpath_point,
                    to: state.first_subpath_point,
                    first_in_subpath: false,
                    closes_subpath: true,
                },
            ),
        ),
    }
}

/// The state after the commands, starting from `state`.
pub open spec fn state_after(state: PathToSegments, commands: Seq<PathCommand>) -> PathToSegments
    decreases commands.len(),
{
    if commands.len() == 0 {
        state
    } else {
        step_of(state_after(state, commands.drop_last()), commands.last()).0
    }
}

/// The segments the commands yield, in order, starting from `state`.
pub open spec fn segments_of(state: PathToSegments, commands: Seq<PathCommand>) -> Seq<PathSegment>
    decreases commands.len(),
{
    if commands.len() == 0 {
        seq![]
    } else {
        let before = segments_of(state, commands.drop_last());
        match step_of(state_after(state, commands.drop_last()), commands.last()).1 {
            Some(segment) => before.push(segment),
            None => before,
        }
    }
}

/// The number of commands that draw (all but moves).
pub open spec fn drawing_commands(commands: Seq<PathCommand>) -> nat
    decreases commands.len(),
{
    if commands.len() == 0 {
        0
    } else {
        drawing_commands(commands.drop_last()) + if commands.last() is MoveTo {
            0nat
        } else {
            1nat
        }
    }
}

impl PathToSegments {
    /// The state before the first command: both points at `origin`, no
    /// move yet.
    pub fn new(origin: u32) -> (state: PathToSegments)
        ensures
            state == start_state(origin),
    {
        PathToSegments { first_subpath_point: origin, last_subpath_point: origin, just_moved: false }
    }

    /// Takes one command and yields its segment, if it has one.
    pub fn step(&mut self, command: PathCommand) -> (segment: Option<PathSegment>)
        ensures
            (*final(self), segment) == step_of(*old(self), command),
    {
        match command {
            PathCommand::MoveTo(to) => {
                self.first_subpath_point = to;
                self.last_subpath_point = to;
                self.just_moved = true;
                None
            },
            PathCommand::LineTo(to) => {
                let segment = PathSegment {
                    kind: SegmentKind::Line,
                    from: self.last_subpath_point,
                    to,
                    first_in_subpath: self.just_moved,
                    closes_subpath: false,
                };
                self.last_subpath_point = to;
                self.just_moved = false;
                Some(segment)
            },
            PathCommand::CurveTo { ctrl0, ctrl1, to } => {
                let segment = PathSegment {
                    kind: SegmentKind::Cubic { ctrl0, ctrl1 },
                    from: self.last_subpath_point,
                    to,
                    first_in_subpath: self.just_moved,
                    closes_subpath: false,
                };
                self.last_subpath_point = to;
                self.just_moved = false;
                Some(segment)
            },
            PathCommand::ClosePath => {
                let segment = PathSegment {
                    kind: SegmentKind::Line,
                    from: self.last_subpath_point,
                    to: self.first_subpath_point,
                    first_in_subpath: false,
                    closes_subpath: true,
                };
                self.just_moved = false;
                self.last_subpath_point = self.first_subpath_point;
                Some(segment)
            },
        }
    }
}

/// The segments of a whole path whose points start at `origin`.
pub fn path_to_segments(commands: &Vec<PathCommand>, origin: u32) -> (segments: Vec<PathSegment>)
    ensures
        segments@ == segments_of(start_state(origin), commands@),
{
    let mut state = PathToSegments::new(origin);
    let ghost start = state;
    let mut segments: Vec<PathSegment> = Vec::new();
    let mut i: usize = 0;
    while i < commands.len()
        invariant
            i <= commands.len(),
            start == start_state(origin),
            state == state_after(start, commands@.subrange(0, i as int)),
            segments@ == segments_of(start, commands@.subrange(0, i as int)),
        decreases commands.len() - i,
    {
        let ghost prefix = commands@.subrange(0, i + 1);
        assert(prefix.drop_last() =~= commands@.subrange(0, i as int));
        match state.step(commands[i]) {
            Some(segment) => segments.push(segment),
            None => {},
        }
        i = i + 1;
    }
    assert(commands@.subrange(0, commands.len() as int) =~= commands@);
    segments
}

/// Every command but a move yields exactly one segment.
pub proof fn lemma_one_segment_per_drawing_command(state: PathToSegments, commands: Seq<PathCommand>)
    ensures
        segments_of(state, commands).len() == drawing_commands(commands),
    decreases commands.len(),
{
    if commands.len() > 0 {
        lemma_one_segment_per_drawing_command(state, commands.drop_last());
    }
}

/// Segments are continuous within a subpath: a segment that does not start
/// a subpath begins where the previous command left the pen, and every
/// segment yielded right after a move starts at the moved-to point.
pub proof fn lemma_segments_continue_from_the_pen(state: PathToSegments, command: PathCommand)
    ensures
        step_of(state, command).1 matches Some(s) ==> s.from == state.last_subpath_point,
        step_of(state, command).1 matches Some(s) ==> (s.first_in_subpath <==> (state.just_moved
            && !(command is ClosePath))),
        step_of(state, command).1 matches Some(s) ==> step_of(state, command).0.last_subpath_point
            == s.to,
        step_of(state, command).1 is None <==> command is MoveTo,
{
}

/// Closing a subpath returns to its first point, which the next segment of
/// the same subpath starts from.
pub proof fn lemma_close_returns_to_subpath_start(state: PathToSegments)
    ensures
        step_of(state, PathCommand::ClosePath).1 == Some(
            PathSegment {
                kind: SegmentKind::Line,
                from: state.last_subpath_point,
                to: state.first_subpath_point,
                first_in_subpath: false,
                closes_subpath: true,
            },
        ),
        step_of(state, PathCommand::ClosePath).0.last_subpath_point == state.first_subpath_point,
        step_of(state, PathCommand::ClosePath).0.first_subpath_point == state.first_subpath_point,
{
}

/// Segments are continuous over a whole path: when two drawing commands
/// follow each other, the segment of the second starts where the segment of
/// the first ended; a drawing command right after a move to `p` yields a
/// segment starting at `p`, which starts a subpath unless it closes one.
pub proof fn lemma_path_is_continuous(origin: u32, commands: Seq<PathCommand>, k: int)
    requires
        1 <= k < commands.len(),
        !(commands[k] is MoveTo),
    ensures
        ({
            let segments = segments_of(start_state(origin), commands.subrange(0, k + 1));
            &&& !(commands[k - 1] is MoveTo) ==> segments.len() >= 2 && segments.last().from
                == segments[segments.len() - 2].to
            &&& commands[k - 1] matches PathCommand::MoveTo(p) ==> segments.len() >= 1
                && segments.last().from == p && (segments.last().first_in_subpath <==> !(
            commands[k] is ClosePath))
        }),
{
    let s0 = start_state(origin);
    let a = commands.subrange(0, k - 1);
    let b = commands.subrange(0, k);
    let c = commands.subrange(0, k + 1);
    assert(b.drop_last() =~= a);
    assert(c.drop_last() =~= b);
    assert(b.last() == commands[k - 1]);
    assert(c.last() == commands[k]);
    let before = state_after(s0, a);
    let mid = state_after(s0, b);
    assert(mid == step_of(before, commands[k - 1]).0);
    let segment = step_of(mid, commands[k]).1;
    assert(segment is Some);
    assert(segments_of(s0, c) == segments_of(s0, b).push(segment->0));
    if !(commands[k - 1] is MoveTo) {
        let previous = step_of(before, commands[k - 1]).1;
        assert(previous is Some);
        assert(segments_of(s0, b) == segments_of(s0, a).push(previous->0));
        assert(mid.last_subpath_point == previous->0.to);
    }
}

/// The point of the latest move among the commands, or `origin` when none
/// of them moves.
pub open spec fn latest_move_point(origin: u32, commands: Seq<PathCommand>) -> u32
    decreases commands.len(),
{
    if commands.len() == 0 {
        origin
    } else {
        match commands.last() {
            PathCommand::MoveTo(p) => p,
            _ => latest_move_point(origin, commands.drop_last()),
        }
    }
}

/// After any run of commands, the subpath's first point is the point of the
/// latest move (the origin before any move), and the pen has just moved
/// exactly when the last command was a move.
pub proof fn lemma_first_point_follows_latest_move(origin: u32, commands: Seq<PathCommand>)
    ensures
        state_after(start_state(origin), commands).first_subpath_point == latest_move_point(
            origin,
            commands,
        ),
        state_after(start_state(origin), commands).just_moved <==> (commands.len() > 0
            && commands.last() is MoveTo),
    decreases commands.len(),
{
    if commands.len() > 0 {
        lemma_first_point_follows_latest_move(origin, commands.drop_last());
    }
}

/// Over a whole path, a close yields a segment that closes the subpath and
/// ends at the point of the latest move before it (the origin when there is
/// none); a line or curve yields a segment that starts a subpath exactly
/// when the command before it is a move.
pub proof fn lemma_segment_flags_over_a_path(origin: u32, commands: Seq<PathCommand>, k: int)
    requires
        0 <= k < commands.len(),
        !(commands[k] is MoveTo),
    ensures
        ({
            let segments = segments_of(start_state(origin), commands.subrange(0, k + 1));
            &&& segments.len() >= 1
            &&& segments.last().closes_subpath <==> commands[k] is ClosePath
            &&& commands[k] is ClosePath ==> segments.last().to == latest_move_point(
                origin,
                commands.subrange(0, k),
            )
            &&& !(commands[k] is ClosePath) ==> (segments.last().first_in_subpath <==> (k >= 1
                && commands[k - 1] is MoveTo))
        }),
{
    let s0 = start_state(origin);
    let b = commands.subrange(0, k);
    let c = commands.subrange(0, k + 1);
    assert(c.drop_last() =~= b);
    assert(c.last() == commands[k]);
    lemma_first_point_follows_latest_move(origin, b);
    if k >= 1 {
        assert(b.last() == commands[k - 1]);
    }
    let segment = step_of(state_after(s0, b), commands[k]).1;
    assert(segment is Some);
    assert(segments_of(s0, c) == segments_of(s0, b).push(segment->0));
}

/// The segment of a drawing command has the command's own shape and end:
/// a line to its point for a line; a cubic with the command's two control
/// points, in order, to its end point for a curve; a line back to the
/// subpath's first point for a close. It starts where the pen is, whether
/// or not the pen has just moved.
pub proof fn lemma_segment_has_the_command_shape(state: PathToSegments, command: PathCommand)
    ensures
        command matches PathCommand::CurveTo { ctrl0, ctrl1, to } ==> (step_of(state, command).1
            matches Some(s) && s.kind == (SegmentKind::Cubic { ctrl0, ctrl1 }) && s.to == to
            && s.from == state.last_subpath_point),
        command matches PathCommand::LineTo(to) ==> (step_of(state, command).1 matches Some(s)
            && s.kind == SegmentKind::Line && s.to == to && s.from == state.last_subpath_point),
        command is ClosePath ==> (step_of(state, command).1 matches Some(s) && s.kind
            == SegmentKind::Line && s.to == state.first_subpath_point && s.from
            == state.last_subpath_point),
{
}

/// Over a whole path, the segment of the `k`-th command, when it draws, has
/// that command's shape: a curve's segment is a cubic with the curve's
/// control points in order and ends at the curve's end point; a line's is a
/// line to its point.
pub proof fn lemma_path_segment_shapes(origin: u32, commands: Seq<PathCommand>, k: int)
    requires
        0 <= k < commands.len(),
        !(commands[k] is MoveTo),
    ensures
        ({
            let segments = segments_of(start_state(origin), commands.subrange(0, k + 1));
            &&& segments.len() >= 1
            &&& commands[k] matches PathCommand::CurveTo { ctrl0, ctrl1, to } ==> segments.last().kind
                == (SegmentKind::Cubic { ctrl0, ctrl1 }) && segments.last().to == to
            &&& commands[k] matches PathCommand::LineTo(to) ==> segments.last().kind == SegmentKind::Line
                && segments.last().to == to
        }),
{
    let s0 = start_state(origin);
    let b = commands.subrange(0, k);
    let c = commands.subrange(0, k + 1);
    assert(c.drop_last() =~= b);
    assert(c.last() == commands[k]);
    lemma_segment_has_the_command_shape(state_after(s0, b), commands[k]);
    let segment = step_of(state_after(s0, b), commands[k]).1;
    assert(segments_of(s0, c) == segments_of(s0, b).push(segment->0));
}

} // verus!
