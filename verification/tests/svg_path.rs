use pathfinder_hal::svg_path::{path_to_segments, PathCommand, PathSegment, PathToSegments, SegmentKind};

fn line(from: u32, to: u32, first: bool, closes: bool) -> PathSegment {
    PathSegment { kind: SegmentKind::Line, from, to, first_in_subpath: first, closes_subpath: closes }
}

#[test]
fn triangle_is_three_segments() {
    let commands = vec![
        PathCommand::MoveTo(1),
        PathCommand::LineTo(2),
        PathCommand::LineTo(3),
        PathCommand::ClosePath,
    ];
    assert_eq!(
        path_to_segments(&commands, 0),
        vec![line(1, 2, true, false), line(2, 3, false, false), line(3, 1, false, true)]
    );
}

#[test]
fn curve_keeps_its_controls() {
    let commands = vec![PathCommand::MoveTo(1), PathCommand::CurveTo { ctrl0: 2, ctrl1: 3, to: 4 }];
    assert_eq!(
        path_to_segments(&commands, 0),
        vec![PathSegment {
            kind: SegmentKind::Cubic { ctrl0: 2, ctrl1: 3 },
            from: 1,
            to: 4,
            first_in_subpath: true,
            closes_subpath: false
        }]
    );
}

#[test]
fn path_without_move_starts_at_the_origin() {
    let commands = vec![PathCommand::LineTo(5), PathCommand::ClosePath];
    assert_eq!(path_to_segments(&commands, 0), vec![line(0, 5, false, false), line(5, 0, false, true)]);
}

#[test]
fn moves_yield_nothing_and_start_subpaths() {
    let commands = vec![
        PathCommand::MoveTo(1),
        PathCommand::MoveTo(2),
        PathCommand::LineTo(3),
        PathCommand::ClosePath,
        PathCommand::LineTo(4),
    ];
    let segments = path_to_segments(&commands, 0);
    assert_eq!(segments.len(), 3);
    assert_eq!(segments[0], line(2, 3, true, false));
    assert_eq!(segments[1], line(3, 2, false, true));
    assert_eq!(segments[2], line(2, 4, false, false));
}

#[test]
fn close_right_after_a_move_is_not_first() {
    let mut state = PathToSegments::new(0);
    assert_eq!(state.step(PathCommand::MoveTo(7)), None);
    assert_eq!(state.step(PathCommand::ClosePath), Some(line(7, 7, false, true)));
    assert!(!state.just_moved);
}

#[test]
fn consecutive_segments_join_up() {
    let commands = vec![
        PathCommand::MoveTo(1),
        PathCommand::LineTo(2),
        PathCommand::CurveTo { ctrl0: 3, ctrl1: 4, to: 5 },
        PathCommand::LineTo(6),
    ];
    let segments = path_to_segments(&commands, 0);
    for pair in segments.windows(2) {
        assert_eq!(pair[1].from, pair[0].to);
    }
    assert_eq!(segments[0].from, 1);
}

#[test]
fn close_returns_to_the_latest_move() {
    let commands = vec![
        PathCommand::LineTo(5),
        PathCommand::ClosePath,
        PathCommand::MoveTo(1),
        PathCommand::LineTo(2),
        PathCommand::MoveTo(7),
        PathCommand::LineTo(8),
        PathCommand::ClosePath,
    ];
    assert_eq!(
        path_to_segments(&commands, 0),
        vec![
            line(0, 5, false, false),
            line(5, 0, false, true),
            line(1, 2, true, false),
            line(7, 8, true, false),
            line(8, 7, false, true),
        ]
    );
}
