use pathfinder_hal::stroke::{
    contour_stroke_steps, join_for_segment, stroked_contour_count, needs_cap, needs_join, LineCap, LineJoin, StrokeStep,
};

#[test]
fn default_cap_and_join() {
    assert_eq!(LineCap::default(), LineCap::Butt);
    assert_eq!(LineJoin::default(), LineJoin::Miter);
}

#[test]
fn miter_join_needs_a_previous_segment() {
    assert!(!needs_join(LineJoin::Miter, 0));
    assert!(!needs_join(LineJoin::Miter, 1));
    assert!(needs_join(LineJoin::Miter, 2));
    assert!(needs_join(LineJoin::Miter, 7));
}

#[test]
fn bevel_join_is_never_added() {
    assert!(!needs_join(LineJoin::Bevel, 0));
    assert!(!needs_join(LineJoin::Bevel, 9));
}

#[test]
fn first_offset_segment_is_beveled() {
    assert_eq!(join_for_segment(0, LineJoin::Miter), LineJoin::Bevel);
    assert_eq!(join_for_segment(1, LineJoin::Miter), LineJoin::Miter);
    assert_eq!(join_for_segment(5, LineJoin::Bevel), LineJoin::Bevel);
}

#[test]
fn square_cap_needs_a_direction() {
    assert!(!needs_cap(LineCap::Square, 1));
    assert!(needs_cap(LineCap::Square, 2));
    assert!(!needs_cap(LineCap::Butt, 2));
    assert!(!needs_cap(LineCap::Butt, 100));
}

#[test]
fn closed_contour_becomes_two_closed_contours() {
    assert_eq!(
        contour_stroke_steps(true),
        vec![
            StrokeStep::OffsetForward,
            StrokeStep::PushContour { closed: true },
            StrokeStep::RestartOutput,
            StrokeStep::OffsetBackward,
            StrokeStep::PushContour { closed: true },
        ]
    );
}

#[test]
fn open_contour_is_capped_at_both_ends() {
    assert_eq!(
        contour_stroke_steps(false),
        vec![
            StrokeStep::OffsetForward,
            StrokeStep::AddCap,
            StrokeStep::OffsetBackward,
            StrokeStep::AddCap,
            StrokeStep::PushContour { closed: false },
        ]
    );
}

#[test]
fn stroked_outline_contour_count() {
    assert_eq!(stroked_contour_count(&vec![true, false, true]), 5);
    assert_eq!(stroked_contour_count(&vec![false]), 1);
    assert_eq!(stroked_contour_count(&vec![]), 0);
}
