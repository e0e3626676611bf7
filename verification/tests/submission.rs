use pathfinder_hal::gpu_types::PipelineVariant;
use pathfinder_hal::memory::SubmissionList;
use pathfinder_hal::pipeline_descriptions::Rect;
use pathfinder_hal::primitives::Point2DI32;
use pathfinder_hal::submission::{fill_submission_plan, tile_submission_plan, DrawCommand};

fn describe(commands: &[DrawCommand]) -> Vec<String> {
    commands.iter().map(|c| format!("{:?}", c)).collect()
}

#[test]
fn fill_pass_replays_recorded_draws() {
    let mut list = SubmissionList::new(4);
    list.record((0, 4), (0, 100), 2);
    list.record((0, 4), (0, 7), 0);
    let plan = fill_submission_plan(Point2DI32::new(4096, 1024), list.entries());
    assert_eq!(plan.render_area, Rect { x: 0, y: 0, w: 4096, h: 1024 });
    assert!(!plan.signals_frame_fence);
    assert_eq!(
        describe(&plan.commands),
        vec![
            format!("{:?}", DrawCommand::BindPipeline(PipelineVariant::Fill)),
            format!("{:?}", DrawCommand::Draw { buffer_index: 2, vertices: (0, 4), instances: (0, 100) }),
            format!("{:?}", DrawCommand::Draw { buffer_index: 0, vertices: (0, 4), instances: (0, 7) }),
        ]
    );
}

#[test]
fn solid_tile_pass_without_postprocessing() {
    let mut list = SubmissionList::new(1);
    list.record((0, 4), (0, 3), 0);
    let area = Rect { x: 0, y: 0, w: 800, h: 600 };
    let plan = tile_submission_plan(area, false, true, false, list.entries());
    assert_eq!(plan.render_area, area);
    assert!(!plan.signals_frame_fence);
    assert_eq!(plan.commands.len(), 2);
    assert!(matches!(plan.commands[0], DrawCommand::BindPipeline(PipelineVariant::SolidMulticolor)));
}

#[test]
fn alpha_tile_pass_with_postprocessing_signals_the_fence() {
    let list = SubmissionList::new(1);
    let plan = tile_submission_plan(Rect { x: 0, y: 0, w: 10, h: 10 }, true, false, true, list.entries());
    assert!(plan.signals_frame_fence);
    assert_eq!(plan.commands.len(), 4);
    assert!(matches!(plan.commands[0], DrawCommand::BindPipeline(PipelineVariant::AlphaMonochrome)));
    assert!(matches!(plan.commands[1], DrawCommand::NextSubpass));
    assert!(matches!(plan.commands[2], DrawCommand::BindPipeline(PipelineVariant::Postprocess)));
    assert!(matches!(plan.commands[3], DrawCommand::DrawQuad));
}
