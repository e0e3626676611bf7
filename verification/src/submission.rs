//! The command buffers the GPU state records each frame: which pipeline is
//! bound, which recorded draws are replayed, whether the postprocessing
//! subpass follows, and which submission signals the frame's fence.
use crate::gpu_types::PipelineVariant;
use crate::memory::Submission;
use crate::pipeline_descriptions::Rect;
use crate::primitives::Point2DI32;
use crate::renderer::tile_pipeline;
use vstd::prelude::*;

verus! {

/// One recorded command of a render pass.
#[derive(Clone, Copy, Debug)]
pub enum DrawCommand {
    /// Bind the pipeline of this variant.
    BindPipeline(PipelineVariant),
    /// Bind the shared quad and buffer `buffer_index` of the pool, and draw
    /// these vertex and instance ranges.
    Draw { buffer_index: usize, vertices: (u32, u32), instances: (u32, u32) },
    /// Move on to the next subpass.
    NextSubpass,
    /// Draw the shared quad once: vertices 0 to 4, one instance.
    DrawQuad,
}

/// A command buffer to submit: the area its render pass covers, its
/// commands, and whether its submission signals the fence of the frame in
/// flight.
#[derive(Clone, Debug)]
pub struct CommandPlan {
    pub render_area: Rect,
    pub commands: Vec<DrawCommand>,
    pub signals_frame_fence: bool,
}

/// The draw command that replays a recorded draw.
pub open spec fn replay(s: Submission) -> DrawCommand {
    DrawCommand::Draw { buffer_index: s.buffer_index, vertices: s.vertices, instances: s.instances }
}

/// The replays of recorded draws, in order.
pub open spec fn replays(submissions: Seq<Submission>) -> Seq<DrawCommand> {
    submissions.map_values(|s: Submission| replay(s))
}

fn push_replays(commands: &mut Vec<DrawCommand>, submissions: &Vec<Submission>)
    ensures
        final(commands)@ == old(commands)@ + replays(submissions@),
{
    let ghost start = commands@;
    let mut i: usize = 0;
    while i < submissions.len()
        invariant
            i <= submissions.len(),
            commands@ == start + replays(submissions@.subrange(0, i as int)),
        decreases submissions.len() - i,
    {
        let s = submissions[i];
        commands.push(
            DrawCommand::Draw { buffer_index: s.buffer_index, vertices: s.vertices, instances: s.instances },
        );
        proof {
            assert(replays(submissions@.subrange(0, i + 1)) =~= replays(
                submissions@.subrange(0, i as int),
            ).push(replay(s)));
        }
        i = i + 1;
        assert(commands@ =~= start + replays(submissions@.subrange(0, i as int)));
    }
    assert(submissions@.subrange(0, submissions.len() as int) =~= submissions@);
}

/// The fill pass's commands, over the whole fill framebuffer: bind the fill
/// pipeline, then replay each draw recorded against the fill buffer pool.
/// Its submission signals no fence.
pub fn fill_submission_plan(fill_framebuffer_size: Point2DI32, submissions: &Vec<Submission>) -> (plan: CommandPlan)
    ensures
        plan.render_area == (Rect {
            x: 0,
            y: 0,
            w: fill_framebuffer_size.x as i16,
            h: fill_framebuffer_size.y as i16,
        }),
        plan.commands@ == seq![DrawCommand::BindPipeline(PipelineVariant::Fill)] + replays(submissions@),
        !plan.signals_frame_fence,
{
    let mut commands = vec![DrawCommand::BindPipeline(PipelineVariant::Fill)];
    push_replays(&mut commands, submissions);
    let render_area = Rect {
        x: 0,
        y: 0,
        w: fill_framebuffer_size.x as i16,
        h: fill_framebuffer_size.y as i16,
    };
    CommandPlan { render_area, commands, signals_frame_fence: false }
}

/// A tile pass's commands, over the swapchain's render area: bind the tile pipeline of the mode, replay each
/// draw recorded against the solid or alpha tile pool, then, when the frame
/// is postprocessed, move to the next subpass and draw the quad with the
/// postprocessing pipeline. The alpha pass, the frame's last, signals the
/// frame's fence.
pub fn tile_submission_plan(
    render_area: Rect,
    monochrome: bool,
    solid: bool,
    postprocessing_needed: bool,
    submissions: &Vec<Submission>,
) -> (plan: CommandPlan)
    ensures
        plan.commands@ == seq![DrawCommand::BindPipeline(tile_pipeline(monochrome, solid))]
            + replays(submissions@) + if postprocessing_needed {
            seq![
                DrawCommand::NextSubpass,
                DrawCommand::BindPipeline(PipelineVariant::Postprocess),
                DrawCommand::DrawQuad,
            ]
        } else {
            Seq::<DrawCommand>::empty()
        },
        plan.signals_frame_fence == !solid,
        plan.render_area == render_area,
{
    let variant = crate::renderer::tile_pipeline_variant(monochrome, solid);
    let mut commands = vec![DrawCommand::BindPipeline(variant)];
    push_replays(&mut commands, submissions);
    let ghost replayed = commands@;
    if postprocessing_needed {
        commands.push(DrawCommand::NextSubpass);
        commands.push(DrawCommand::BindPipeline(PipelineVariant::Postprocess));
        commands.push(DrawCommand::DrawQuad);
        assert(commands@ =~= replayed + seq![
            DrawCommand::NextSubpass,
            DrawCommand::BindPipeline(PipelineVariant::Postprocess),
            DrawCommand::DrawQuad,
        ]);
    } else {
        assert(commands@ =~= replayed + Seq::<DrawCommand>::empty());
    }
    CommandPlan { render_area, commands, signals_frame_fence: !solid }
}

} // verus!
