use pathfinder_hal::color::ColorU;
use pathfinder_hal::gpu_types::{BlendState, PipelineVariant, StencilFunc, TextureFormat};
use pathfinder_hal::primitives::{
    AlphaTileBatchPrimitive, FillBatchPrimitive, LineSegmentU4, LineSegmentU8, Point2DI32, RectI32,
    SolidTileBatchPrimitive,
};
use pathfinder_hal::renderer::{
    fill_colors_texels, quad_vertex_positions, renderer_textures, tile_pipeline_variant, TextureSpec, DestFramebuffer, DrawTarget, FillColorSource,
    PostprocessSetup, RenderAction, RenderCommand, RenderMode, RenderStats, Renderer,
    SourceFramebufferPlan, StencilState, FILL_COLORS_TEXTURE_BYTES, MAX_FILLS_PER_BATCH, TILE_WIDTH,
};

fn fill(i: u16) -> FillBatchPrimitive {
    FillBatchPrimitive { px: LineSegmentU4(i), subpx: LineSegmentU8(i as u32), alpha_tile_index: i }
}

fn fills(n: usize) -> Vec<FillBatchPrimitive> {
    (0..n).map(|i| fill(i as u16)).collect()
}

fn window() -> DestFramebuffer {
    DestFramebuffer::full_window(Point2DI32::new(800, 600))
}

fn stats(object_count: usize, fill_count: usize, alpha_tile_count: usize, solid_tile_count: usize) -> RenderStats {
    RenderStats { object_count, fill_count, alpha_tile_count, solid_tile_count }
}

#[test]
fn stats_add_and_divide() {
    let a = stats(1, 2, 3, 4);
    let b = stats(10, 20, 30, 40);
    assert_eq!(a.add(b), stats(11, 22, 33, 44));
    assert_eq!(stats(7, 9, 10, 3).div(2), stats(3, 4, 5, 1));
}

#[test]
fn new_renderer_counts_nothing() {
    let r = Renderer::new(window());
    assert_eq!(r.stats(), RenderStats::default());
    assert_eq!(r.dest_framebuffer(), window());
    assert!(!r.postprocessing_needed());
    assert_eq!(r.stencil_state(), None);
}

#[test]
fn full_window_destination() {
    let dest = window();
    assert_eq!(
        dest,
        DestFramebuffer::Default {
            viewport: RectI32::new(Point2DI32::new(0, 0), Point2DI32::new(800, 600)),
            window_size: Point2DI32::new(800, 600)
        }
    );
    assert_eq!(dest.window_size(), Point2DI32::new(800, 600));
    assert_eq!(DestFramebuffer::Other { texture_size: Point2DI32::new(5, 6) }.window_size(), Point2DI32::new(5, 6));
}

#[test]
fn small_fill_runs_wait_for_a_flush() {
    let mut r = Renderer::new(window());
    assert!(r.add_fills(&fills(10)).is_empty());
    assert!(r.add_fills(&fills(5)).is_empty());
    assert_eq!(r.stats().fill_count, 15);
    let batch = r.flush_fills().expect("fills wait");
    assert_eq!(batch.fills.len(), 15);
    assert!(batch.clear_mask_framebuffer);
    assert!(r.flush_fills().is_none());
}

#[test]
fn full_batches_are_handed_back_in_order() {
    let mut r = Renderer::new(window());
    let input = fills(2 * MAX_FILLS_PER_BATCH + 3);
    let batches = r.add_fills(&input);
    assert_eq!(batches.len(), 2);
    assert_eq!(batches[0].fills[..], input[..MAX_FILLS_PER_BATCH]);
    assert_eq!(batches[1].fills[..], input[MAX_FILLS_PER_BATCH..2 * MAX_FILLS_PER_BATCH]);
    let rest = r.flush_fills().unwrap();
    assert_eq!(rest.fills[..], input[2 * MAX_FILLS_PER_BATCH..]);
    assert_eq!(r.stats().fill_count, input.len());
}

#[test]
fn mask_is_cleared_once_per_scene() {
    let mut r = Renderer::new(window());
    let batches = r.add_fills(&fills(MAX_FILLS_PER_BATCH * 2));
    assert!(batches[0].clear_mask_framebuffer);
    assert!(!batches[1].clear_mask_framebuffer);
    r.add_fills(&fills(1));
    assert!(!r.flush_fills().unwrap().clear_mask_framebuffer);
    r.begin_scene();
    assert_eq!(r.stats(), RenderStats::default());
    r.add_fills(&fills(1));
    assert!(r.flush_fills().unwrap().clear_mask_framebuffer);
}

#[test]
fn fills_straddling_a_batch_boundary() {
    let mut r = Renderer::new(window());
    r.add_fills(&fills(MAX_FILLS_PER_BATCH - 1));
    let batches = r.add_fills(&fills(2));
    assert_eq!(batches.len(), 1);
    assert_eq!(batches[0].fills.len(), MAX_FILLS_PER_BATCH);
    assert_eq!(batches[0].fills[MAX_FILLS_PER_BATCH - 1], fill(0));
    assert_eq!(r.flush_fills().unwrap().fills, vec![fill(1)]);
}

#[test]
fn start_draws_the_stencil_only_with_depth() {
    let mut r = Renderer::new(window());
    assert!(matches!(r.render_command(&RenderCommand::Start { object_count: 3 }), RenderAction::Nothing));
    assert_eq!(r.stats().object_count, 3);
    r.enable_depth();
    assert!(matches!(r.render_command(&RenderCommand::Start { object_count: 4 }), RenderAction::DrawStencil));
    assert_eq!(r.stats().object_count, 4);
    r.disable_depth();
    assert!(matches!(r.render_command(&RenderCommand::Finish), RenderAction::Nothing));
}

#[test]
fn shaders_become_the_fill_color_texture() {
    let mut r = Renderer::new(window());
    let colors = vec![ColorU { r: 1, g: 2, b: 3, a: 4 }, ColorU { r: 5, g: 6, b: 7, a: 8 }];
    match r.render_command(&RenderCommand::AddShaders(colors)) {
        RenderAction::UploadFillColors(texels) => {
            assert_eq!(texels.len(), FILL_COLORS_TEXTURE_BYTES);
            assert_eq!(texels[..8], [1, 2, 3, 4, 5, 6, 7, 8]);
            assert!(texels[8..].iter().all(|b| *b == 0));
        }
        other => panic!("unexpected {:?}", other),
    }
}

#[test]
fn fill_color_texels_of_no_shader_are_zero() {
    let texels = fill_colors_texels(&vec![]);
    assert_eq!(texels.len(), 256 * 256 * 4);
    assert!(texels.iter().all(|b| *b == 0));
}

#[test]
fn fill_commands_batch_and_flush() {
    let mut r = Renderer::new(window());
    match r.render_command(&RenderCommand::AddFills(fills(3))) {
        RenderAction::DrawFills(batches) => assert!(batches.is_empty()),
        other => panic!("unexpected {:?}", other),
    }
    match r.render_command(&RenderCommand::FlushFills) {
        RenderAction::DrawFills(batches) => {
            assert_eq!(batches.len(), 1);
            assert_eq!(batches[0].fills, fills(3));
        }
        other => panic!("unexpected {:?}", other),
    }
    match r.render_command(&RenderCommand::FlushFills) {
        RenderAction::DrawFills(batches) => assert!(batches.is_empty()),
        other => panic!("unexpected {:?}", other),
    }
}

#[test]
fn tile_commands_count_and_draw() {
    let mut r = Renderer::new(window());
    let solid = vec![SolidTileBatchPrimitive { tile_x: 1, tile_y: 2, origin_u: 0, origin_v: 0, object_index: 0 }; 3];
    let alpha = vec![AlphaTileBatchPrimitive::default(); 2];
    assert!(matches!(r.render_command(&RenderCommand::SolidTile(solid)), RenderAction::DrawSolidTiles { count: 3 }));
    assert!(matches!(r.render_command(&RenderCommand::AlphaTile(alpha)), RenderAction::DrawAlphaTiles { count: 2 }));
    assert_eq!(r.stats(), stats(0, 0, 2, 3));
}

#[test]
fn viewports_follow_the_destination_and_mode() {
    let mut r = Renderer::new(window());
    let full = RectI32::new(Point2DI32::new(0, 0), Point2DI32::new(800, 600));
    assert_eq!(r.main_viewport(), full);
    assert_eq!(r.draw_viewport(), full);
    r.set_render_mode(RenderMode::Monochrome { has_defringing_kernel: true, gamma_correction: false });
    assert_eq!(r.draw_viewport(), RectI32::new(Point2DI32::new(0, 0), Point2DI32::new(2400, 600)));
    let old = r.replace_dest_framebuffer(DestFramebuffer::Other { texture_size: Point2DI32::new(64, 32) });
    assert_eq!(old, window());
    assert_eq!(r.main_viewport(), RectI32::new(Point2DI32::new(0, 0), Point2DI32::new(64, 32)));
}

#[test]
fn offset_default_viewport_is_kept() {
    let viewport = RectI32::new(Point2DI32::new(10, 20), Point2DI32::new(30, 40));
    let r = Renderer::new(DestFramebuffer::Default { viewport, window_size: Point2DI32::new(100, 100) });
    assert_eq!(r.main_viewport(), viewport);
}

#[test]
fn postprocessing_is_needed_for_kernel_or_gamma() {
    let mut r = Renderer::new(window());
    for (kernel, gamma, needed) in [(false, false, false), (true, false, true), (false, true, true), (true, true, true)] {
        r.set_render_mode(RenderMode::Monochrome { has_defringing_kernel: kernel, gamma_correction: gamma });
        assert_eq!(r.postprocessing_needed(), needed);
    }
    r.set_render_mode(RenderMode::default());
    assert!(!r.postprocessing_needed());
}

#[test]
fn stencil_state_with_depth() {
    let mut r = Renderer::new(window());
    r.enable_depth();
    assert_eq!(r.stencil_state(), Some(StencilState { func: StencilFunc::Equal, reference: 1, mask: 1, write: false }));
}

#[test]
fn tile_pipelines() {
    assert_eq!(tile_pipeline_variant(true, true), PipelineVariant::SolidMonochrome);
    assert_eq!(tile_pipeline_variant(true, false), PipelineVariant::AlphaMonochrome);
    assert_eq!(tile_pipeline_variant(false, true), PipelineVariant::SolidMulticolor);
    assert_eq!(tile_pipeline_variant(false, false), PipelineVariant::AlphaMulticolor);
}

#[test]
fn multicolor_tiles_read_the_color_texture() {
    let r = Renderer::new(window());
    let solid = r.tile_draw_setup(true);
    assert_eq!(solid.pipeline, PipelineVariant::SolidMulticolor);
    assert_eq!(solid.target, DrawTarget::Destination);
    assert_eq!(solid.framebuffer_size, Point2DI32::new(800, 600));
    assert_eq!(solid.fill_color, FillColorSource::Texture { unit: 0 });
    assert_eq!(solid.blend, BlendState::Off);
    assert_eq!(solid.stencil, None);
    let alpha = r.tile_draw_setup(false);
    assert_eq!(alpha.pipeline, PipelineVariant::AlphaMulticolor);
    assert_eq!(alpha.fill_color, FillColorSource::Texture { unit: 1 });
    assert_eq!(alpha.mask_texture_unit, Some(0));
    assert_eq!(solid.mask_texture_unit, None);
    assert_eq!(alpha.blend, BlendState::RGBSrcAlphaAlphaOneMinusSrcAlpha);
    assert_eq!(r.postprocess_setup(), None);
}

#[test]
fn monochrome_tiles_with_and_without_postprocessing() {
    let mut r = Renderer::new(window());
    r.set_render_mode(RenderMode::Monochrome { has_defringing_kernel: false, gamma_correction: false });
    let plain = r.tile_draw_setup(false);
    assert_eq!(plain.pipeline, PipelineVariant::AlphaMonochrome);
    assert_eq!(plain.fill_color, FillColorSource::Foreground);
    assert_eq!(plain.target, DrawTarget::Destination);
    assert_eq!(r.postprocess_setup(), None);

    r.set_render_mode(RenderMode::Monochrome { has_defringing_kernel: true, gamma_correction: true });
    r.enable_depth();
    let post = r.tile_draw_setup(true);
    assert_eq!(post.fill_color, FillColorSource::White);
    assert_eq!(post.target, DrawTarget::PostprocessSource);
    assert_eq!(post.framebuffer_size, Point2DI32::new(2400, 600));
    assert!(post.stencil.is_some());
    assert_eq!(
        r.postprocess_setup(),
        Some(PostprocessSetup { has_defringing_kernel: true, gamma_correction: true, framebuffer_size: Point2DI32::new(800, 600) })
    );
}

#[test]
fn source_framebuffer_is_kept_only_at_the_right_size() {
    let mut r = Renderer::new(window());
    assert_eq!(r.source_framebuffer_plan(Some(Point2DI32::new(800, 600))), SourceFramebufferPlan::Release);
    r.set_render_mode(RenderMode::Monochrome { has_defringing_kernel: false, gamma_correction: true });
    assert_eq!(r.source_framebuffer_plan(Some(Point2DI32::new(800, 600))), SourceFramebufferPlan::Keep);
    assert_eq!(
        r.source_framebuffer_plan(Some(Point2DI32::new(400, 600))),
        SourceFramebufferPlan::Create { size: Point2DI32::new(800, 600) }
    );
    assert_eq!(r.source_framebuffer_plan(None), SourceFramebufferPlan::Create { size: Point2DI32::new(800, 600) });
}

#[test]
fn renderer_textures_are_half_float_mask_and_rgba_colors() {
    let textures = renderer_textures();
    assert_eq!(TILE_WIDTH, 16);
    assert_eq!(textures.mask_framebuffer, TextureSpec { format: TextureFormat::R16F, size: Point2DI32::new(4096, 4096) });
    assert_eq!(textures.fill_colors, TextureSpec { format: TextureFormat::RGBA8, size: Point2DI32::new(256, 256) });
}

#[test]
fn unit_quad_corners() {
    assert_eq!(quad_vertex_positions(), vec![0, 0, 1, 0, 1, 1, 0, 1]);
}
