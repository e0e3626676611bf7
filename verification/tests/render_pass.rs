use pathfinder_hal::attachment::{
    Attachment, AttachmentLoadOp, AttachmentOps, AttachmentStoreOp, Layout, LayoutRange,
};
use pathfinder_hal::format::{R16_SFLOAT, RGBA8_SRGB};
use pathfinder_hal::render_pass::RenderPassDescription;
use pathfinder_hal::render_pass_descriptions::{
    attachments_without_format, create_draw_pass_desc, create_draw_pass_no_postprocess_desc,
    create_fill_render_pass_desc,
};
use pathfinder_hal::render_pass_descs;

const BGRA8_SRGB: u32 = 50;

fn attachment(format: Option<u32>, load: AttachmentLoadOp, start: Layout, end: Layout) -> Attachment {
    Attachment {
        format,
        samples: 0,
        ops: AttachmentOps { load, store: AttachmentStoreOp::Store },
        stencil_ops: AttachmentOps {
            load: AttachmentLoadOp::DontCare,
            store: AttachmentStoreOp::DontCare,
        },
        layouts: LayoutRange { start, end },
    }
}

#[test]
fn fill_render_pass_renders_into_the_mask() {
    let d = create_fill_render_pass_desc();
    assert_eq!(
        d.attachments,
        vec![attachment(Some(R16_SFLOAT), AttachmentLoadOp::Clear, Layout::Undefined, Layout::ShaderReadOnlyOptimal)]
    );
    assert_eq!(d.num_subpasses, 1);
    assert_eq!(d.colors_per_subpass, vec![vec![(0, Layout::ColorAttachmentOptimal)]]);
    assert_eq!(d.inputs_per_subpass, vec![vec![]]);
    assert_eq!(d.preserves_per_subpass, vec![Vec::<usize>::new()]);
}

#[test]
fn draw_pass_has_a_postprocess_subpass() {
    let d = create_draw_pass_desc();
    assert_eq!(d.attachments.len(), 3);
    assert_eq!(
        d.attachments[0],
        attachment(Some(R16_SFLOAT), AttachmentLoadOp::Load, Layout::ShaderReadOnlyOptimal, Layout::ShaderReadOnlyOptimal)
    );
    assert_eq!(d.attachments[1], attachment(None, AttachmentLoadOp::Clear, Layout::Undefined, Layout::ShaderReadOnlyOptimal));
    assert_eq!(d.attachments[2], attachment(None, AttachmentLoadOp::Clear, Layout::Undefined, Layout::Present));
    assert_eq!(d.num_subpasses, 2);
    assert_eq!(
        d.inputs_per_subpass,
        vec![vec![(0, Layout::ShaderReadOnlyOptimal)], vec![(1, Layout::ShaderReadOnlyOptimal)]]
    );
    assert_eq!(
        d.colors_per_subpass,
        vec![vec![(1, Layout::ColorAttachmentOptimal)], vec![(2, Layout::Present)]]
    );
    assert_eq!(d.preserves_per_subpass, vec![Vec::<usize>::new(), Vec::new()]);
}

#[test]
fn draw_pass_without_postprocess_renders_to_the_presented_image() {
    let d = create_draw_pass_no_postprocess_desc();
    assert_eq!(d.attachments.len(), 2);
    assert_eq!(d.attachments[1].format, None);
    assert_eq!(d.num_subpasses, 1);
    assert_eq!(d.inputs_per_subpass, vec![vec![(0, Layout::ShaderReadOnlyOptimal)]]);
    assert_eq!(d.colors_per_subpass, vec![vec![(1, Layout::Present)]]);
    assert_eq!(d.preserves_per_subpass.len(), 2);
}

#[test]
fn attachments_waiting_for_the_swapchain_format() {
    assert_eq!(attachments_without_format(true), vec![1, 2]);
    assert_eq!(attachments_without_format(false), vec![1]);
}

#[test]
fn update_attachment_format_sets_one_format() {
    let mut d = create_draw_pass_desc();
    d.update_attachment_format(2, BGRA8_SRGB);
    assert_eq!(d.attachments[2].format, Some(BGRA8_SRGB));
    assert_eq!(d.attachments[2].layouts, LayoutRange { start: Layout::Undefined, end: Layout::Present });
    assert_eq!(d.attachments[1].format, None);
    assert_eq!(d.attachments[0].format, Some(R16_SFLOAT));
    assert_eq!(d.num_subpasses, 2);
}

#[test]
fn filled_draw_pass_has_every_format() {
    for postprocess in [true, false] {
        let mut d = if postprocess { create_draw_pass_desc() } else { create_draw_pass_no_postprocess_desc() };
        let mask = d.attachments[0];
        d.fill_attachment_formats(&attachments_without_format(postprocess), BGRA8_SRGB);
        assert_eq!(d.attachments[0], mask);
        for a in &d.attachments[1..] {
            assert_eq!(a.format, Some(BGRA8_SRGB));
        }
    }
}

#[test]
fn filling_the_same_index_twice_is_harmless() {
    let mut d = create_draw_pass_desc();
    d.fill_attachment_formats(&vec![2, 2], RGBA8_SRGB);
    assert_eq!(d.attachments[2].format, Some(RGBA8_SRGB));
    assert_eq!(d.attachments[1].format, None);
}

#[test]
fn subpasses_follow_the_tables() {
    let d = create_draw_pass_desc();
    let subpasses = d.subpasses();
    assert_eq!(subpasses.len(), 2);
    assert_eq!(subpasses[0].colors, vec![(1, Layout::ColorAttachmentOptimal)]);
    assert_eq!(subpasses[0].inputs, vec![(0, Layout::ShaderReadOnlyOptimal)]);
    assert_eq!(subpasses[1].colors, vec![(2, Layout::Present)]);
    assert_eq!(subpasses[1].inputs, vec![(1, Layout::ShaderReadOnlyOptimal)]);
    assert!(subpasses[1].preserves.is_empty());
}

#[test]
fn subpasses_use_only_the_declared_count() {
    let d = RenderPassDescription {
        attachments: vec![],
        num_subpasses: 1,
        colors_per_subpass: vec![vec![(0, Layout::General)], vec![(1, Layout::General)]],
        inputs_per_subpass: vec![vec![], vec![]],
        preserves_per_subpass: vec![vec![3], vec![]],
    };
    let subpasses = d.subpasses();
    assert_eq!(subpasses.len(), 1);
    assert_eq!(subpasses[0].preserves, vec![3]);
}

#[test]
fn single_subpass_passes() {
    let mask = render_pass_descs::create_mask_pass_desc();
    assert_eq!(
        mask.attachments,
        vec![attachment(Some(R16_SFLOAT), AttachmentLoadOp::Clear, Layout::Undefined, Layout::ShaderReadOnlyOptimal)]
    );
    assert_eq!(mask.subpass_colors, vec![(0, Layout::ColorAttachmentOptimal)]);
    assert!(mask.subpass_inputs.is_empty());

    let dest = attachment(Some(RGBA8_SRGB), AttachmentLoadOp::Clear, Layout::Undefined, Layout::ColorAttachmentOptimal);
    let draw = render_pass_descs::create_draw_pass_desc();
    assert_eq!(draw.attachments, vec![dest]);
    assert_eq!(draw.subpass_colors, vec![(1, Layout::ColorAttachmentOptimal)]);
    assert_eq!(draw.subpass_inputs, vec![(0, Layout::ShaderReadOnlyOptimal)]);

    let post = render_pass_descs::create_postprocess_pass_desc();
    assert_eq!(post.attachments, vec![dest]);
    assert_eq!(post.subpass_colors, vec![(0, Layout::ColorAttachmentOptimal)]);
    assert_eq!(post.subpass_inputs, vec![(0, Layout::ShaderReadOnlyOptimal)]);
}

#[test]
fn swapchain_format_replaces_the_last_attachment() {
    let d = render_pass_descs::create_draw_pass_desc().with_swapchain_format(BGRA8_SRGB);
    assert_eq!(
        d.attachments,
        vec![attachment(Some(BGRA8_SRGB), AttachmentLoadOp::Clear, Layout::Undefined, Layout::ColorAttachmentOptimal)]
    );
    assert_eq!(d.subpass_colors, vec![(1, Layout::ColorAttachmentOptimal)]);
    assert_eq!(d.subpass_inputs, vec![(0, Layout::ShaderReadOnlyOptimal)]);
}
