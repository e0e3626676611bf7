//! Single-subpass render passes of the renderer: the mask pass, the draw
//! pass and the postprocessing pass.
use crate::attachment::{renderer_attachment, stored_attachment, AttachmentLoadOp, AttachmentRef, Layout};
use crate::format::{R16_SFLOAT, RGBA8_SRGB};
use crate::simple_render_pass::RenderPassDescription;
use vstd::prelude::*;

verus! {

/// The mask texture, cleared and left readable by shaders.
pub open spec fn mask_attachment() -> crate::attachment::Attachment {
    renderer_attachment(
        Some(R16_SFLOAT),
        AttachmentLoadOp::Clear,
        Layout::Undefined,
        Layout::ShaderReadOnlyOptimal,
    )
}

/// The sRGB destination image, cleared and left as a color attachment.
pub open spec fn srgb_dest_attachment() -> crate::attachment::Attachment {
    renderer_attachment(
        Some(RGBA8_SRGB),
        AttachmentLoadOp::Clear,
        Layout::Undefined,
        Layout::ColorAttachmentOptimal,
    )
}

fn single_ref(id: usize, layout: Layout) -> (v: Vec<AttachmentRef>)
    ensures
        v@ == seq![(id, layout)],
{
    let v = vec![(id, layout)];
    assert(v@ =~= seq![(id, layout)]);
    v
}

fn srgb_dest() -> (a: crate::attachment::Attachment)
    ensures
        a == srgb_dest_attachment(),
{
    stored_attachment(
        Some(RGBA8_SRGB),
        AttachmentLoadOp::Clear,
        Layout::Undefined,
        Layout::ColorAttachmentOptimal,
    )
}

/// The mask pass: renders into the mask texture.
pub fn create_mask_pass_desc() -> (d: RenderPassDescription)
    ensures
        d.attachments@ == seq![mask_attachment()],
        d.subpass_colors@ == seq![(0usize, Layout::ColorAttachmentOptimal)],
        d.subpass_inputs@ == Seq::<AttachmentRef>::empty(),
{
    let mask_texture = stored_attachment(
        Some(R16_SFLOAT),
        AttachmentLoadOp::Clear,
        Layout::Undefined,
        Layout::ShaderReadOnlyOptimal,
    );
    let d = RenderPassDescription {
        attachments: vec![mask_texture],
        subpass_colors: single_ref(0, Layout::ColorAttachmentOptimal),
        subpass_inputs: Vec::new(),
    };
    assert(d.attachments@ =~= seq![mask_attachment()]);
    d
}

/// The draw pass: reads attachment 0 (the mask texture) and renders to
/// attachment 1. Only the destination image is declared, as the renderer
/// writes it; the swapchain's format later replaces its own.
pub fn create_draw_pass_desc() -> (d: RenderPassDescription)
    ensures
        d.attachments@ == seq![srgb_dest_attachment()],
        d.subpass_colors@ == seq![(1usize, Layout::ColorAttachmentOptimal)],
        d.subpass_inputs@ == seq![(0usize, Layout::ShaderReadOnlyOptimal)],
{
    let dest = srgb_dest();
    let d = RenderPassDescription {
        attachments: vec![dest],
        subpass_colors: single_ref(1, Layout::ColorAttachmentOptimal),
        subpass_inputs: single_ref(0, Layout::ShaderReadOnlyOptimal),
    };
    assert(d.attachments@ =~= seq![srgb_dest_attachment()]);
    d
}

/// The postprocessing pass: reads attachment 0 and renders into it, the
/// sRGB destination image.
pub fn create_postprocess_pass_desc() -> (d: RenderPassDescription)
    ensures
        d.attachments@ == seq![srgb_dest_attachment()],
        d.subpass_colors@ == seq![(0usize, Layout::ColorAttachmentOptimal)],
        d.subpass_inputs@ == seq![(0usize, Layout::ShaderReadOnlyOptimal)],
{
    let dest = srgb_dest();
    let d = RenderPassDescription {
        attachments: vec![dest],
        subpass_colors: single_ref(0, Layout::ColorAttachmentOptimal),
        subpass_inputs: single_ref(0, Layout::ShaderReadOnlyOptimal),
    };
    assert(d.attachments@ =~= seq![srgb_dest_attachment()]);
    d
}

} // verus!
