//! The render passes the renderer draws with: the fill pass that
//! accumulates coverage into the mask texture, and the draw pass, with and
//! without a postprocessing subpass.
use crate::attachment::{
    renderer_attachment, stored_attachment, AttachmentLoadOp, AttachmentRef, Layout,
};
use crate::format::R16_SFLOAT;
use crate::render_pass::{formats_filled, listed_before, lists_of, RenderPassDescription};
use vstd::prelude::*;

verus! {

/// The mask texture the fill pass clears and renders coverage into, left
/// ready to be read by shaders.
pub open spec fn fill_mask_attachment() -> crate::attachment::Attachment {
    renderer_attachment(
        Some(R16_SFLOAT),
        AttachmentLoadOp::Clear,
        Layout::Undefined,
        Layout::ShaderReadOnlyOptimal,
    )
}

/// The mask texture as the draw passes read it: loaded, kept readable.
pub open spec fn read_mask_attachment() -> crate::attachment::Attachment {
    renderer_attachment(
        Some(R16_SFLOAT),
        AttachmentLoadOp::Load,
        Layout::ShaderReadOnlyOptimal,
        Layout::ShaderReadOnlyOptimal,
    )
}

/// The image the draw subpass renders into before postprocessing; its
/// format is the swapchain's.
pub open spec fn transient_attachment() -> crate::attachment::Attachment {
    renderer_attachment(
        None,
        AttachmentLoadOp::Clear,
        Layout::Undefined,
        Layout::ShaderReadOnlyOptimal,
    )
}

/// The swapchain image that is presented; its format is the swapchain's.
pub open spec fn present_attachment() -> crate::attachment::Attachment {
    renderer_attachment(None, AttachmentLoadOp::Clear, Layout::Undefined, Layout::Present)
}

fn refs(id: usize, layout: Layout) -> (v: Vec<AttachmentRef>)
    ensures
        v@ == seq![(id, layout)],
{
    let v = vec![(id, layout)];
    assert(v@ =~= seq![(id, layout)]);
    v
}

/// The fill pass: one subpass rendering into the mask texture.
pub fn create_fill_render_pass_desc() -> (d: RenderPassDescription)
    ensures
        d.attachments@ == seq![fill_mask_attachment()],
        d.num_subpasses == 1,
        lists_of(d.colors_per_subpass@) == seq![seq![(0usize, Layout::ColorAttachmentOptimal)]],
        lists_of(d.inputs_per_subpass@) == seq![Seq::<AttachmentRef>::empty()],
        lists_of(d.preserves_per_subpass@) == seq![Seq::<usize>::empty()],
{
    let mask_texture = stored_attachment(
        Some(R16_SFLOAT),
        AttachmentLoadOp::Clear,
        Layout::Undefined,
        Layout::ShaderReadOnlyOptimal,
    );
    let d = RenderPassDescription {
        attachments: vec![mask_texture],
        num_subpasses: 1,
        colors_per_subpass: vec![refs(0, Layout::ColorAttachmentOptimal)],
        inputs_per_subpass: vec![Vec::<AttachmentRef>::new()],
        preserves_per_subpass: vec![Vec::<usize>::new()],
    };
    assert(d.attachments@ =~= seq![fill_mask_attachment()]);
    assert(lists_of(d.colors_per_subpass@) =~= seq![seq![(0usize, Layout::ColorAttachmentOptimal)]]);
    assert(lists_of(d.inputs_per_subpass@) =~= seq![Seq::<AttachmentRef>::empty()]);
    assert(lists_of(d.preserves_per_subpass@) =~= seq![Seq::<usize>::empty()]);
    d
}

/// The draw pass with postprocessing: the first subpass reads the mask
/// texture and renders into the transient image; the second reads the
/// transient image and renders into the presented image. The last two
/// attachments take the swapchain's format.
pub fn create_draw_pass_desc() -> (d: RenderPassDescription)
    ensures
        d.attachments@ == seq![read_mask_attachment(), transient_attachment(), present_attachment()],
        d.num_subpasses == 2,
        lists_of(d.inputs_per_subpass@) == seq![
            seq![(0usize, Layout::ShaderReadOnlyOptimal)],
            seq![(1usize, Layout::ShaderReadOnlyOptimal)],
        ],
        lists_of(d.colors_per_subpass@) == seq![
            seq![(1usize, Layout::ColorAttachmentOptimal)],
            seq![(2usize, Layout::Present)],
        ],
        lists_of(d.preserves_per_subpass@) == seq![Seq::<usize>::empty(), Seq::<usize>::empty()],
{
    let fill_texture = stored_attachment(
        Some(R16_SFLOAT),
        AttachmentLoadOp::Load,
        Layout::ShaderReadOnlyOptimal,
        Layout::ShaderReadOnlyOptimal,
    );
    let transient = stored_attachment(
        None,
        AttachmentLoadOp::Clear,
        Layout::Undefined,
        Layout::ShaderReadOnlyOptimal,
    );
    let dest = stored_attachment(None, AttachmentLoadOp::Clear, Layout::Undefined, Layout::Present);
    let d = RenderPassDescription {
        attachments: vec![fill_texture, transient, dest],
        num_subpasses: 2,
        inputs_per_subpass: vec![
            refs(0, Layout::ShaderReadOnlyOptimal),
            refs(1, Layout::ShaderReadOnlyOptimal),
        ],
        colors_per_subpass: vec![
            refs(1, Layout::ColorAttachmentOptimal),
            refs(2, Layout::Present),
        ],
        preserves_per_subpass: vec![Vec::<usize>::new(), Vec::<usize>::new()],
    };
    assert(d.attachments@ =~= seq![read_mask_attachment(), transient_attachment(), present_attachment()]);
    assert(lists_of(d.inputs_per_subpass@) =~= seq![
        seq![(0usize, Layout::ShaderReadOnlyOptimal)],
        seq![(1usize, Layout::ShaderReadOnlyOptimal)],
    ]);
    assert(lists_of(d.colors_per_subpass@) =~= seq![
        seq![(1usize, Layout::ColorAttachmentOptimal)],
        seq![(2usize, Layout::Present)],
    ]);
    assert(lists_of(d.preserves_per_subpass@) =~= seq![Seq::<usize>::empty(), Seq::<usize>::empty()]);
    d
}

/// The draw pass without postprocessing: one subpass reads the mask
/// texture and renders straight into the presented image, whose format is
/// the swapchain's. The preserve table has two (empty) entries, as the
/// renderer declares it; only the first is used.
pub fn create_draw_pass_no_postprocess_desc() -> (d: RenderPassDescription)
    ensures
        d.attachments@ == seq![read_mask_attachment(), present_attachment()],
        d.num_subpasses == 1,
        lists_of(d.inputs_per_subpass@) == seq![seq![(0usize, Layout::ShaderReadOnlyOptimal)]],
        lists_of(d.colors_per_subpass@) == seq![seq![(1usize, Layout::Present)]],
        lists_of(d.preserves_per_subpass@) == seq![Seq::<usize>::empty(), Seq::<usize>::empty()],
{
    let fill_texture = stored_attachment(
        Some(R16_SFLOAT),
        AttachmentLoadOp::Load,
        Layout::ShaderReadOnlyOptimal,
        Layout::ShaderReadOnlyOptimal,
    );
    let dest = stored_attachment(None, AttachmentLoadOp::Clear, Layout::Undefined, Layout::Present);
    let d = RenderPassDescription {
        attachments: vec![fill_texture, dest],
        num_subpasses: 1,
        inputs_per_subpass: vec![refs(0, Layout::ShaderReadOnlyOptimal)],
        colors_per_subpass: vec![refs(1, Layout::Present)],
        preserves_per_subpass: vec![Vec::<usize>::new(), Vec::<usize>::new()],
    };
    assert(d.attachments@ =~= seq![read_mask_attachment(), present_attachment()]);
    assert(lists_of(d.inputs_per_subpass@) =~= seq![seq![(0usize, Layout::ShaderReadOnlyOptimal)]]);
    assert(lists_of(d.colors_per_subpass@) =~= seq![seq![(1usize, Layout::Present)]]);
    assert(lists_of(d.preserves_per_subpass@) =~= seq![Seq::<usize>::empty(), Seq::<usize>::empty()]);
    d
}

/// The indices of the draw pass's attachments whose format is the
/// swapchain's: the transient and the presented image with postprocessing,
/// the presented image alone without.
pub fn attachments_without_format(postprocess: bool) -> (indices: Vec<usize>)
    ensures
        indices@ == if postprocess {
            seq![1usize, 2usize]
        } else {
            seq![1usize]
        },
{
    let indices: Vec<usize> = if postprocess {
        vec![1, 2]
    } else {
        vec![1]
    };
    assert(indices@ =~= if postprocess {
        seq![1usize, 2usize]
    } else {
        seq![1usize]
    });
    indices
}

/// Once the swapchain's format has been given to the attachments that
/// [`attachments_without_format`] lists, every attachment of the draw
/// pass, with or without postprocessing, has a format, and the mask
/// texture keeps its own.
pub proof fn lemma_draw_pass_formats_complete(
    postprocess: bool,
    attachments: Seq<crate::attachment::Attachment>,
    indices: Seq<usize>,
    filled: Seq<crate::attachment::Attachment>,
    format: u32,
)
    requires
        attachments == if postprocess {
            seq![read_mask_attachment(), transient_attachment(), present_attachment()]
        } else {
            seq![read_mask_attachment(), present_attachment()]
        },
        indices == if postprocess {
            seq![1usize, 2usize]
        } else {
            seq![1usize]
        },
        formats_filled(attachments, filled, indices, indices.len() as int, format),
    ensures
        filled.len() == attachments.len(),
        forall|i: int| 0 <= i < filled.len() ==> (#[trigger] filled[i]).format is Some,
        filled[0] == read_mask_attachment(),
        forall|i: int| 1 <= i < filled.len() ==> (#[trigger] filled[i]).format == Some(format),
{
    assert(!listed_before(indices, indices.len() as int, 0));
    assert(listed_before(indices, indices.len() as int, 1)) by {
        assert(indices[0] == 1);
    }
    if postprocess {
        assert(listed_before(indices, indices.len() as int, 2)) by {
            assert(indices[1] == 2);
        }
    }
    assert(filled[0] == attachments[0]);
}

} // verus!
