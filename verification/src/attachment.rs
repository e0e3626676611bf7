//! Render-pass attachments: the images a render pass reads and writes, with
//! their formats, load and store operations and layouts.
//!
//! These are plain-value counterparts of gfx-hal's `pass` and `image::Layout`
//! types; a format is a gfx-hal format number.
use vstd::prelude::*;

verus! {

/// The layout an image is in (gfx-hal `image::Layout`).
#[derive(Clone, Copy, Debug, PartialEq, Eq, Structural)]
pub enum Layout {
    General,
    ColorAttachmentOptimal,
    DepthStencilAttachmentOptimal,
    DepthStencilReadOnlyOptimal,
    ShaderReadOnlyOptimal,
    TransferSrcOptimal,
    TransferDstOptimal,
    Undefined,
    Preinitialized,
    Present,
}

/// What happens to an attachment's contents when a render pass begins.
#[derive(Clone, Copy, Debug, PartialEq, Eq, Structural)]
pub enum AttachmentLoadOp {
    Load,
    Clear,
    DontCare,
}

/// What happens to an attachment's contents when a render pass ends.
#[derive(Clone, Copy, Debug, PartialEq, Eq, Structural)]
pub enum AttachmentStoreOp {
    Store,
    DontCare,
}

/// The load and store operations of an attachment or of its stencil aspect.
#[derive(Clone, Copy, Debug, PartialEq, Eq, Structural)]
pub struct AttachmentOps {
    pub load: AttachmentLoadOp,
    pub store: AttachmentStoreOp,
}

/// The layout an attachment starts a render pass in and the one it ends in.
#[derive(Clone, Copy, Debug, PartialEq, Eq, Structural)]
pub struct LayoutRange {
    pub start: Layout,
    pub end: Layout,
}

/// A resource of a render pass. A `format` of `None` marks an attachment
/// whose format is only known once the swapchain has been created.
#[derive(Clone, Copy, Debug, PartialEq, Eq, Structural)]
pub struct Attachment {
    pub format: Option<u32>,
    pub samples: u8,
    pub ops: AttachmentOps,
    pub stencil_ops: AttachmentOps,
    pub layouts: LayoutRange,
}

/// A reference from a subpass to an attachment, by index, with the layout
/// the subpass expects it in.
pub type AttachmentRef = (usize, Layout);

/// gfx-hal `AttachmentOps::DONT_CARE`: contents are neither loaded nor stored.
pub open spec fn dont_care_ops() -> AttachmentOps {
    AttachmentOps { load: AttachmentLoadOp::DontCare, store: AttachmentStoreOp::DontCare }
}

/// Operations that load or clear as asked and always store.
pub open spec fn stored_ops(load: AttachmentLoadOp) -> AttachmentOps {
    AttachmentOps { load, store: AttachmentStoreOp::Store }
}

/// The attachments the renderer declares: a sample count of 0, always
/// stored, stencil ignored.
pub open spec fn renderer_attachment(
    format: Option<u32>,
    load: AttachmentLoadOp,
    start: Layout,
    end: Layout,
) -> Attachment {
    Attachment {
        format,
        samples: 0,
        ops: stored_ops(load),
        stencil_ops: dont_care_ops(),
        layouts: LayoutRange { start, end },
    }
}

/// Builds an attachment as the renderer declares them.
pub(crate) fn stored_attachment(
    format: Option<u32>,
    load: AttachmentLoadOp,
    start: Layout,
    end: Layout,
) -> (a: Attachment)
    ensures
        a == renderer_attachment(format, load, start, end),
{
    Attachment {
        format,
        samples: 0,
        ops: AttachmentOps { load, store: AttachmentStoreOp::Store },
        stencil_ops: AttachmentOps {
            load: AttachmentLoadOp::DontCare,
            store: AttachmentStoreOp::DontCare,
        },
        layouts: LayoutRange { start, end },
    }
}

/// The attachment with its format set to `format`, as gfx-hal's
/// `Option::replace` on the format field leaves it.
pub open spec fn with_format(a: Attachment, format: u32) -> Attachment {
    Attachment { format: Some(format), ..a }
}

} // verus!
