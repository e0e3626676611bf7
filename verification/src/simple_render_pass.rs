//! A render pass of a single subpass, as the draw pipeline state creates
//! its render passes from.
use crate::attachment::{with_format, Attachment, AttachmentRef};
use vstd::prelude::*;

verus! {

/// The description a single-subpass render pass is created from: its
/// attachments, and the attachments the subpass renders to and reads.
#[derive(Clone, Debug)]
pub struct RenderPassDescription {
    pub attachments: Vec<Attachment>,
    pub subpass_colors: Vec<AttachmentRef>,
    pub subpass_inputs: Vec<AttachmentRef>,
}

impl RenderPassDescription {
    /// The description the draw render pass is created from once the
    /// swapchain's image format is known: the last attachment alone, with
    /// that format; the subpass keeps its color and input references.
    pub fn with_swapchain_format(self, swapchain_image_format: u32) -> (d: RenderPassDescription)
        requires
            self.attachments.len() > 0,
        ensures
            d.attachments@ == seq![with_format(self.attachments@.last(), swapchain_image_format)],
            d.subpass_colors@ == self.subpass_colors@,
            d.subpass_inputs@ == self.subpass_inputs@,
    {
        let RenderPassDescription { attachments, subpass_colors, subpass_inputs } = self;
        let mut attachments = attachments;
        let last = match attachments.pop() {
            Some(a) => a,
            None => {
                assert(false);
                return RenderPassDescription { attachments, subpass_colors, subpass_inputs };
            },
        };
        let attachments = vec![Attachment { format: Some(swapchain_image_format), ..last }];
        RenderPassDescription { attachments, subpass_colors, subpass_inputs }
    }
}

} // verus!
