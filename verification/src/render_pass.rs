//! A render pass of several subpasses, as the GPU state creates its render
//! passes from: the attachments, and per subpass the attachments it writes
//! as colors, reads as inputs and preserves.
use crate::attachment::{with_format, Attachment, AttachmentRef};
use vstd::prelude::*;

verus! {

/// The description a render pass is created from.
#[derive(Clone, Debug)]
pub struct RenderPassDescription {
    pub attachments: Vec<Attachment>,
    pub num_subpasses: usize,
    pub colors_per_subpass: Vec<Vec<AttachmentRef>>,
    pub inputs_per_subpass: Vec<Vec<AttachmentRef>>,
    pub preserves_per_subpass: Vec<Vec<usize>>,
}

/// One subpass: the attachments it renders to, those it reads, and those
/// whose contents it keeps without touching them.
#[derive(Clone, Debug)]
pub struct SubpassDesc {
    pub colors: Vec<AttachmentRef>,
    pub inputs: Vec<AttachmentRef>,
    pub preserves: Vec<usize>,
}

/// The contents of each list of a per-subpass table.
pub open spec fn lists_of<T>(table: Seq<Vec<T>>) -> Seq<Seq<T>> {
    table.map_values(|list: Vec<T>| list@)
}

/// Whether `index` occurs among the first `count` entries of `indices`.
pub open spec fn listed_before(indices: Seq<usize>, count: int, index: int) -> bool {
    exists|k: int| 0 <= k < count && indices[k] as int == index
}

/// The attachments after the format of every listed attachment has been set.
pub open spec fn formats_filled(
    before: Seq<Attachment>,
    after: Seq<Attachment>,
    indices: Seq<usize>,
    count: int,
    format: u32,
) -> bool {
    &&& after.len() == before.len()
    &&& forall|i: int|
        0 <= i < before.len() ==> #[trigger] after[i] == if listed_before(indices, count, i) {
            with_format(before[i], format)
        } else {
            before[i]
        }
}

fn copy_list<T: Copy>(list: &Vec<T>) -> (copy: Vec<T>)
    ensures
        copy@ == list@,
{
    let mut copy: Vec<T> = Vec::new();
    let mut i: usize = 0;
    while i < list.len()
        invariant
            i <= list.len(),
            copy@ == list@.subrange(0, i as int),
        decreases list.len() - i,
    {
        copy.push(list[i]);
        i = i + 1;
        assert(copy@ =~= list@.subrange(0, i as int));
    }
    assert(copy@ =~= list@);
    copy
}

impl RenderPassDescription {
    /// Whether each per-subpass table has an entry for every subpass.
    pub open spec fn covers_subpasses(&self) -> bool {
        &&& self.num_subpasses <= self.colors_per_subpass.len()
        &&& self.num_subpasses <= self.inputs_per_subpass.len()
        &&& self.num_subpasses <= self.preserves_per_subpass.len()
    }

    /// Sets the format of the attachment at `attachment_index`; nothing else
    /// changes.
    pub fn update_attachment_format(&mut self, attachment_index: usize, new_format: u32)
        requires
            attachment_index < old(self).attachments.len(),
        ensures
            final(self).attachments@ == old(self).attachments@.update(
                attachment_index as int,
                with_format(old(self).attachments@[attachment_index as int], new_format),
            ),
            final(self).num_subpasses == old(self).num_subpasses,
            final(self).colors_per_subpass == old(self).colors_per_subpass,
            final(self).inputs_per_subpass == old(self).inputs_per_subpass,
            final(self).preserves_per_subpass == old(self).preserves_per_subpass,
    {
        let a = self.attachments[attachment_index];
        self.attachments.set(attachment_index, Attachment { format: Some(new_format), ..a });
    }

    /// Gives every attachment listed in `indices` the swapchain's image
    /// format, as the swapchain state does before it creates its render
    /// pass; the other attachments and the subpass tables are unchanged.
    pub fn fill_attachment_formats(&mut self, indices: &Vec<usize>, format: u32)
        requires
            forall|k: int| 0 <= k < indices.len() ==> #[trigger] indices[k] < old(self).attachments.len(),
        ensures
            formats_filled(
                old(self).attachments@,
                final(self).attachments@,
                indices@,
                indices.len() as int,
                format,
            ),
            final(self).num_subpasses == old(self).num_subpasses,
            final(self).colors_per_subpass == old(self).colors_per_subpass,
            final(self).inputs_per_subpass == old(self).inputs_per_subpass,
            final(self).preserves_per_subpass == old(self).preserves_per_subpass,
    {
        let ghost before = self.attachments@;
        let mut k: usize = 0;
        while k < indices.len()
            invariant
                k <= indices.len(),
                forall|j: int| 0 <= j < indices.len() ==> #[trigger] indices[j] < before.len(),
                formats_filled(before, self.attachments@, indices@, k as int, format),
                self.num_subpasses == old(self).num_subpasses,
                self.colors_per_subpass == old(self).colors_per_subpass,
                self.inputs_per_subpass == old(self).inputs_per_subpass,
                self.preserves_per_subpass == old(self).preserves_per_subpass,
            decreases indices.len() - k,
        {
            let ix = indices[k];
            let ghost mid = self.attachments@;
            self.update_attachment_format(ix, format);
            assert forall|i: int| 0 <= i < before.len() implies #[trigger] self.attachments@[i]
                == if listed_before(indices@, k + 1, i) {
                with_format(before[i], format)
            } else {
                before[i]
            } by {
                if i == ix as int {
                    assert(listed_before(indices@, k + 1, i));
                    assert(mid[i] == before[i] || mid[i] == with_format(before[i], format));
                } else {
                    assert(self.attachments@[i] == mid[i]);
                    if listed_before(indices@, k + 1, i) {
                        let w = choose|w: int| 0 <= w < k + 1 && indices@[w] as int == i;
                        assert(w != k);
                        assert(listed_before(indices@, k as int, i));
                    }
                    if listed_before(indices@, k as int, i) {
                        let w = choose|w: int| 0 <= w < k && indices@[w] as int == i;
                        assert(0 <= w < k + 1 && indices@[w] as int == i);
                    }
                }
            }
            k = k + 1;
        }
    }

    /// The subpasses a render pass is created with: subpass `i` renders to
    /// `colors_per_subpass[i]`, reads `inputs_per_subpass[i]` and preserves
    /// `preserves_per_subpass[i]`, for each of the `num_subpasses` subpasses.
    pub fn subpasses(&self) -> (subpasses: Vec<SubpassDesc>)
        requires
            self.covers_subpasses(),
        ensures
            subpasses.len() == self.num_subpasses,
            forall|i: int|
                0 <= i < self.num_subpasses ==> {
                    &&& (#[trigger] subpasses[i]).colors@ == self.colors_per_subpass[i]@
                    &&& subpasses[i].inputs@ == self.inputs_per_subpass[i]@
                    &&& subpasses[i].preserves@ == self.preserves_per_subpass[i]@
                },
    {
        let mut subpasses: Vec<SubpassDesc> = Vec::new();
        let mut i: usize = 0;
        while i < self.num_subpasses
            invariant
                self.covers_subpasses(),
                i <= self.num_subpasses,
                subpasses.len() == i,
                forall|j: int|
                    0 <= j < i ==> {
                        &&& (#[trigger] subpasses[j]).colors@ == self.colors_per_subpass[j]@
                        &&& subpasses[j].inputs@ == self.inputs_per_subpass[j]@
                        &&& subpasses[j].preserves@ == self.preserves_per_subpass[j]@
                    },
            decreases self.num_subpasses - i,
        {
            let subpass = SubpassDesc {
                colors: copy_list(&self.colors_per_subpass[i]),
                inputs: copy_list(&self.inputs_per_subpass[i]),
                preserves: copy_list(&self.preserves_per_subpass[i]),
            };
            subpasses.push(subpass);
            i = i + 1;
        }
        subpasses
    }
}

} // verus!
