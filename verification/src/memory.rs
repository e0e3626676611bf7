//! Choosing device memory and laying out buffers: which memory type a
//! resource is bound to, where each buffer of a pool lives, which buffers
//! have been filled for drawing, and how a texture is copied in.
use crate::primitives::Point2DI32;
use vstd::prelude::*;

verus! {

/// gfx-hal `memory::Properties::DEVICE_LOCAL`.
pub const DEVICE_LOCAL: u16 = 0x1;
/// gfx-hal `memory::Properties::CPU_VISIBLE`.
pub const CPU_VISIBLE: u16 = 0x2;
/// gfx-hal `memory::Properties::COHERENT`.
pub const COHERENT: u16 = 0x4;
/// gfx-hal `memory::Properties::CPU_CACHED`.
pub const CPU_CACHED: u16 = 0x8;
/// gfx-hal `memory::Properties::LAZILY_ALLOCATED`.
pub const LAZILY_ALLOCATED: u16 = 0x10;

/// Memory type `id`, with `properties`, can hold a resource whose
/// requirements allow the types in `type_mask` and that needs the
/// `required` properties.
pub open spec fn suitable_memory_type(type_mask: u64, id: u64, properties: u16, required: u16) -> bool {
    &&& type_mask & (1u64 << id) != 0
    &&& properties & required == required
}

/// Whether memory type `id` suits a resource.
pub fn memory_type_suitable(type_mask: u64, id: usize, properties: u16, required: u16) -> (suits: bool)
    requires
        id < 64,
    ensures
        suits == suitable_memory_type(type_mask, id as u64, properties, required),
{
    let bit: u64 = 1u64 << (id as u64);
    type_mask & bit != 0 && properties & required == required
}

/// The first memory type, in the adapter's order, that suits a resource;
/// `memory_type_properties[i]` holds the properties of type `i`.
pub fn find_memory_type(type_mask: u64, memory_type_properties: &Vec<u16>, required: u16) -> (found: Option<usize>)
    requires
        memory_type_properties@.len() <= 64,
    ensures
        match found {
            Some(id) => {
                &&& id < memory_type_properties@.len()
                &&& suitable_memory_type(type_mask, id as u64, memory_type_properties@[id as int], required)
                &&& forall|j: int|
                    0 <= j < id ==> !suitable_memory_type(
                        type_mask,
                        j as u64,
                        #[trigger] memory_type_properties@[j],
                        required,
                    )
            },
            None => forall|j: int|
                0 <= j < memory_type_properties@.len() ==> !suitable_memory_type(
                    type_mask,
                    j as u64,
                    #[trigger] memory_type_properties@[j],
                    required,
                ),
        },
{
    let n = memory_type_properties.len();
    for id in 0..n
        invariant
            n == memory_type_properties@.len(),
            n <= 64,
            forall|j: int|
                0 <= j < id ==> !suitable_memory_type(
                    type_mask,
                    j as u64,
                    #[trigger] memory_type_properties@[j],
                    required,
                ),
    {
        if memory_type_suitable(type_mask, id, memory_type_properties[id], required) {
            return Some(id);
        }
    }
    None
}

/// The first index whose status is set, such as the first signalled
/// fence or the first buffer that is free again.
pub fn first_ready_index(ready: &Vec<bool>) -> (found: Option<usize>)
    ensures
        match found {
            Some(i) => i < ready@.len() && ready@[i as int] && forall|j: int| 0 <= j < i ==> !#[trigger] ready@[j],
            None => forall|j: int| 0 <= j < ready@.len() ==> !#[trigger] ready@[j],
        },
{
    let n = ready.len();
    for i in 0..n
        invariant
            n == ready@.len(),
            forall|j: int| 0 <= j < i ==> !#[trigger] ready@[j],
    {
        if ready[i] {
            return Some(i);
        }
    }
    None
}

/// Where each buffer of a pool starts in the pool's shared memory: buffer
/// `n` at `n * buffer_size`.
pub fn buffer_offsets(buffer_size: u64, num_buffers: u8) -> (offsets: Vec<u64>)
    requires
        buffer_size * num_buffers <= u64::MAX,
    ensures
        offsets@.len() == num_buffers,
        forall|n: int| 0 <= n < num_buffers ==> #[trigger] offsets@[n] == n * buffer_size,
{
    let mut offsets: Vec<u64> = Vec::new();
    let count = num_buffers as u64;
    let mut n: u64 = 0;
    while n < count
        invariant
            count == num_buffers,
            n <= count,
            buffer_size * count <= u64::MAX,
            offsets@.len() == n,
            forall|m: int| 0 <= m < n ==> #[trigger] offsets@[m] == m * buffer_size,
        decreases count - n,
    {
        assert(n * buffer_size <= count * buffer_size) by (nonlinear_arith)
            requires
                n <= count,
        ;
        offsets.push(n * buffer_size);
        n = n + 1;
    }
    offsets
}

/// A recorded draw: the vertex and instance ranges to draw from buffer
/// `buffer_index` of a pool.
#[derive(Clone, Copy, Debug)]
pub struct Submission {
    pub vertices: (u32, u32),
    pub instances: (u32, u32),
    pub buffer_index: usize,
}

/// The draws recorded against a pool of `capacity` buffers since the list
/// was last cleared: at most as many as the pool has buffers, each from a
/// buffer of the pool (two draws may come from the same buffer).
pub struct SubmissionList {
    capacity: usize,
    entries: Vec<Submission>,
}

impl SubmissionList {
    #[verifier::type_invariant]
    spec fn within_capacity(&self) -> bool {
        &&& self.entries@.len() <= self.capacity
        &&& forall|i: int| 0 <= i < self.entries@.len() ==> #[trigger] self.entries@[i].buffer_index < self.capacity
    }

    /// The number of buffers of the pool.
    pub closed spec fn spec_capacity(&self) -> usize {
        self.capacity
    }

    /// The draws recorded, in order.
    pub closed spec fn spec_entries(&self) -> Seq<Submission> {
        self.entries@
    }

    /// An empty list for a pool of `capacity` buffers.
    pub fn new(capacity: usize) -> (list: SubmissionList)
        ensures
            list.spec_capacity() == capacity,
            list.spec_entries() == Seq::<Submission>::empty(),
    {
        SubmissionList { capacity, entries: Vec::new() }
    }

    /// Whether as many draws are recorded as the pool has buffers.
    pub fn is_full(&self) -> (full: bool)
        ensures
            full == (self.spec_entries().len() == self.spec_capacity()),
    {
        proof {
            use_type_invariant(self);
        }
        self.entries.len() == self.capacity
    }

    /// Records a draw from buffer `buffer_index` unless as many draws are
    /// recorded as the pool has buffers; says whether it was recorded.
    pub fn record(&mut self, vertices: (u32, u32), instances: (u32, u32), buffer_index: usize) -> (recorded: bool)
        requires
            buffer_index < old(self).spec_capacity(),
        ensures
            recorded == (old(self).spec_entries().len() < old(self).spec_capacity()),
            final(self).spec_capacity() == old(self).spec_capacity(),
            recorded ==> final(self).spec_entries() == old(self).spec_entries().push(
                Submission { vertices, instances, buffer_index },
            ),
            !recorded ==> final(self).spec_entries() == old(self).spec_entries(),
    {
        proof {
            use_type_invariant(&*self);
        }
        if self.entries.len() == self.capacity {
            return false;
        }
        let mut entries: Vec<Submission> = Vec::new();
        std::mem::swap(&mut entries, &mut self.entries);
        entries.push(Submission { vertices, instances, buffer_index });
        self.entries = entries;
        true
    }

    /// The recorded draws, in order.
    pub fn entries(&self) -> (entries: &Vec<Submission>)
        ensures
            entries@ == self.spec_entries(),
    {
        &self.entries
    }

    /// Forgets the recorded draws.
    pub fn clear(&mut self)
        ensures
            final(self).spec_capacity() == old(self).spec_capacity(),
            final(self).spec_entries() == Seq::<Submission>::empty(),
    {
        self.entries = Vec::new();
    }
}

/// The size of an image in texels, with a depth of one.
#[derive(Clone, Copy, Debug, PartialEq, Eq, Structural)]
pub struct Extent {
    pub width: u32,
    pub height: u32,
    pub depth: u32,
}

/// The extent of an image of `size`.
pub open spec fn image_extent_of(size: Point2DI32) -> Extent {
    Extent { width: size.x as u32, height: size.y as u32, depth: 1 }
}

/// The extent of a 2D image of `size`.
pub fn image_extent(size: Point2DI32) -> (extent: Extent)
    ensures
        extent == image_extent_of(size),
{
    Extent { width: size.x as u32, height: size.y as u32, depth: 1 }
}

/// How texel data reaches an image through a staging buffer: the staging
/// buffer's size, the row width and height of the data in the buffer, and
/// the image extent written.
#[derive(Clone, Copy, Debug, PartialEq, Eq, Structural)]
pub struct StagingCopy {
    pub staging_buffer_size: u64,
    pub buffer_width: u32,
    pub buffer_height: u32,
    pub image_extent: Extent,
}

/// The staging copy of an image of `size` whose texels take `texel_size`
/// bytes: a staging buffer of one byte per texel, rows of `size.x` texels
/// (the row pitch divided again by the texel size), `size.y` rows.
pub fn staging_copy(size: Point2DI32, texel_size: usize) -> (copy: StagingCopy)
    requires
        texel_size > 0,
        i32::MIN <= size.x * size.y <= i32::MAX,
        texel_size * (size.x as usize) <= usize::MAX,
    ensures
        copy == (StagingCopy {
            staging_buffer_size: (size.x * size.y) as u64,
            buffer_width: (size.x as usize) as u32,
            buffer_height: size.y as u32,
            image_extent: image_extent_of(size),
        }),
{
    let staging_buffer_size = (size.x * size.y) as u64;
    let row_pitch = texel_size * (size.x as usize);
    assert(row_pitch / texel_size == size.x as usize) by (nonlinear_arith)
        requires
            texel_size > 0,
            row_pitch == texel_size * (size.x as usize),
    ;
    StagingCopy {
        staging_buffer_size,
        buffer_width: (row_pitch / texel_size) as u32,
        buffer_height: size.y as u32,
        image_extent: image_extent(size),
    }
}

} // verus!
