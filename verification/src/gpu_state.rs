//! What the GPU state starts with: its frame index, which attachments wait
//! for the swapchain's format, its buffer pools and fill framebuffer.
use crate::format::R16_SFLOAT;
use crate::primitives::Point2DI32;
use crate::render_pass_descriptions::attachments_without_format;
use vstd::prelude::*;

verus! {

/// What a pool's buffers are bound as.
#[derive(Clone, Copy, Debug, PartialEq, Eq, Structural)]
pub enum BufferUsage {
    Vertex,
    Index,
    Transient,
}

/// A pool of equal buffers sharing one allocation.
#[derive(Clone, Copy, Debug, PartialEq, Eq, Structural)]
pub struct BufferPoolPlan {
    pub buffer_size: u64,
    pub num_buffers: u8,
    pub usage: BufferUsage,
}

/// The maximum sizes of the GPU state's buffers.
#[derive(Clone, Copy, Debug, PartialEq, Eq, Structural)]
pub struct BufferSizes {
    pub max_quad_vertex_positions_buffer_size: u64,
    pub max_quad_vertex_indices_buffer_size: u64,
    pub max_fill_vertex_buffer_size: u64,
    pub max_tile_vertex_buffer_size: u64,
}

/// The GPU state as it is created.
#[derive(Clone, Debug)]
pub struct GpuStatePlan {
    pub current_frame_index: usize,
    pub indices_of_attachments_without_format: Vec<usize>,
    pub quad_vertex_positions_buffer_pool: BufferPoolPlan,
    pub quad_vertex_indices_buffer_pool: BufferPoolPlan,
    pub fill_vertex_buffer_pool: BufferPoolPlan,
    pub tile_solid_vertex_buffer_pool: BufferPoolPlan,
    pub tile_alpha_vertex_buffer_pool: BufferPoolPlan,
    pub stencil_vertex_buffer_pool: BufferPoolPlan,
    pub transient_buffer_pool: BufferPoolPlan,
    pub fill_framebuffer_format: u32,
    pub fill_framebuffer_size: Point2DI32,
    pub monochrome: bool,
}

/// A pool of `num_buffers` buffers of `buffer_size` bytes used as `usage`.
pub open spec fn pool(buffer_size: u64, num_buffers: u8, usage: BufferUsage) -> BufferPoolPlan {
    BufferPoolPlan { buffer_size, num_buffers, usage }
}

/// The GPU state as it is created for a swapchain of `swapchain_images`
/// images (one frame in flight per image): frame 0 first; a single buffer
/// for the shared quad's positions and indices; one buffer per frame in
/// flight (the count kept in a byte) for fills, solid and alpha tiles,
/// stencil quads and transient data; a half-float fill framebuffer of the
/// given size; and the attachments of the draw pass that take the
/// swapchain's format, which depend on whether a postprocessing pipeline is
/// given.
pub fn gpu_state_plan(
    postprocess: bool,
    swapchain_images: usize,
    fill_framebuffer_size: Point2DI32,
    sizes: BufferSizes,
    monochrome: bool,
) -> (plan: GpuStatePlan)
    ensures
        plan.current_frame_index == 0,
        plan.indices_of_attachments_without_format@ == if postprocess {
            seq![1usize, 2usize]
        } else {
            seq![1usize]
        },
        plan.quad_vertex_positions_buffer_pool == pool(sizes.max_quad_vertex_positions_buffer_size, 1, BufferUsage::Vertex),
        plan.quad_vertex_indices_buffer_pool == pool(sizes.max_quad_vertex_indices_buffer_size, 1, BufferUsage::Index),
        plan.fill_vertex_buffer_pool == pool(sizes.max_fill_vertex_buffer_size, swapchain_images as u8, BufferUsage::Vertex),
        plan.tile_solid_vertex_buffer_pool == pool(sizes.max_tile_vertex_buffer_size, swapchain_images as u8, BufferUsage::Vertex),
        plan.tile_alpha_vertex_buffer_pool == pool(sizes.max_tile_vertex_buffer_size, swapchain_images as u8, BufferUsage::Vertex),
        plan.stencil_vertex_buffer_pool == pool(sizes.max_quad_vertex_positions_buffer_size, swapchain_images as u8, BufferUsage::Vertex),
        plan.transient_buffer_pool == pool(sizes.max_quad_vertex_positions_buffer_size, swapchain_images as u8, BufferUsage::Transient),
        plan.fill_framebuffer_format == R16_SFLOAT,
        plan.fill_framebuffer_size == fill_framebuffer_size,
        plan.monochrome == monochrome,
{
    let frames = swapchain_images as u8;
    let quad_vertex_positions_buffer_pool = BufferPoolPlan {
        buffer_size: sizes.max_quad_vertex_positions_buffer_size,
        num_buffers: 1,
        usage: BufferUsage::Vertex,
    };
    GpuStatePlan {
        current_frame_index: 0,
        indices_of_attachments_without_format: attachments_without_format(postprocess),
        quad_vertex_positions_buffer_pool,
        quad_vertex_indices_buffer_pool: BufferPoolPlan {
            buffer_size: sizes.max_quad_vertex_indices_buffer_size,
            num_buffers: 1,
            usage: BufferUsage::Index,
        },
        fill_vertex_buffer_pool: BufferPoolPlan {
            buffer_size: sizes.max_fill_vertex_buffer_size,
            num_buffers: frames,
            usage: BufferUsage::Vertex,
        },
        tile_solid_vertex_buffer_pool: BufferPoolPlan {
            buffer_size: sizes.max_tile_vertex_buffer_size,
            num_buffers: frames,
            usage: BufferUsage::Vertex,
        },
        tile_alpha_vertex_buffer_pool: BufferPoolPlan {
            buffer_size: sizes.max_tile_vertex_buffer_size,
            num_buffers: frames,
            usage: BufferUsage::Vertex,
        },
        stencil_vertex_buffer_pool: BufferPoolPlan {
            buffer_size: quad_vertex_positions_buffer_pool.buffer_size,
            num_buffers: frames,
            usage: BufferUsage::Vertex,
        },
        transient_buffer_pool: BufferPoolPlan {
            buffer_size: sizes.max_quad_vertex_positions_buffer_size,
            num_buffers: frames,
            usage: BufferUsage::Transient,
        },
        fill_framebuffer_format: R16_SFLOAT,
        fill_framebuffer_size,
        monochrome,
    }
}

} // verus!
