//! The renderer's decisions between GPU calls: which fills are drawn in
//! which batch, when the mask framebuffer is cleared, what the statistics
//! count, which pipeline draws tiles, and which viewport they are drawn in.
use crate::color::ColorU;
use crate::gpu_types::{BlendState, PipelineVariant, StencilFunc, TextureFormat};
use crate::primitives::{
    AlphaTileBatchPrimitive, FillBatchPrimitive, Point2DI32, RectI32, SolidTileBatchPrimitive,
};
use vstd::prelude::*;

verus! {

/// The width of a tile in pixels.
pub const TILE_WIDTH: i32 = 16;
/// The height of a tile in pixels.
pub const TILE_HEIGHT: i32 = 16;
/// The width of the mask framebuffer: 256 tiles.
pub const MASK_FRAMEBUFFER_WIDTH: i32 = TILE_WIDTH * 256;
/// The height of the mask framebuffer: 256 tiles.
pub const MASK_FRAMEBUFFER_HEIGHT: i32 = TILE_HEIGHT * 256;

/// The most fills drawn by one instanced draw call.
pub const MAX_FILLS_PER_BATCH: usize = 0x4000;
/// The width, in texels, of the per-object fill color texture.
pub const FILL_COLORS_TEXTURE_WIDTH: i32 = 256;
/// The height, in texels, of the per-object fill color texture.
pub const FILL_COLORS_TEXTURE_HEIGHT: i32 = 256;
/// The number of bytes of the fill color texture (four per texel).
pub const FILL_COLORS_TEXTURE_BYTES: usize = 262144;

/// What the renderer counted while drawing a scene.
#[derive(Clone, Copy, Debug, Default, PartialEq, Eq, Structural)]
pub struct RenderStats {
    pub object_count: usize,
    pub fill_count: usize,
    pub alpha_tile_count: usize,
    pub solid_tile_count: usize,
}

impl RenderStats {
    /// The counts of two scenes together.
    pub fn add(self, other: RenderStats) -> (sum: RenderStats)
        requires
            self.object_count + other.object_count <= usize::MAX,
            self.fill_count + other.fill_count <= usize::MAX,
            self.alpha_tile_count + other.alpha_tile_count <= usize::MAX,
            self.solid_tile_count + other.solid_tile_count <= usize::MAX,
        ensures
            sum.object_count == self.object_count + other.object_count,
            sum.fill_count == self.fill_count + other.fill_count,
            sum.alpha_tile_count == self.alpha_tile_count + other.alpha_tile_count,
            sum.solid_tile_count == self.solid_tile_count + other.solid_tile_count,
    {
        RenderStats {
            object_count: self.object_count + other.object_count,
            solid_tile_count: self.solid_tile_count + other.solid_tile_count,
            alpha_tile_count: self.alpha_tile_count + other.alpha_tile_count,
            fill_count: self.fill_count + other.fill_count,
        }
    }

    /// Each count divided (rounding down) by `divisor`, as when averaging
    /// over that many frames.
    pub fn div(self, divisor: usize) -> (quotient: RenderStats)
        requires
            divisor > 0,
        ensures
            quotient.object_count == self.object_count / divisor,
            quotient.fill_count == self.fill_count / divisor,
            quotient.alpha_tile_count == self.alpha_tile_count / divisor,
            quotient.solid_tile_count == self.solid_tile_count / divisor,
    {
        RenderStats {
            object_count: self.object_count / divisor,
            solid_tile_count: self.solid_tile_count / divisor,
            alpha_tile_count: self.alpha_tile_count / divisor,
            fill_count: self.fill_count / divisor,
        }
    }
}

/// How colors are drawn: per object from the fill color texture, or in one
/// foreground color, possibly followed by a postprocessing pass that
/// applies a defringing kernel and/or gamma correction.
///
/// The foreground and background colors and the kernel's weights are
/// floating point; what the renderer's decisions read of them is whether a
/// kernel is present.
#[derive(Clone, Copy, Debug, PartialEq, Eq, Structural)]
pub enum RenderMode {
    Multicolor,
    Monochrome { has_defringing_kernel: bool, gamma_correction: bool },
}

impl Default for RenderMode {
    fn default() -> (mode: RenderMode)
        ensures
            mode == RenderMode::Multicolor,
    {
        RenderMode::Multicolor
    }
}

/// Whether a mode draws into an intermediate framebuffer that is
/// postprocessed into the destination.
pub open spec fn needs_postprocessing(mode: RenderMode) -> bool {
    match mode {
        RenderMode::Monochrome { has_defringing_kernel, gamma_correction } => has_defringing_kernel
            || gamma_correction,
        RenderMode::Multicolor => false,
    }
}

/// A stencil test as the renderer requests it.
#[derive(Clone, Copy, Debug, PartialEq, Eq, Structural)]
pub struct StencilState {
    pub func: StencilFunc,
    pub reference: u32,
    pub mask: u32,
    pub write: bool,
}

/// Where the frame finally goes: the window's default framebuffer (drawn in
/// `viewport`), or an offscreen framebuffer whose texture has
/// `texture_size`.
#[derive(Clone, Copy, Debug, PartialEq, Eq, Structural)]
pub enum DestFramebuffer {
    Default { viewport: RectI32, window_size: Point2DI32 },
    Other { texture_size: Point2DI32 },
}

impl DestFramebuffer {
    /// The default framebuffer, drawn over the whole window.
    pub fn full_window(window_size: Point2DI32) -> (dest: DestFramebuffer)
        ensures
            dest == (DestFramebuffer::Default {
                viewport: RectI32 { origin: Point2DI32 { x: 0, y: 0 }, size: window_size },
                window_size,
            }),
    {
        let viewport = RectI32::new(Point2DI32::new(0, 0), window_size);
        DestFramebuffer::Default { viewport, window_size }
    }

    /// The size of the window or of the offscreen texture.
    pub fn window_size(&self) -> (size: Point2DI32)
        ensures
            size == match *self {
                DestFramebuffer::Default { window_size, .. } => window_size,
                DestFramebuffer::Other { texture_size } => texture_size,
            },
    {
        match *self {
            DestFramebuffer::Default { window_size, .. } => window_size,
            DestFramebuffer::Other { texture_size } => texture_size,
        }
    }
}

/// The viewport of the destination: the default framebuffer's viewport, or
/// the whole offscreen texture.
pub open spec fn main_viewport_of(dest: DestFramebuffer) -> RectI32 {
    match dest {
        DestFramebuffer::Default { viewport, .. } => viewport,
        DestFramebuffer::Other { texture_size } => RectI32 {
            origin: Point2DI32 { x: 0, y: 0 },
            size: texture_size,
        },
    }
}

/// The viewport tiles are drawn in: the main viewport, or, when a
/// defringing kernel will filter subpixels, a rectangle at the origin three
/// times as wide as it.
pub open spec fn draw_viewport_of(mode: RenderMode, dest: DestFramebuffer) -> RectI32 {
    match mode {
        RenderMode::Monochrome { has_defringing_kernel: true, .. } => RectI32 {
            origin: Point2DI32 { x: 0, y: 0 },
            size: Point2DI32 {
                x: (main_viewport_of(dest).size.x * 3) as i32,
                y: main_viewport_of(dest).size.y,
            },
        },
        _ => main_viewport_of(dest),
    }
}

/// The pipeline that draws tiles: solid or alpha, single-color or
/// per-object color.
pub open spec fn tile_pipeline(monochrome: bool, solid: bool) -> PipelineVariant {
    if monochrome {
        if solid {
            PipelineVariant::SolidMonochrome
        } else {
            PipelineVariant::AlphaMonochrome
        }
    } else {
        if solid {
            PipelineVariant::SolidMulticolor
        } else {
            PipelineVariant::AlphaMulticolor
        }
    }
}

/// Chooses the pipeline that draws tiles.
pub fn tile_pipeline_variant(monochrome: bool, solid: bool) -> (variant: PipelineVariant)
    ensures
        variant == tile_pipeline(monochrome, solid),
{
    match (monochrome, solid) {
        (true, true) => PipelineVariant::SolidMonochrome,
        (true, false) => PipelineVariant::AlphaMonochrome,
        (false, true) => PipelineVariant::SolidMulticolor,
        (false, false) => PipelineVariant::AlphaMulticolor,
    }
}

/// The fill color texture: texel `i` holds the RGBA bytes of shader `i`'s
/// color; texels without a shader are zero.
pub open spec fn fill_color_texel_byte(shaders: Seq<ColorU>, k: int) -> u8 {
    if k / 4 < shaders.len() {
        let c = shaders[k / 4];
        if k % 4 == 0 {
            c.r
        } else if k % 4 == 1 {
            c.g
        } else if k % 4 == 2 {
            c.b
        } else {
            c.a
        }
    } else {
        0
    }
}

/// Lays the objects' fill colors out in the fill color texture, one RGBA
/// texel per object in object order.
pub fn fill_colors_texels(shaders: &Vec<ColorU>) -> (texels: Vec<u8>)
    requires
        shaders@.len() * 4 <= FILL_COLORS_TEXTURE_BYTES,
    ensures
        texels@.len() == FILL_COLORS_TEXTURE_BYTES,
        forall|k: int|
            0 <= k < FILL_COLORS_TEXTURE_BYTES ==> #[trigger] texels@[k] == fill_color_texel_byte(
                shaders@,
                k,
            ),
{
    let mut texels: Vec<u8> = Vec::new();
    let n = shaders.len();
    let mut i: usize = 0;
    while i < n
        invariant
            n == shaders@.len(),
            n * 4 <= FILL_COLORS_TEXTURE_BYTES,
            i <= n,
            texels@.len() == i * 4,
            forall|k: int| 0 <= k < i * 4 ==> #[trigger] texels@[k] == fill_color_texel_byte(shaders@, k),
        decreases n - i,
    {
        let c = shaders[i];
        texels.push(c.r);
        texels.push(c.g);
        texels.push(c.b);
        texels.push(c.a);
        assert forall|k: int| 0 <= k < (i + 1) * 4 implies #[trigger] texels@[k] == fill_color_texel_byte(
            shaders@,
            k,
        ) by {
            if k >= i * 4 {
                assert(k / 4 == i);
            }
        }
        i = i + 1;
    }
    while texels.len() < FILL_COLORS_TEXTURE_BYTES
        invariant
            n == shaders@.len(),
            n * 4 <= texels@.len() <= FILL_COLORS_TEXTURE_BYTES,
            forall|k: int| 0 <= k < texels@.len() ==> #[trigger] texels@[k] == fill_color_texel_byte(shaders@, k),
        decreases FILL_COLORS_TEXTURE_BYTES - texels@.len(),
    {
        let ghost k = texels@.len() as int;
        assert(k / 4 >= n);
        texels.push(0);
    }
    texels
}

/// A batch of fills drawn by one instanced draw call into the mask
/// framebuffer, which is cleared first when `clear_mask_framebuffer` is set.
#[derive(Clone, Debug)]
pub struct FillBatch {
    pub fills: Vec<FillBatchPrimitive>,
    pub clear_mask_framebuffer: bool,
}

/// A command of a built scene, as the renderer consumes it. The bounding
/// quad of `Start` is drawn into the stencil buffer by the caller when
/// asked to; objects' shaders are given by their fill colors.
#[derive(Clone, Debug)]
pub enum RenderCommand {
    Start { object_count: usize },
    AddShaders(Vec<ColorU>),
    AddFills(Vec<FillBatchPrimitive>),
    FlushFills,
    SolidTile(Vec<SolidTileBatchPrimitive>),
    AlphaTile(Vec<AlphaTileBatchPrimitive>),
    Finish,
}

/// The GPU work that one render command asks for.
#[derive(Clone, Debug)]
pub enum RenderAction {
    /// Nothing to draw.
    Nothing,
    /// Draw the scene's bounding quad into the depth and stencil buffers.
    DrawStencil,
    /// Upload this data to the fill color texture.
    UploadFillColors(Vec<u8>),
    /// Draw these batches of fills into the mask framebuffer, in order.
    DrawFills(Vec<FillBatch>),
    /// Upload the command's solid tiles and draw this many instances.
    DrawSolidTiles { count: u32 },
    /// Upload the command's alpha tiles and draw this many instances.
    DrawAlphaTiles { count: u32 },
}

/// The renderer's state as its contracts speak of it.
pub struct RendererView {
    pub dest_framebuffer: DestFramebuffer,
    pub render_mode: RenderMode,
    pub use_depth: bool,
    pub mask_framebuffer_cleared: bool,
    pub buffered_fills: Seq<FillBatchPrimitive>,
    pub stats: RenderStats,
}

/// The decision state of the renderer: where it draws, how it colors, and
/// the fills waiting to be drawn. Fewer than a batch of fills ever wait.
pub struct Renderer {
    dest_framebuffer: DestFramebuffer,
    render_mode: RenderMode,
    use_depth: bool,
    mask_framebuffer_cleared: bool,
    buffered_fills: Vec<FillBatchPrimitive>,
    stats: RenderStats,
}

impl View for Renderer {
    type V = RendererView;

    closed spec fn view(&self) -> RendererView {
        RendererView {
            dest_framebuffer: self.dest_framebuffer,
            render_mode: self.render_mode,
            use_depth: self.use_depth,
            mask_framebuffer_cleared: self.mask_framebuffer_cleared,
            buffered_fills: self.buffered_fills@,
            stats: self.stats,
        }
    }
}

/// The fills of a sequence of batches, one batch after another.
pub open spec fn batch_fills(batches: Seq<FillBatch>) -> Seq<FillBatchPrimitive>
    decreases batches.len(),
{
    if batches.len() == 0 {
        Seq::empty()
    } else {
        batch_fills(batches.drop_last()) + batches.last().fills@
    }
}

/// How fills flow through the batch buffer: the waiting fills followed by
/// the new ones are cut into full batches, in order; what is left over, less
/// than a batch, waits. The first batch drawn in a scene clears the mask
/// framebuffer.
pub open spec fn fill_batches_of(
    waiting: Seq<FillBatchPrimitive>,
    fills: Seq<FillBatchPrimitive>,
    cleared: bool,
    batches: Seq<FillBatch>,
) -> bool {
    let all = waiting + fills;
    let k = (all.len() as int) / (MAX_FILLS_PER_BATCH as int);
    &&& batches.len() == k
    &&& forall|i: int|
        0 <= i < k ==> (#[trigger] batches[i]).fills@ == all.subrange(
            i * MAX_FILLS_PER_BATCH,
            (i + 1) * MAX_FILLS_PER_BATCH,
        ) && batches[i].clear_mask_framebuffer == (i == 0 && !cleared)
}

/// The fills left waiting after `fills` are added to `waiting`.
pub open spec fn fills_left_waiting(
    waiting: Seq<FillBatchPrimitive>,
    fills: Seq<FillBatchPrimitive>,
) -> Seq<FillBatchPrimitive> {
    let all = waiting + fills;
    all.subrange(((all.len() as int) / (MAX_FILLS_PER_BATCH as int)) * MAX_FILLS_PER_BATCH, all.len() as int)
}

/// Fewer than a batch of fills are ever left waiting.
pub proof fn lemma_left_waiting_below_a_batch(waiting: Seq<FillBatchPrimitive>, fills: Seq<FillBatchPrimitive>)
    ensures
        fills_left_waiting(waiting, fills).len() < MAX_FILLS_PER_BATCH,
{
    let all = waiting + fills;
    let k = (all.len() as int) / (MAX_FILLS_PER_BATCH as int);
    assert(all.len() - k * MAX_FILLS_PER_BATCH < MAX_FILLS_PER_BATCH);
}

proof fn lemma_batch_fills_prefix(
    all: Seq<FillBatchPrimitive>,
    batches: Seq<FillBatch>,
    j: int,
)
    requires
        0 <= j <= batches.len(),
        batches.len() * MAX_FILLS_PER_BATCH <= all.len(),
        forall|i: int|
            0 <= i < batches.len() ==> (#[trigger] batches[i]).fills@ == all.subrange(
                i * MAX_FILLS_PER_BATCH,
                (i + 1) * MAX_FILLS_PER_BATCH,
            ),
    ensures
        batch_fills(batches.take(j)) == all.subrange(0, j * MAX_FILLS_PER_BATCH),
    decreases j,
{
    if j == 0 {
        assert(batches.take(0) =~= Seq::<FillBatch>::empty());
        assert(all.subrange(0, 0) =~= Seq::<FillBatchPrimitive>::empty());
    } else {
        lemma_batch_fills_prefix(all, batches, j - 1);
        assert(batches.take(j).drop_last() =~= batches.take(j - 1));
        assert(batches.take(j).last() == batches[j - 1]);
        assert(all.subrange(0, j * MAX_FILLS_PER_BATCH) =~= all.subrange(
            0,
            (j - 1) * MAX_FILLS_PER_BATCH,
        ) + all.subrange((j - 1) * MAX_FILLS_PER_BATCH, j * MAX_FILLS_PER_BATCH));
    }
}

/// No fill is lost, duplicated or reordered by batching: the batches drawn,
/// one after another, followed by the fills left waiting, are exactly the
/// fills that were waiting followed by the fills added.
pub proof fn lemma_fills_are_conserved(
    waiting: Seq<FillBatchPrimitive>,
    fills: Seq<FillBatchPrimitive>,
    cleared: bool,
    batches: Seq<FillBatch>,
)
    requires
        fill_batches_of(waiting, fills, cleared, batches),
    ensures
        batch_fills(batches) + fills_left_waiting(waiting, fills) == waiting + fills,
{
    let all = waiting + fills;
    let k = (all.len() as int) / (MAX_FILLS_PER_BATCH as int);
    lemma_batch_fills_prefix(all, batches, batches.len() as int);
    assert(batches.take(batches.len() as int) =~= batches);
    assert(all.subrange(0, k * MAX_FILLS_PER_BATCH) + all.subrange(k * MAX_FILLS_PER_BATCH, all.len() as int)
        =~= all);
}

/// Within a scene the mask framebuffer is cleared at most once: only the
/// first batch drawn after the scene begins clears it.
pub proof fn lemma_mask_cleared_once(
    waiting: Seq<FillBatchPrimitive>,
    fills: Seq<FillBatchPrimitive>,
    cleared: bool,
    batches: Seq<FillBatch>,
    i: int,
)
    requires
        fill_batches_of(waiting, fills, cleared, batches),
        0 <= i < batches.len(),
        batches[i].clear_mask_framebuffer,
    ensures
        i == 0,
        !cleared,
{
}

/// Every batch handed out while fills are added is full.
pub proof fn lemma_added_batches_are_full(
    waiting: Seq<FillBatchPrimitive>,
    fills: Seq<FillBatchPrimitive>,
    cleared: bool,
    batches: Seq<FillBatch>,
    i: int,
)
    requires
        fill_batches_of(waiting, fills, cleared, batches),
        0 <= i < batches.len(),
    ensures
        batches[i].fills@.len() == MAX_FILLS_PER_BATCH,
{
    let all = waiting + fills;
    let k = (all.len() as int) / (MAX_FILLS_PER_BATCH as int);
    assert(k * MAX_FILLS_PER_BATCH <= all.len());
    assert((i + 1) * MAX_FILLS_PER_BATCH <= k * MAX_FILLS_PER_BATCH);
    assert(batches[i].fills@ == all.subrange(i * MAX_FILLS_PER_BATCH, (i + 1) * MAX_FILLS_PER_BATCH));
}

impl Renderer {
    #[verifier::type_invariant]
    spec fn fills_wait_below_a_batch(&self) -> bool {
        self.buffered_fills@.len() < MAX_FILLS_PER_BATCH
    }

    /// A renderer drawing to `dest_framebuffer`: per-object colors, no
    /// depth test, nothing waiting, zero counts.
    pub fn new(dest_framebuffer: DestFramebuffer) -> (r: Renderer)
        ensures
            r@ == (RendererView {
                dest_framebuffer,
                render_mode: RenderMode::Multicolor,
                use_depth: false,
                mask_framebuffer_cleared: false,
                buffered_fills: Seq::empty(),
                stats: RenderStats { object_count: 0, fill_count: 0, alpha_tile_count: 0, solid_tile_count: 0 },
            }),
    {
        Renderer {
            dest_framebuffer,
            render_mode: RenderMode::Multicolor,
            use_depth: false,
            mask_framebuffer_cleared: false,
            buffered_fills: Vec::new(),
            stats: RenderStats { object_count: 0, fill_count: 0, alpha_tile_count: 0, solid_tile_count: 0 },
        }
    }

    /// Starts a scene: the mask framebuffer has not been cleared for it and
    /// nothing has been counted yet.
    pub fn begin_scene(&mut self)
        ensures
            final(self)@ == (RendererView {
                mask_framebuffer_cleared: false,
                stats: RenderStats { object_count: 0, fill_count: 0, alpha_tile_count: 0, solid_tile_count: 0 },
                ..old(self)@
            }),
    {
        proof {
            use_type_invariant(&*self);
        }
        self.mask_framebuffer_cleared = false;
        self.stats = RenderStats { object_count: 0, fill_count: 0, alpha_tile_count: 0, solid_tile_count: 0 };
    }

    /// The counts of the scene so far.
    pub fn stats(&self) -> (stats: RenderStats)
        ensures
            stats == self@.stats,
    {
        self.stats
    }

    /// The destination framebuffer.
    pub fn dest_framebuffer(&self) -> (dest: DestFramebuffer)
        ensures
            dest == self@.dest_framebuffer,
    {
        self.dest_framebuffer
    }

    /// Draws to a new destination from now on and hands back the old one.
    pub fn replace_dest_framebuffer(&mut self, new_dest_framebuffer: DestFramebuffer) -> (old_dest: DestFramebuffer)
        ensures
            old_dest == old(self)@.dest_framebuffer,
            final(self)@ == (RendererView { dest_framebuffer: new_dest_framebuffer, ..old(self)@ }),
    {
        proof {
            use_type_invariant(&*self);
        }
        let old_dest = self.dest_framebuffer;
        self.dest_framebuffer = new_dest_framebuffer;
        old_dest
    }

    /// Colors the following scenes as `mode` says.
    pub fn set_render_mode(&mut self, mode: RenderMode)
        ensures
            final(self)@ == (RendererView { render_mode: mode, ..old(self)@ }),
    {
        proof {
            use_type_invariant(&*self);
        }
        self.render_mode = mode;
    }

    /// Stops testing tiles against the scene's stencil.
    pub fn disable_depth(&mut self)
        ensures
            final(self)@ == (RendererView { use_depth: false, ..old(self)@ }),
    {
        proof {
            use_type_invariant(&*self);
        }
        self.use_depth = false;
    }

    /// Tests tiles against the stencil drawn from the scene's bounding quad.
    pub fn enable_depth(&mut self)
        ensures
            final(self)@ == (RendererView { use_depth: true, ..old(self)@ }),
    {
        proof {
            use_type_invariant(&*self);
        }
        self.use_depth = true;
    }

    /// Whether scenes are drawn into an intermediate framebuffer that is
    /// then postprocessed.
    pub fn postprocessing_needed(&self) -> (needed: bool)
        ensures
            needed == needs_postprocessing(self@.render_mode),
    {
        match self.render_mode {
            RenderMode::Monochrome { has_defringing_kernel, gamma_correction } => has_defringing_kernel
                || gamma_correction,
            _ => false,
        }
    }

    /// The stencil test tiles are drawn with: pass where the stencil holds
    /// 1, only when depth is in use.
    pub fn stencil_state(&self) -> (state: Option<StencilState>)
        ensures
            state == if self@.use_depth {
                Some(StencilState { func: StencilFunc::Equal, reference: 1, mask: 1, write: false })
            } else {
                None::<StencilState>
            },
    {
        if !self.use_depth {
            return None;
        }
        Some(StencilState { func: StencilFunc::Equal, reference: 1, mask: 1, write: false })
    }

    /// The viewport of the destination.
    pub fn main_viewport(&self) -> (viewport: RectI32)
        ensures
            viewport == main_viewport_of(self@.dest_framebuffer),
    {
        match self.dest_framebuffer {
            DestFramebuffer::Default { viewport, .. } => viewport,
            DestFramebuffer::Other { texture_size } => RectI32::new(Point2DI32::new(0, 0), texture_size),
        }
    }

    /// The viewport tiles are drawn in.
    pub fn draw_viewport(&self) -> (viewport: RectI32)
        requires
            main_viewport_of(self@.dest_framebuffer).size.x * 3 <= i32::MAX,
            main_viewport_of(self@.dest_framebuffer).size.x * 3 >= i32::MIN,
        ensures
            viewport == draw_viewport_of(self@.render_mode, self@.dest_framebuffer),
    {
        let main_viewport = self.main_viewport();
        match self.render_mode {
            RenderMode::Monochrome { has_defringing_kernel: true, .. } => {
                let size = Point2DI32::new(main_viewport.size.x * 3, main_viewport.size.y);
                RectI32::new(Point2DI32::new(0, 0), size)
            },
            _ => main_viewport,
        }
    }

    fn take_fill_batch(&mut self) -> (batch: FillBatch)
        ensures
            batch.fills@ == old(self)@.buffered_fills,
            batch.clear_mask_framebuffer == !old(self)@.mask_framebuffer_cleared,
            final(self)@ == (RendererView {
                buffered_fills: Seq::empty(),
                mask_framebuffer_cleared: true,
                ..old(self)@
            }),
    {
        proof {
            use_type_invariant(&*self);
        }
        let mut fills = Vec::new();
        std::mem::swap(&mut fills, &mut self.buffered_fills);
        let clear_mask_framebuffer = !self.mask_framebuffer_cleared;
        self.mask_framebuffer_cleared = true;
        FillBatch { fills, clear_mask_framebuffer }
    }

    /// Adds fills to the batch buffer and hands back each batch that fills
    /// up, to be drawn in order; the count of fills grows by their number.
    pub fn add_fills(&mut self, fills: &[FillBatchPrimitive]) -> (batches: Vec<FillBatch>)
        requires
            old(self)@.stats.fill_count + fills@.len() <= usize::MAX,
        ensures
            fill_batches_of(
                old(self)@.buffered_fills,
                fills@,
                old(self)@.mask_framebuffer_cleared,
                batches@,
            ),
            final(self)@ == (RendererView {
                buffered_fills: fills_left_waiting(old(self)@.buffered_fills, fills@),
                mask_framebuffer_cleared: old(self)@.mask_framebuffer_cleared || batches@.len() > 0,
                stats: RenderStats {
                    fill_count: (old(self)@.stats.fill_count + fills@.len()) as usize,
                    ..old(self)@.stats
                },
                ..old(self)@
            }),
    {
        proof {
            use_type_invariant(&*self);
        }
        let mut batches: Vec<FillBatch> = Vec::new();
        if fills.len() == 0 {
            proof {
                assert(old(self)@.buffered_fills + fills@ =~= old(self)@.buffered_fills);
                assert(fills_left_waiting(old(self)@.buffered_fills, fills@) =~= old(self)@.buffered_fills);
            }
            return batches;
        }
        self.stats.fill_count = self.stats.fill_count + fills.len();
        let ghost waiting = old(self)@.buffered_fills;
        let ghost cleared = old(self)@.mask_framebuffer_cleared;
        let ghost all = waiting + fills@;
        let mut buffer: Vec<FillBatchPrimitive> = Vec::new();
        std::mem::swap(&mut buffer, &mut self.buffered_fills);
        let mut start: usize = 0;
        while start < fills.len()
            invariant
                all == waiting + fills@,
                start <= fills@.len(),
                buffer@.len() < MAX_FILLS_PER_BATCH,
                self.buffered_fills@.len() == 0,
                batches@.len() * MAX_FILLS_PER_BATCH + buffer@.len() == waiting.len() + start,
                buffer@ == all.subrange(batches@.len() * MAX_FILLS_PER_BATCH, waiting.len() + start),
                forall|i: int|
                    0 <= i < batches@.len() ==> (#[trigger] batches@[i]).fills@ == all.subrange(
                        i * MAX_FILLS_PER_BATCH,
                        (i + 1) * MAX_FILLS_PER_BATCH,
                    ) && batches@[i].clear_mask_framebuffer == (i == 0 && !cleared),
                self.mask_framebuffer_cleared == (cleared || batches@.len() > 0),
                self.dest_framebuffer == old(self)@.dest_framebuffer,
                self.render_mode == old(self)@.render_mode,
                self.use_depth == old(self)@.use_depth,
                self.stats == (RenderStats {
                    fill_count: (old(self)@.stats.fill_count + fills@.len()) as usize,
                    ..old(self)@.stats
                }),
            decreases fills@.len() - start,
        {
            let room = MAX_FILLS_PER_BATCH - buffer.len();
            let remaining = fills.len() - start;
            let count = if remaining < room { remaining } else { room };
            let ghost prefix = buffer@;
            let mut j: usize = 0;
            while j < count
                invariant
                    j <= count,
                    start + count <= fills@.len(),
                    fills@.len() == fills.len(),
                    prefix.len() + count <= MAX_FILLS_PER_BATCH,
                    buffer@ == prefix + fills@.subrange(start as int, start + j),
                decreases count - j,
            {
                buffer.push(fills[start + j]);
                assert(buffer@ =~= prefix + fills@.subrange(start as int, start + j + 1));
                j = j + 1;
            }
            proof {
                let lo = batches@.len() * MAX_FILLS_PER_BATCH;
                assert(all.subrange(lo, waiting.len() + start + count) =~= all.subrange(
                    lo,
                    waiting.len() + start,
                ) + fills@.subrange(start as int, start + count));
            }
            start = start + count;
            if buffer.len() == MAX_FILLS_PER_BATCH {
                let ghost before = batches@;
                let mut full: Vec<FillBatchPrimitive> = Vec::new();
                std::mem::swap(&mut full, &mut buffer);
                let clear_mask_framebuffer = !self.mask_framebuffer_cleared;
                self.mask_framebuffer_cleared = true;
                batches.push(FillBatch { fills: full, clear_mask_framebuffer });
                proof {
                    assert forall|i: int| 0 <= i < batches@.len() implies (#[trigger] batches@[i]).fills@
                        == all.subrange(i * MAX_FILLS_PER_BATCH, (i + 1) * MAX_FILLS_PER_BATCH)
                        && batches@[i].clear_mask_framebuffer == (i == 0 && !cleared) by {
                        if i < before.len() {
                            assert(batches@[i] == before[i]);
                        }
                    }
                    assert(buffer@ =~= all.subrange(
                        batches@.len() * MAX_FILLS_PER_BATCH,
                        waiting.len() + start,
                    ));
                }
            }
        }
        proof {
            assert(all.len() == waiting.len() + fills@.len());
            assert((all.len() as int) / (MAX_FILLS_PER_BATCH as int) == batches@.len());
        }
        self.buffered_fills = buffer;
        batches
    }

    /// Hands back the waiting fills as a batch to draw now, if any wait.
    pub fn flush_fills(&mut self) -> (batch: Option<FillBatch>)
        ensures
            old(self)@.buffered_fills.len() == 0 ==> batch is None && final(self)@ == old(self)@,
            old(self)@.buffered_fills.len() > 0 ==> (batch matches Some(b) && b.fills@ == old(
                self,
            )@.buffered_fills && b.clear_mask_framebuffer == !old(self)@.mask_framebuffer_cleared
                && final(self)@ == (RendererView {
                buffered_fills: Seq::empty(),
                mask_framebuffer_cleared: true,
                ..old(self)@
            })),
    {
        if self.buffered_fills.len() == 0 {
            return None;
        }
        Some(self.take_fill_batch())
    }
    /// Consumes one command of a built scene: counts what it holds, keeps
    /// fills waiting until a batch is full or a flush asks for them, and
    /// says what to draw.
    pub fn render_command(&mut self, command: &RenderCommand) -> (action: RenderAction)
        requires
            match *command {
                RenderCommand::AddShaders(ref shaders) => shaders@.len() * 4 <= FILL_COLORS_TEXTURE_BYTES,
                RenderCommand::AddFills(ref fills) => old(self)@.stats.fill_count + fills@.len() <= usize::MAX,
                RenderCommand::SolidTile(ref tiles) => old(self)@.stats.solid_tile_count + tiles@.len()
                    <= usize::MAX,
                RenderCommand::AlphaTile(ref tiles) => old(self)@.stats.alpha_tile_count + tiles@.len()
                    <= usize::MAX,
                _ => true,
            },
        ensures
            match *command {
                RenderCommand::Start { object_count } => {
                    &&& action == if old(self)@.use_depth {
                        RenderAction::DrawStencil
                    } else {
                        RenderAction::Nothing
                    }
                    &&& final(self)@ == (RendererView {
                        stats: RenderStats { object_count, ..old(self)@.stats },
                        ..old(self)@
                    })
                },
                RenderCommand::AddShaders(ref shaders) => {
                    &&& action matches RenderAction::UploadFillColors(texels)
                    &&& texels@.len() == FILL_COLORS_TEXTURE_BYTES
                    &&& forall|k: int|
                        0 <= k < FILL_COLORS_TEXTURE_BYTES ==> #[trigger] texels@[k]
                            == fill_color_texel_byte(shaders@, k)
                    &&& final(self)@ == old(self)@
                },
                RenderCommand::AddFills(ref fills) => {
                    &&& action matches RenderAction::DrawFills(batches)
                    &&& fill_batches_of(
                        old(self)@.buffered_fills,
                        fills@,
                        old(self)@.mask_framebuffer_cleared,
                        batches@,
                    )
                    &&& final(self)@ == (RendererView {
                        buffered_fills: fills_left_waiting(old(self)@.buffered_fills, fills@),
                        mask_framebuffer_cleared: old(self)@.mask_framebuffer_cleared || batches@.len() > 0,
                        stats: RenderStats {
                            fill_count: (old(self)@.stats.fill_count + fills@.len()) as usize,
                            ..old(self)@.stats
                        },
                        ..old(self)@
                    })
                },
                RenderCommand::FlushFills => {
                    &&& action matches RenderAction::DrawFills(batches)
                    &&& old(self)@.buffered_fills.len() == 0 ==> batches@.len() == 0 && final(self)@ == old(
                        self,
                    )@
                    &&& old(self)@.buffered_fills.len() > 0 ==> {
                        &&& batches@.len() == 1
                        &&& batches@[0].fills@ == old(self)@.buffered_fills
                        &&& batches@[0].clear_mask_framebuffer == !old(self)@.mask_framebuffer_cleared
                        &&& final(self)@ == (RendererView {
                            buffered_fills: Seq::empty(),
                            mask_framebuffer_cleared: true,
                            ..old(self)@
                        })
                    }
                },
                RenderCommand::SolidTile(ref tiles) => {
                    &&& action == (RenderAction::DrawSolidTiles { count: tiles@.len() as u32 })
                    &&& final(self)@ == (RendererView {
                        stats: RenderStats {
                            solid_tile_count: (old(self)@.stats.solid_tile_count + tiles@.len()) as usize,
                            ..old(self)@.stats
                        },
                        ..old(self)@
                    })
                },
                RenderCommand::AlphaTile(ref tiles) => {
                    &&& action == (RenderAction::DrawAlphaTiles { count: tiles@.len() as u32 })
                    &&& final(self)@ == (RendererView {
                        stats: RenderStats {
                            alpha_tile_count: (old(self)@.stats.alpha_tile_count + tiles@.len()) as usize,
                            ..old(self)@.stats
                        },
                        ..old(self)@
                    })
                },
                RenderCommand::Finish => action == RenderAction::Nothing && final(self)@ == old(self)@,
            },
    {
        proof {
            use_type_invariant(&*self);
        }
        match command {
            RenderCommand::Start { object_count } => {
                self.stats.object_count = *object_count;
                if self.use_depth {
                    RenderAction::DrawStencil
                } else {
                    RenderAction::Nothing
                }
            },
            RenderCommand::AddShaders(shaders) => RenderAction::UploadFillColors(fill_colors_texels(shaders)),
            RenderCommand::AddFills(fills) => RenderAction::DrawFills(self.add_fills(fills.as_slice())),
            RenderCommand::FlushFills => {
                let mut batches: Vec<FillBatch> = Vec::new();
                match self.flush_fills() {
                    Some(batch) => batches.push(batch),
                    None => {},
                }
                RenderAction::DrawFills(batches)
            },
            RenderCommand::SolidTile(tiles) => {
                let count = tiles.len();
                self.stats.solid_tile_count = self.stats.solid_tile_count + count;
                RenderAction::DrawSolidTiles { count: count as u32 }
            },
            RenderCommand::AlphaTile(tiles) => {
                let count = tiles.len();
                self.stats.alpha_tile_count = self.stats.alpha_tile_count + count;
                RenderAction::DrawAlphaTiles { count: count as u32 }
            },
            RenderCommand::Finish => RenderAction::Nothing,
        }
    }
}

/// Where tiles take their color from: the fill color texture bound at a
/// texture unit, white (the postprocessing pass colors the result), or the
/// monochrome foreground color.
#[derive(Clone, Copy, Debug, PartialEq, Eq, Structural)]
pub enum FillColorSource {
    Texture { unit: u32 },
    White,
    Foreground,
}

/// The framebuffer a drawing pass renders into.
#[derive(Clone, Copy, Debug, PartialEq, Eq, Structural)]
pub enum DrawTarget {
    /// The intermediate framebuffer the postprocessing pass reads.
    PostprocessSource,
    /// The destination framebuffer.
    Destination,
}

/// How a batch of tiles is drawn.
#[derive(Clone, Copy, Debug, PartialEq, Eq, Structural)]
pub struct TileDrawSetup {
    pub pipeline: PipelineVariant,
    pub target: DrawTarget,
    pub framebuffer_size: Point2DI32,
    pub fill_color: FillColorSource,
    /// The texture unit the mask framebuffer's texture is bound at, for
    /// tiles that read coverage from it.
    pub mask_texture_unit: Option<u32>,
    pub blend: BlendState,
    pub stencil: Option<StencilState>,
}

/// What the postprocessing pass is run with.
#[derive(Clone, Copy, Debug, PartialEq, Eq, Structural)]
pub struct PostprocessSetup {
    pub has_defringing_kernel: bool,
    pub gamma_correction: bool,
    pub framebuffer_size: Point2DI32,
}

/// What becomes of the intermediate framebuffer when a scene begins.
#[derive(Clone, Copy, Debug, PartialEq, Eq, Structural)]
pub enum SourceFramebufferPlan {
    /// No postprocessing: there is none.
    Release,
    /// The current one has the right size: it is kept (and cleared).
    Keep,
    /// A new one of this size is created (and cleared).
    Create { size: Point2DI32 },
}

/// The framebuffer tiles are drawn into in a mode.
pub open spec fn draw_target_of(mode: RenderMode) -> DrawTarget {
    if needs_postprocessing(mode) {
        DrawTarget::PostprocessSource
    } else {
        DrawTarget::Destination
    }
}

/// Where the tiles of a mode take their color from; the fill color texture
/// is bound at unit 1 for alpha tiles (unit 0 holds the mask) and at unit
/// 0 for solid tiles.
pub open spec fn fill_color_of(mode: RenderMode, solid: bool) -> FillColorSource {
    match mode {
        RenderMode::Multicolor => FillColorSource::Texture { unit: if solid { 0 } else { 1 } },
        RenderMode::Monochrome { .. } => if needs_postprocessing(mode) {
            FillColorSource::White
        } else {
            FillColorSource::Foreground
        },
    }
}

/// Where tiles take their color from, by mode: a monochrome mode that
/// defringes or corrects gamma draws its tiles white into the
/// postprocessing source, which applies the colors; a monochrome mode that
/// does neither draws them in the foreground color straight into the
/// destination; a multicolor mode reads the fill color texture, at unit 0
/// for solid tiles and unit 1 for alpha tiles.
pub proof fn lemma_tile_fill_color(mode: RenderMode, solid: bool)
    ensures
        (fill_color_of(mode, solid) == FillColorSource::White) <==> (mode matches RenderMode::Monochrome {
            has_defringing_kernel,
            gamma_correction,
        } && (has_defringing_kernel || gamma_correction)),
        (fill_color_of(mode, solid) == FillColorSource::Foreground) <==> (mode matches RenderMode::Monochrome {
            has_defringing_kernel,
            gamma_correction,
        } && !has_defringing_kernel && !gamma_correction),
        mode is Multicolor ==> fill_color_of(mode, solid) == (FillColorSource::Texture {
            unit: if solid { 0u32 } else { 1u32 },
        }),
        (draw_target_of(mode) == DrawTarget::PostprocessSource) <==> (mode matches RenderMode::Monochrome {
            has_defringing_kernel,
            gamma_correction,
        } && (has_defringing_kernel || gamma_correction)),
        mode is Monochrome ==> ((fill_color_of(mode, solid) == FillColorSource::White) <==> (
        draw_target_of(mode) == DrawTarget::PostprocessSource)),
{
}

impl Renderer {
    /// The framebuffer tiles are drawn into.
    pub fn draw_target(&self) -> (target: DrawTarget)
        ensures
            target == draw_target_of(self@.render_mode),
    {
        if self.postprocessing_needed() {
            DrawTarget::PostprocessSource
        } else {
            DrawTarget::Destination
        }
    }

    /// How a batch of solid (`solid`) or alpha tiles is drawn: the tile
    /// pipeline of the mode, into the draw target, over the draw viewport's
    /// size, with the mode's fill color; alpha tiles read the mask texture at
    /// unit 0; alpha tiles blend over what is
    /// drawn, solid tiles replace it; both pass the renderer's stencil test.
    pub fn tile_draw_setup(&self, solid: bool) -> (setup: TileDrawSetup)
        requires
            main_viewport_of(self@.dest_framebuffer).size.x * 3 <= i32::MAX,
            main_viewport_of(self@.dest_framebuffer).size.x * 3 >= i32::MIN,
        ensures
            setup.pipeline == tile_pipeline(self@.render_mode is Monochrome, solid),
            setup.target == draw_target_of(self@.render_mode),
            setup.framebuffer_size == draw_viewport_of(self@.render_mode, self@.dest_framebuffer).size,
            setup.fill_color == fill_color_of(self@.render_mode, solid),
            setup.mask_texture_unit == if solid {
                None::<u32>
            } else {
                Some(0u32)
            },
            setup.blend == if solid {
                BlendState::Off
            } else {
                BlendState::RGBSrcAlphaAlphaOneMinusSrcAlpha
            },
            setup.stencil == if self@.use_depth {
                Some(StencilState { func: StencilFunc::Equal, reference: 1, mask: 1, write: false })
            } else {
                None::<StencilState>
            },
    {
        let monochrome = match self.render_mode {
            RenderMode::Monochrome { .. } => true,
            RenderMode::Multicolor => false,
        };
        let fill_color = match self.render_mode {
            RenderMode::Multicolor => FillColorSource::Texture { unit: if solid { 0 } else { 1 } },
            RenderMode::Monochrome { .. } => if self.postprocessing_needed() {
                FillColorSource::White
            } else {
                FillColorSource::Foreground
            },
        };
        TileDrawSetup {
            pipeline: tile_pipeline_variant(monochrome, solid),
            target: self.draw_target(),
            framebuffer_size: self.draw_viewport().size,
            fill_color,
            mask_texture_unit: if solid {
                None
            } else {
                Some(0)
            },
            blend: if solid {
                BlendState::Off
            } else {
                BlendState::RGBSrcAlphaAlphaOneMinusSrcAlpha
            },
            stencil: self.stencil_state(),
        }
    }

    /// Whether a scene ends with the postprocessing pass, and with what:
    /// only modes that need postprocessing run it, with their kernel and
    /// gamma settings, over the main viewport's size.
    pub fn postprocess_setup(&self) -> (setup: Option<PostprocessSetup>)
        ensures
            setup is Some <==> needs_postprocessing(self@.render_mode),
            setup matches Some(p) ==> self@.render_mode matches RenderMode::Monochrome {
                has_defringing_kernel,
                gamma_correction,
            } && p == (PostprocessSetup {
                has_defringing_kernel,
                gamma_correction,
                framebuffer_size: main_viewport_of(self@.dest_framebuffer).size,
            }),
    {
        if !self.postprocessing_needed() {
            return None;
        }
        match self.render_mode {
            RenderMode::Multicolor => None,
            RenderMode::Monochrome { has_defringing_kernel, gamma_correction } => Some(
                PostprocessSetup {
                    has_defringing_kernel,
                    gamma_correction,
                    framebuffer_size: self.main_viewport().size,
                },
            ),
        }
    }

    /// What becomes of the intermediate framebuffer when a scene begins,
    /// given the size of the current one, if any: without postprocessing
    /// it is released; otherwise it is kept when its size is the draw
    /// viewport's and created at that size when not.
    pub fn source_framebuffer_plan(&self, current_size: Option<Point2DI32>) -> (plan: SourceFramebufferPlan)
        requires
            main_viewport_of(self@.dest_framebuffer).size.x * 3 <= i32::MAX,
            main_viewport_of(self@.dest_framebuffer).size.x * 3 >= i32::MIN,
        ensures
            plan == if !needs_postprocessing(self@.render_mode) {
                SourceFramebufferPlan::Release
            } else if current_size == Some(draw_viewport_of(self@.render_mode, self@.dest_framebuffer).size) {
                SourceFramebufferPlan::Keep
            } else {
                SourceFramebufferPlan::Create {
                    size: draw_viewport_of(self@.render_mode, self@.dest_framebuffer).size,
                }
            },
    {
        if !self.postprocessing_needed() {
            return SourceFramebufferPlan::Release;
        }
        let size = self.draw_viewport().size;
        match current_size {
            Some(current) => if current.x == size.x && current.y == size.y {
                SourceFramebufferPlan::Keep
            } else {
                SourceFramebufferPlan::Create { size }
            },
            None => SourceFramebufferPlan::Create { size },
        }
    }
}

/// A texture to create: its format and size.
#[derive(Clone, Copy, Debug, PartialEq, Eq, Structural)]
pub struct TextureSpec {
    pub format: TextureFormat,
    pub size: Point2DI32,
}

/// The textures the renderer creates for itself.
#[derive(Clone, Copy, Debug, PartialEq, Eq, Structural)]
pub struct RendererTextures {
    /// The mask framebuffer's texture: coverage of 256 by 256 tiles, one
    /// half-float channel.
    pub mask_framebuffer: TextureSpec,
    /// The fill color texture: one RGBA texel per object.
    pub fill_colors: TextureSpec,
}

/// The textures a new renderer creates.
pub fn renderer_textures() -> (textures: RendererTextures)
    ensures
        textures == (RendererTextures {
            mask_framebuffer: TextureSpec {
                format: TextureFormat::R16F,
                size: Point2DI32 { x: MASK_FRAMEBUFFER_WIDTH, y: MASK_FRAMEBUFFER_HEIGHT },
            },
            fill_colors: TextureSpec {
                format: TextureFormat::RGBA8,
                size: Point2DI32 { x: FILL_COLORS_TEXTURE_WIDTH, y: FILL_COLORS_TEXTURE_HEIGHT },
            },
        }),
{
    RendererTextures {
        mask_framebuffer: TextureSpec {
            format: TextureFormat::R16F,
            size: Point2DI32::new(MASK_FRAMEBUFFER_WIDTH, MASK_FRAMEBUFFER_HEIGHT),
        },
        fill_colors: TextureSpec {
            format: TextureFormat::RGBA8,
            size: Point2DI32::new(FILL_COLORS_TEXTURE_WIDTH, FILL_COLORS_TEXTURE_HEIGHT),
        },
    }
}

/// The corners of the unit quad every tile and full-screen pass is drawn
/// from, two bytes each, counter-clockwise from the origin.
pub fn quad_vertex_positions() -> (positions: Vec<u8>)
    ensures
        positions@ == seq![0u8, 0u8, 1u8, 0u8, 1u8, 1u8, 0u8, 1u8],
{
    let positions: Vec<u8> = vec![0, 0, 1, 0, 1, 1, 0, 1];
    assert(positions@ =~= seq![0u8, 0u8, 1u8, 0u8, 1u8, 1u8, 0u8, 1u8]);
    positions
}

} // verus!
