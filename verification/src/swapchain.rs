//! The choices made when a swapchain is (re)created: its image format, its
//! extent, its presentation mode and how many images it holds.
use crate::format::{channel_of, channel_type, valid_format, ChannelType, RGBA8_SRGB};
use crate::pipeline_descriptions::Rect;
use vstd::prelude::*;

verus! {

/// Why a swapchain cannot be configured.
#[derive(Clone, Copy, Debug, PartialEq, Eq, Structural)]
pub enum SwapchainError {
    /// The surface supports none of the presentation modes the renderer uses.
    NoSupportedPresentMode,
    /// The surface supports no alpha composition mode.
    NoSupportedCompositeAlpha,
    /// The surface's images cannot be color attachments.
    NoColorAttachmentUsage,
}

/// An sRGB-encoded format.
pub open spec fn is_srgb(format: u32) -> bool {
    channel_of(format) == ChannelType::Srgb
}

/// Whether `chosen` is the format the swapchain images get from the
/// formats a surface supports: Rgba8Srgb when it has no preference, else the
/// first sRGB format it lists, else the first format it lists.
pub open spec fn is_chosen_format(compatible_formats: Option<Vec<u32>>, chosen: u32) -> bool {
    match compatible_formats {
        None => chosen == RGBA8_SRGB,
        Some(formats) => exists|i: int|
            0 <= i < formats@.len() && chosen == formats@[i] && ((is_srgb(formats@[i]) && forall|j: int|
                0 <= j < i ==> !is_srgb(#[trigger] formats@[j])) || (i == 0 && forall|j: int|
                0 <= j < formats@.len() ==> !is_srgb(#[trigger] formats@[j]))),
    }
}

/// The format the swapchain images get, given the formats the surface
/// supports (`None` when it has no preference): Rgba8Srgb when the surface
/// has no preference, else the first sRGB format it lists, else the first
/// format it lists. The surface lists at least one format.
pub fn choose_swapchain_format(compatible_formats: &Option<Vec<u32>>) -> (chosen: u32)
    requires
        compatible_formats matches Some(formats) ==> formats@.len() > 0 && forall|i: int|
            0 <= i < formats@.len() ==> valid_format(#[trigger] formats@[i]),
    ensures
        is_chosen_format(*compatible_formats, chosen),
{
    match compatible_formats {
        None => RGBA8_SRGB,
        Some(formats) => {
            let n = formats.len();
            #[verifier::loop_isolation(false)]
            for i in 0..n
                invariant
                    n == formats@.len(),
                    forall|k: int| 0 <= k < n ==> valid_format(#[trigger] formats@[k]),
                    forall|j: int| 0 <= j < i ==> !is_srgb(#[trigger] formats@[j]),
            {
                if channel_type(formats[i]) == ChannelType::Srgb {
                    return formats[i];
                }
            }
            formats[0]
        },
    }
}

/// A swapchain image size in pixels.
#[derive(Clone, Copy, Debug, PartialEq, Eq, Structural)]
pub struct Extent2D {
    pub width: u32,
    pub height: u32,
}

/// The swapchain extent: the window's size in physical pixels, limited to
/// the largest extent the surface supports.
pub fn swapchain_extent(max_extent: Extent2D, window_width: u32, window_height: u32) -> (extent: Extent2D)
    ensures
        extent.width == if max_extent.width <= window_width { max_extent.width } else { window_width },
        extent.height == if max_extent.height <= window_height { max_extent.height } else { window_height },
{
    Extent2D {
        width: if max_extent.width <= window_width { max_extent.width } else { window_width },
        height: if max_extent.height <= window_height { max_extent.height } else { window_height },
    }
}

/// The render area covering an extent, in gfx-hal's 16-bit rectangle.
pub fn extent_rect(extent: Extent2D) -> (rect: Rect)
    ensures
        rect == (Rect { x: 0, y: 0, w: extent.width as i16, h: extent.height as i16 }),
{
    Rect { x: 0, y: 0, w: extent.width as i16, h: extent.height as i16 }
}

/// How a swapchain state is assembled: the format of its images and their
/// views, its extent and render area, how many image views, framebuffers
/// and in-flight fences it holds, whether those fences start signalled,
/// whether the fence that waits for an acquired image starts signalled,
/// and whether it has a postprocess pipeline.
#[derive(Clone, Copy, Debug, PartialEq, Eq, Structural)]
pub struct SwapchainStatePlan {
    pub image_format: u32,
    pub extent: Extent2D,
    pub extent_rect: Rect,
    pub image_view_count: usize,
    pub framebuffer_count: usize,
    pub in_flight_fence_count: usize,
    pub in_flight_fences_signalled: bool,
    pub acquire_fence_signalled: bool,
    pub has_postprocess_pipeline: bool,
}

/// The plan of a swapchain state for a swapchain of `image_count` images:
/// the chosen image format; the window's size limited to the surface's
/// largest extent, and the rectangle covering it; one image view, one
/// framebuffer and one in-flight fence per image, the fences signalled so
/// that the first frame does not wait; an acquire fence that starts
/// unsignalled; a postprocess pipeline exactly when one is described.
pub fn swapchain_state_plan(
    compatible_formats: &Option<Vec<u32>>,
    image_count: usize,
    has_postprocess: bool,
    max_extent: Extent2D,
    window_width: u32,
    window_height: u32,
) -> (plan: SwapchainStatePlan)
    requires
        compatible_formats matches Some(formats) ==> formats@.len() > 0 && forall|i: int|
            0 <= i < formats@.len() ==> valid_format(#[trigger] formats@[i]),
    ensures
        is_chosen_format(*compatible_formats, plan.image_format),
        plan.extent == (Extent2D {
            width: if max_extent.width <= window_width { max_extent.width } else { window_width },
            height: if max_extent.height <= window_height { max_extent.height } else { window_height },
        }),
        plan.extent_rect == (Rect { x: 0, y: 0, w: plan.extent.width as i16, h: plan.extent.height as i16 }),
        plan.image_view_count == image_count,
        plan.framebuffer_count == image_count,
        plan.in_flight_fence_count == image_count,
        plan.in_flight_fences_signalled,
        !plan.acquire_fence_signalled,
        plan.has_postprocess_pipeline == has_postprocess,
{
    let image_format = choose_swapchain_format(compatible_formats);
    let extent = swapchain_extent(max_extent, window_width, window_height);
    SwapchainStatePlan {
        image_format,
        extent,
        extent_rect: extent_rect(extent),
        image_view_count: image_count,
        framebuffer_count: image_count,
        in_flight_fence_count: image_count,
        in_flight_fences_signalled: true,
        acquire_fence_signalled: false,
        has_postprocess_pipeline: has_postprocess,
    }
}

/// How presented images are queued (gfx-hal `PresentMode`).
#[derive(Clone, Copy, Debug, PartialEq, Eq, Structural)]
pub enum PresentMode {
    Immediate,
    Mailbox,
    Fifo,
    Relaxed,
}

/// The order in which presentation modes are preferred.
pub open spec fn present_mode_preference() -> Seq<PresentMode> {
    seq![PresentMode::Mailbox, PresentMode::Fifo, PresentMode::Relaxed, PresentMode::Immediate]
}

/// The presentation mode chosen from the supported ones is Mailbox when
/// it is supported, else Fifo, else Relaxed, else Immediate.
pub proof fn lemma_present_mode_preference_order(supported: Seq<PresentMode>, m: PresentMode)
    requires
        exists|k: int|
            0 <= k < 4 && present_mode_preference()[k] == m && supported.contains(m) && forall|j: int|
                0 <= j < k ==> !supported.contains(#[trigger] present_mode_preference()[j]),
    ensures
        m == if supported.contains(PresentMode::Mailbox) {
            PresentMode::Mailbox
        } else if supported.contains(PresentMode::Fifo) {
            PresentMode::Fifo
        } else if supported.contains(PresentMode::Relaxed) {
            PresentMode::Relaxed
        } else {
            PresentMode::Immediate
        },
{
    let k = choose|k: int|
        0 <= k < 4 && present_mode_preference()[k] == m && supported.contains(m) && forall|j: int|
            0 <= j < k ==> !supported.contains(#[trigger] present_mode_preference()[j]);
    let p = present_mode_preference();
    if k >= 1 {
        assert(!supported.contains(p[0]));
    }
    if k >= 2 {
        assert(!supported.contains(p[1]));
    }
    if k >= 3 {
        assert(!supported.contains(p[2]));
    }
    assert(p[0] == PresentMode::Mailbox && p[1] == PresentMode::Fifo && p[2] == PresentMode::Relaxed
        && p[3] == PresentMode::Immediate);
}

/// No mode is chosen exactly when the surface supports none of the four
/// presentation modes.
pub proof fn lemma_no_present_mode(supported: Seq<PresentMode>)
    ensures
        (forall|j: int| 0 <= j < 4 ==> !supported.contains(#[trigger] present_mode_preference()[j]))
            <==> (!supported.contains(PresentMode::Mailbox) && !supported.contains(PresentMode::Fifo)
            && !supported.contains(PresentMode::Relaxed) && !supported.contains(PresentMode::Immediate)),
{
    let p = present_mode_preference();
    assert(p[0] == PresentMode::Mailbox && p[1] == PresentMode::Fifo && p[2] == PresentMode::Relaxed
        && p[3] == PresentMode::Immediate);
}

/// The most preferred presentation mode the surface supports: Mailbox, then
/// Fifo, then Relaxed, then Immediate.
pub fn choose_present_mode(supported: &Vec<PresentMode>) -> (mode: Result<PresentMode, SwapchainError>)
    ensures
        match mode {
            Ok(m) => exists|k: int|
                0 <= k < 4 && present_mode_preference()[k] == m && supported@.contains(m) && forall|j: int|
                    0 <= j < k ==> !supported@.contains(#[trigger] present_mode_preference()[j]),
            Err(e) => e == SwapchainError::NoSupportedPresentMode && forall|j: int|
                0 <= j < 4 ==> !supported@.contains(#[trigger] present_mode_preference()[j]),
        },
{
    let preference = [PresentMode::Mailbox, PresentMode::Fifo, PresentMode::Relaxed, PresentMode::Immediate];
    assert(preference@ == present_mode_preference());
    for k in 0..4
        invariant
            preference@ == present_mode_preference(),
            forall|j: int| 0 <= j < k ==> !supported@.contains(#[trigger] present_mode_preference()[j]),
    {
        let candidate = preference[k];
        let n = supported.len();
        for i in 0..n
            invariant
                n == supported@.len(),
                k < 4,
                preference@ == present_mode_preference(),
                candidate == preference@[k as int],
                forall|j: int| 0 <= j < k ==> !supported@.contains(#[trigger] present_mode_preference()[j]),
                forall|j: int| 0 <= j < i ==> supported@[j] != candidate,
        {
            if supported[i] == candidate {
                assert(supported@[i as int] == candidate);
                assert(present_mode_preference()[k as int] == candidate);
                return Ok(candidate);
            }
        }
        assert(!supported@.contains(candidate));
    }
    Err(SwapchainError::NoSupportedPresentMode)
}

/// How many images the swapchain holds: one less than the surface's maximum,
/// and at most three with Mailbox presentation or two otherwise.
pub fn swapchain_image_count(present_mode: PresentMode, max_image_count: u32) -> (count: u32)
    requires
        max_image_count >= 1,
    ensures
        count == if present_mode == PresentMode::Mailbox {
            if max_image_count - 1 <= 3 { max_image_count - 1 } else { 3 }
        } else {
            if max_image_count - 1 <= 2 { max_image_count - 1 } else { 2 }
        },
{
    let below_max = max_image_count - 1;
    if present_mode == PresentMode::Mailbox {
        if below_max <= 3 { below_max } else { 3 }
    } else {
        if below_max <= 2 { below_max } else { 2 }
    }
}

/// gfx-hal `CompositeAlpha::OPAQUE`.
pub const COMPOSITE_OPAQUE: u32 = 0x1;
/// gfx-hal `CompositeAlpha::PREMULTIPLIED`.
pub const COMPOSITE_PREMULTIPLIED: u32 = 0x2;
/// gfx-hal `CompositeAlpha::POSTMULTIPLIED`.
pub const COMPOSITE_POSTMULTIPLIED: u32 = 0x4;
/// gfx-hal `CompositeAlpha::INHERIT`.
pub const COMPOSITE_INHERIT: u32 = 0x8;
/// gfx-hal `image::Usage::COLOR_ATTACHMENT`.
pub const USAGE_COLOR_ATTACHMENT: u32 = 0x10;

/// The alpha composition modes in the order they are preferred.
pub open spec fn composite_alpha_preference() -> Seq<u32> {
    seq![COMPOSITE_OPAQUE, COMPOSITE_PREMULTIPLIED, COMPOSITE_POSTMULTIPLIED, COMPOSITE_INHERIT]
}

/// The alpha composition mode of the swapchain: the first of opaque,
/// premultiplied, postmultiplied and inherited that the surface's mask
/// `supported` holds.
pub fn choose_composite_alpha(supported: u32) -> (mode: Result<u32, SwapchainError>)
    ensures
        match mode {
            Ok(m) => exists|k: int|
                0 <= k < 4 && composite_alpha_preference()[k] == m && supported & m == m && forall|j: int|
                    0 <= j < k ==> supported & #[trigger] composite_alpha_preference()[j]
                        != composite_alpha_preference()[j],
            Err(e) => e == SwapchainError::NoSupportedCompositeAlpha && forall|j: int|
                0 <= j < 4 ==> supported & #[trigger] composite_alpha_preference()[j]
                    != composite_alpha_preference()[j],
        },
{
    let preference = [COMPOSITE_OPAQUE, COMPOSITE_PREMULTIPLIED, COMPOSITE_POSTMULTIPLIED, COMPOSITE_INHERIT];
    for k in 0..4
        invariant
            preference@ == composite_alpha_preference(),
            forall|j: int|
                0 <= j < k ==> supported & #[trigger] composite_alpha_preference()[j]
                    != composite_alpha_preference()[j],
    {
        let candidate = preference[k];
        if supported & candidate == candidate {
            return Ok(candidate);
        }
    }
    Err(SwapchainError::NoSupportedCompositeAlpha)
}

/// The usage of the swapchain's images: color attachments, which the
/// surface's usage mask must allow.
pub fn swapchain_image_usage(supported: u32) -> (usage: Result<u32, SwapchainError>)
    ensures
        usage == if supported & USAGE_COLOR_ATTACHMENT == USAGE_COLOR_ATTACHMENT {
            Ok::<u32, SwapchainError>(USAGE_COLOR_ATTACHMENT)
        } else {
            Err::<u32, SwapchainError>(SwapchainError::NoColorAttachmentUsage)
        },
{
    if supported & USAGE_COLOR_ATTACHMENT == USAGE_COLOR_ATTACHMENT {
        Ok(USAGE_COLOR_ATTACHMENT)
    } else {
        Err(SwapchainError::NoColorAttachmentUsage)
    }
}

} // verus!
