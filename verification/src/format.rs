//! Texel formats, named by their gfx-hal format number.
//!
//! gfx-hal numbers its formats from 1 (`Rg4Unorm`) in the order the Vulkan
//! API exposes them; the library carries a format as that number so that
//! any format a surface reports can be held and compared.
use gfx_hal::format::ChannelType as Hal;
use vstd::prelude::*;

verus! {

/// gfx-hal `Format::R8Unorm`.
pub const R8_UNORM: u32 = 9;
/// gfx-hal `Format::R8Uint`.
pub const R8_UINT: u32 = 13;
/// gfx-hal `Format::R8Sint`.
pub const R8_SINT: u32 = 14;
/// gfx-hal `Format::Rgba8Srgb`.
pub const RGBA8_SRGB: u32 = 43;
/// gfx-hal `Format::R16Uint`.
pub const R16_UINT: u32 = 74;
/// gfx-hal `Format::R16Sint`.
pub const R16_SINT: u32 = 75;
/// gfx-hal `Format::R16Sfloat`.
pub const R16_SFLOAT: u32 = 76;
/// gfx-hal `Format::R32Sfloat`.
pub const R32_SFLOAT: u32 = 100;
/// The number of formats gfx-hal defines; valid format numbers are
/// `1..=FORMAT_COUNT`.
pub const FORMAT_COUNT: u32 = 184;

/// How the bits of a channel are interpreted (gfx-hal `ChannelType`).
#[derive(Clone, Copy, PartialEq, Eq, Structural, Debug)]
pub enum ChannelType {
    Unorm,
    Snorm,
    Uint,
    Sint,
    Ufloat,
    Sfloat,
    Uscaled,
    Sscaled,
    Srgb,
}

/// A format number that gfx-hal defines.
pub open spec fn valid_format(format: u32) -> bool {
    1 <= format <= FORMAT_COUNT
}

/// The channel type gfx-hal's `BASE_FORMATS` table records at `index`
/// (the entry of format number `index + 1`).
pub uninterp spec fn hal_channel_type(index: int) -> ChannelType;

/// The channel type of a format, as `Format::base_format()` gives it.
pub open spec fn channel_of(format: u32) -> ChannelType {
    hal_channel_type(format - 1)
}

/// Reads the channel type of the entry at `index` of gfx-hal's
/// `BASE_FORMATS` table, the table that `Format::base_format()` reads
/// for format number `index + 1`. The contract claims only that the result
/// is that table entry, whatever it holds.
#[verifier::external_body]
fn base_channel_type(index: usize) -> (c: ChannelType)
    requires
        index < FORMAT_COUNT,
    ensures
        c == hal_channel_type(index as int),
{
    match gfx_hal::format::BASE_FORMATS[index].1 {
        Hal::Unorm => ChannelType::Unorm,
        Hal::Snorm => ChannelType::Snorm,
        Hal::Uint => ChannelType::Uint,
        Hal::Sint => ChannelType::Sint,
        Hal::Ufloat => ChannelType::Ufloat,
        Hal::Sfloat => ChannelType::Sfloat,
        Hal::Uscaled => ChannelType::Uscaled,
        Hal::Sscaled => ChannelType::Sscaled,
        Hal::Srgb => ChannelType::Srgb,
    }
}

/// The channel type of a format.
pub fn channel_type(format: u32) -> (c: ChannelType)
    requires
        valid_format(format),
    ensures
        c == channel_of(format),
{
    base_channel_type((format - 1) as usize)
}

} // verus!
