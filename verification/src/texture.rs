use vstd::prelude::*;

verus! {

/// The pixel formats the backend creates textures in.
#[derive(Clone, Copy, Debug, PartialEq, Eq, Structural)]
pub enum TextureFormat {
    /// One 8-bit channel.
    R8Unorm,
    /// Four 8-bit channels.
    Rgba8Unorm,
}

/// Why a texture request is refused; each is a fatal error for the caller.
#[derive(Clone, Copy, Debug, PartialEq, Eq)]
pub enum TextureFault {
    /// Only 1 and 4 bytes per pixel are supported.
    InvalidBytesPerPixel,
    /// `bytes_per_pixel * width * height` does not fit in a `usize`.
    SizeOverflow,
    /// The data's length is not `bytes_per_pixel * width * height`.
    SizeMismatch,
    /// No texture lives in the slot.
    MissingTexture,
    /// The row pitch `bytes_per_pixel * width` does not fit in a `u32`.
    RowOverflow,
}

/// 1 and 4 bytes per pixel are the supported texel sizes.
pub open spec fn is_supported_bytes_per_pixel(bytes_per_pixel: u32) -> bool {
    bytes_per_pixel == 1 || bytes_per_pixel == 4
}

/// The format that a texel size selects: 1 byte gives `R8Unorm`, 4 give `Rgba8Unorm`.
pub open spec fn format_for(bytes_per_pixel: u32) -> TextureFormat
    recommends
        is_supported_bytes_per_pixel(bytes_per_pixel),
{
    if bytes_per_pixel == 1 {
        TextureFormat::R8Unorm
    } else {
        TextureFormat::Rgba8Unorm
    }
}

/// The number of 8-bit channels, hence bytes, of a texel of the format.
pub open spec fn format_components(format: TextureFormat) -> nat {
    match format {
        TextureFormat::R8Unorm => 1,
        TextureFormat::Rgba8Unorm => 4,
    }
}

/// `bytes_per_pixel * width * height` can be computed in `usize` without overflow,
/// the product of the first two factors included.
pub open spec fn size_fits(bytes_per_pixel: nat, width: nat, height: nat) -> bool {
    &&& bytes_per_pixel * width <= usize::MAX
    &&& bytes_per_pixel * width * height <= usize::MAX
}

/// `wgpu::TextureFormat::components`: in wgpu-types it gives 1 for `R8Unorm` and
/// 4 for `Rgba8Unorm`.
#[verifier::external_body]
fn wgpu_format_components(format: TextureFormat) -> (components: u8)
    ensures
        components == format_components(format),
{
    match format {
        TextureFormat::R8Unorm => wgpu::TextureFormat::R8Unorm,
        TextureFormat::Rgba8Unorm => wgpu::TextureFormat::Rgba8Unorm,
    }.components()
}

/// The format for a texel size of 1 or 4 bytes.
pub fn texture_format(bytes_per_pixel: u32) -> (format: TextureFormat)
    requires
        is_supported_bytes_per_pixel(bytes_per_pixel),
    ensures
        format == format_for(bytes_per_pixel),
{
    if bytes_per_pixel == 1 {
        TextureFormat::R8Unorm
    } else {
        TextureFormat::Rgba8Unorm
    }
}

/// The bytes of one texel of the format, as wgpu counts its components.
pub fn bytes_per_pixel(format: TextureFormat) -> (bytes: u8)
    ensures
        bytes == format_components(format),
{
    wgpu_format_components(format)
}

/// The number of bytes of a `width` by `height` image of `bytes_per_pixel`-byte texels.
pub fn expected_size(bytes_per_pixel: u32, width: u32, height: u32) -> (size: usize)
    requires
        size_fits(bytes_per_pixel as nat, width as nat, height as nat),
    ensures
        size == bytes_per_pixel * width * height,
{
    let row: usize = bytes_per_pixel as usize * width as usize;
    row * height as usize
}

/// Whether `bytes_per_pixel * width * height` fits in a `usize`.
pub fn size_fits_usize(bytes_per_pixel: u32, width: u32, height: u32) -> (fits: bool)
    ensures
        fits == size_fits(bytes_per_pixel as nat, width as nat, height as nat),
{
    let row: Option<usize> = (bytes_per_pixel as usize).checked_mul(width as usize);
    match row {
        Some(r) => (r.checked_mul(height as usize)).is_some(),
        None => false,
    }
}

} // verus!
