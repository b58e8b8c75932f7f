//! The raw-pixel-to-compressed-image pipeline: everything that can be
//! decided about a compression before the external encoder runs, and the
//! wrapping of its output.
//!
//! The external JPEG encoder itself runs at the process boundary; this
//! module fixes every parameter of the call — pixel layout from the
//! channel count, row stride, quality and chroma subsampling — and turns
//! the returned bytes into the image message envelope.

use vstd::prelude::*;

use crate::messages::ImageMsg;
use crate::types::foxdbg_image_info_t;
use vstd::string::StringExecFns;

verus! {

/// Fixed JPEG quality for all image channels (1 worst to 100 best).
pub const JPEG_QUALITY: i32 = 25;

/// The pixel memory layouts the pipeline accepts.
#[derive(Debug, Clone, Copy, PartialEq, Eq, Structural)]
pub enum PixelLayout {
    /// One byte per pixel: greyscale.
    Grey,
    /// Three bytes per pixel: red, green, blue.
    Rgb,
    /// Four bytes per pixel: red, green, blue, alpha.
    Rgba,
}

/// Bytes per pixel of a layout.
pub open spec fn layout_bytes_per_pixel(l: PixelLayout) -> int {
    match l {
        PixelLayout::Grey => 1,
        PixelLayout::Rgb => 3,
        PixelLayout::Rgba => 4,
    }
}

/// The layout selected by a channel count: 1 is greyscale, 3 is RGB, 4 is
/// RGBA, anything else is unsupported.
pub open spec fn layout_of_channels(c: int) -> Option<PixelLayout> {
    if c == 1 {
        Some(PixelLayout::Grey)
    } else if c == 3 {
        Some(PixelLayout::Rgb)
    } else if c == 4 {
        Some(PixelLayout::Rgba)
    } else {
        None
    }
}

/// Selects the pixel layout for a channel count.
pub fn layout_for_channels(c: i32) -> (r: Option<PixelLayout>)
    ensures
        r == layout_of_channels(c as int),
{
    if c == 1 {
        Some(PixelLayout::Grey)
    } else if c == 3 {
        Some(PixelLayout::Rgb)
    } else if c == 4 {
        Some(PixelLayout::Rgba)
    } else {
        None
    }
}

/// Every parameter of one external compression call, fully determined by
/// the channel's image metadata.
#[derive(Debug, Clone, Copy, PartialEq, Eq, Structural)]
pub struct CompressRequest {
    /// Image width in pixels.
    pub width: u32,
    /// Image height in pixels.
    pub height: u32,
    /// Row stride in bytes: width times bytes per pixel, no padding.
    pub pitch: u64,
    /// Pixel memory layout.
    pub layout: PixelLayout,
    /// JPEG quality level.
    pub quality: i32,
    /// Whether to apply 2x2 chroma subsampling (always on).
    pub subsample_2x2: bool,
}

/// Why image metadata cannot be compressed under.  Both cases are
/// reported, recoverable configuration errors: the caller can correct the
/// metadata and write again.
#[derive(Debug, Clone, Copy, PartialEq, Eq, Structural)]
pub enum ImageError {
    /// The channel count selects no supported pixel layout.
    UnsupportedChannelCount,
    /// Width or height is negative.
    InvalidDimensions,
}

/// The compression request that well-formed metadata determines.
pub open spec fn compress_request_of(info: foxdbg_image_info_t) -> CompressRequest
    recommends
        layout_of_channels(info.channels as int) is Some,
        info.width >= 0,
        info.height >= 0,
{
    let layout = layout_of_channels(info.channels as int)->0;
    CompressRequest {
        width: info.width as u32,
        height: info.height as u32,
        pitch: (info.width * layout_bytes_per_pixel(layout)) as u64,
        layout,
        quality: JPEG_QUALITY,
        subsample_2x2: true,
    }
}

/// Validates image metadata and fixes the parameters of the compression
/// call: layout from the channel count, row stride as width times bytes
/// per pixel, fixed quality and 2x2 chroma subsampling.
pub fn prepare_compress(info: &foxdbg_image_info_t) -> (r: Result<CompressRequest, ImageError>)
    ensures
        r matches Err(ImageError::UnsupportedChannelCount) <==> layout_of_channels(
            info.channels as int,
        ) is None,
        r matches Err(ImageError::InvalidDimensions) <==> layout_of_channels(
            info.channels as int,
        ) is Some && (info.width < 0 || info.height < 0),
        r matches Ok(q) ==> layout_of_channels(info.channels as int) is Some
            && info.width >= 0 && info.height >= 0 && q == compress_request_of(*info),
{
    let layout = match layout_for_channels(info.channels) {
        Some(l) => l,
        None => {
            return Err(ImageError::UnsupportedChannelCount);
        },
    };
    if info.width < 0 || info.height < 0 {
        return Err(ImageError::InvalidDimensions);
    }
    let w = info.width as u64;
    let pitch: u64 = match layout {
        PixelLayout::Grey => w,
        PixelLayout::Rgb => w * 3,
        PixelLayout::Rgba => w * 4,
    };
    Ok(CompressRequest {
        width: info.width as u32,
        height: info.height as u32,
        pitch,
        layout,
        quality: JPEG_QUALITY,
        subsample_2x2: true,
    })
}

/// Wraps the bytes the external compressor returned into the image message
/// envelope, tagged with its format.
pub fn image_message_from_jpeg(jpeg: Vec<u8>) -> (m: ImageMsg)
    ensures
        m.frame_id@ == Seq::<char>::empty(),
        m.format@ == "JPEG"@,
        m.data@ == jpeg@,
{
    ImageMsg {
        frame_id: String::new(),
        format: String::from_str("JPEG"),
        data: jpeg,
    }
}

} // verus!
