//! Pixel layouts of captured and decoded frames.

use vstd::prelude::*;

verus! {

/// Layout of one pixel in a frame buffer.
#[derive(Debug, Clone, Copy, PartialEq, Eq, Structural)]
pub enum PixelFormat {
    RGBA16,
    RGBA8,
    BGRA8,
}

/// Numeric code of a DirectX pixel format, as the platform's capture
/// interface takes it.
#[derive(Debug, Clone, Copy, PartialEq, Eq, Structural)]
pub struct DirectXPixelFormat(pub i32);

/// Code of the 64-bit floating point RGBA format.
pub const DIRECTX_R16G16B16A16_FLOAT: i32 = 10;

/// Code of the 32-bit unsigned-normalized RGBA format.
pub const DIRECTX_R8G8B8A8_UINT_NORMALIZED: i32 = 28;

/// Code of the 32-bit unsigned-normalized BGRA format.
pub const DIRECTX_B8G8R8A8_UINT_NORMALIZED: i32 = 87;

/// Number of bytes one pixel of `format` occupies.
pub open spec fn spec_bytes_per_pixel(format: PixelFormat) -> u32 {
    match format {
        PixelFormat::RGBA16 => 8,
        PixelFormat::RGBA8 => 4,
        PixelFormat::BGRA8 => 4,
    }
}

/// DirectX code that stands for `format`.
pub open spec fn spec_directx_code(format: PixelFormat) -> i32 {
    match format {
        PixelFormat::RGBA16 => DIRECTX_R16G16B16A16_FLOAT,
        PixelFormat::RGBA8 => DIRECTX_R8G8B8A8_UINT_NORMALIZED,
        PixelFormat::BGRA8 => DIRECTX_B8G8R8A8_UINT_NORMALIZED,
    }
}

/// Types that know the width of one of their pixels in bytes.
pub trait BytesPerPixel {
    /// The width the implementor promises to report.
    spec fn pixel_width(&self) -> u32;

    fn bytes_per_pixel(&self) -> (n: u32)
        ensures
            n == self.pixel_width(),
    ;
}

impl BytesPerPixel for PixelFormat {
    open spec fn pixel_width(&self) -> u32 {
        spec_bytes_per_pixel(*self)
    }

    fn bytes_per_pixel(&self) -> (n: u32) {
        match self {
            PixelFormat::RGBA16 => 8,
            PixelFormat::RGBA8 => 4,
            PixelFormat::BGRA8 => 4,
        }
    }
}

/// Types that map onto a DirectX pixel format.
pub trait ToDirectXPixelFormat {
    /// The code the implementor promises to report.
    spec fn directx_code(&self) -> i32;

    fn to_directx_pixel_format(&self) -> (f: DirectXPixelFormat)
        ensures
            f.0 == self.directx_code(),
    ;
}

impl ToDirectXPixelFormat for PixelFormat {
    open spec fn directx_code(&self) -> i32 {
        spec_directx_code(*self)
    }

    fn to_directx_pixel_format(&self) -> (f: DirectXPixelFormat) {
        match self {
            PixelFormat::RGBA16 => DirectXPixelFormat(DIRECTX_R16G16B16A16_FLOAT),
            PixelFormat::RGBA8 => DirectXPixelFormat(DIRECTX_R8G8B8A8_UINT_NORMALIZED),
            PixelFormat::BGRA8 => DirectXPixelFormat(DIRECTX_B8G8R8A8_UINT_NORMALIZED),
        }
    }
}

} // verus!
