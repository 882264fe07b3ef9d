use vstd::prelude::*;

verus! {

/// Width of every session's frames, in pixels.
pub const STANDARD_WIDTH: u32 = 640;

/// Height of every session's frames, in pixels.
pub const STANDARD_HEIGHT: u32 = 360;

/// Frames per second that every session asks for.
pub const STANDARD_FRAME_RATE: u32 = 30;

/// How the bytes of a raw frame encode its pixels.
#[derive(Debug, Clone, Copy, PartialEq, Eq)]
pub enum PixelEncoding {
    /// Motion JPEG: one compressed image per frame.
    Mjpeg,
    /// YUV 4:2:2, packed: two pixels in four bytes.
    Yuyv,
    /// YUV 4:2:0, two planes: all luma bytes, then interleaved chroma.
    Nv12,
    /// One luma byte per pixel.
    Gray,
    /// Three bytes per pixel: red, green, blue.
    RawRgb,
    /// Three bytes per pixel: blue, green, red.
    RawBgr,
}

/// A capture device as the host's enumeration names it. The session hands
/// the name on and never looks into it.
#[derive(Debug, PartialEq, Eq)]
pub enum DeviceDescriptor {
    /// A device that the host lists under a number.
    Index(u32),
    /// A device that is known by a name or an address.
    Name(String),
}

/// The one capture configuration that a session asks its device for. The
/// device is to deliver exactly this or refuse: nothing close to it will do.
#[derive(Debug, Clone, Copy, PartialEq, Eq)]
pub struct FormatRequest {
    /// Pixels per row.
    pub width: u32,
    /// Rows per frame.
    pub height: u32,
    /// The encoding in which the device delivers its frames.
    pub encoding: PixelEncoding,
    /// Frames per second.
    pub frame_rate: u32,
}

impl FormatRequest {
    /// The format of every session: 640 by 360, NV12, 30 frames per second.
    pub open spec fn spec_standard() -> FormatRequest {
        FormatRequest {
            width: STANDARD_WIDTH,
            height: STANDARD_HEIGHT,
            encoding: PixelEncoding::Nv12,
            frame_rate: STANDARD_FRAME_RATE,
        }
    }

    /// A format names a pixel grid and a rate only if all three numbers are
    /// positive.
    pub open spec fn well_formed(self) -> bool {
        self.width > 0 && self.height > 0 && self.frame_rate > 0
    }

    /// The format of every session: 640 by 360, NV12, 30 frames per second.
    #[verifier::when_used_as_spec(spec_standard)]
    pub fn standard() -> (format: FormatRequest)
        ensures
            format == Self::spec_standard(),
            format.well_formed(),
    {
        FormatRequest {
            width: STANDARD_WIDTH,
            height: STANDARD_HEIGHT,
            encoding: PixelEncoding::Nv12,
            frame_rate: STANDARD_FRAME_RATE,
        }
    }
}

} // verus!
