use crate::error::CameraError;
use crate::format::PixelEncoding;
use crate::frame::{DecodedFrame, FrameView, RawFrame};
use nokhwa::pixel_format::RgbFormat;
use nokhwa::utils::{FrameFormat, Resolution};
use nokhwa::Buffer;
use vstd::prelude::*;

verus! {

/// What `nokhwa::Buffer::decode_image`, with `RgbFormat` as its decoder, makes
/// of a buffer of the given encoding, resolution and bytes: the width, the
/// height and the bytes of the image that it returns, or nothing where it
/// returns an error.
pub uninterp spec fn rgb_decoding(
    encoding: PixelEncoding,
    width: u32,
    height: u32,
    data: Seq<u8>,
) -> Option<(u32, u32, Seq<u8>)>;

/// A decoder's answer with its bytes as a sequence.
pub open spec fn decoding_view(decoding: Option<(u32, u32, Vec<u8>)>) -> Option<
    (u32, u32, Seq<u8>),
> {
    match decoding {
        Some((width, height, pixels)) => Some((width, height, pixels@)),
        None => None,
    }
}

/// Whether a raw frame of `width` by `height` pixels and `len` bytes is one
/// that the decoder can be handed on this machine: the grid has a pixel, and
/// neither three bytes for each pixel nor three bytes for each byte of data
/// are more than a buffer can hold.
pub open spec fn within_limits(width: u32, height: u32, len: nat) -> bool {
    &&& width > 0
    &&& height > 0
    &&& 3 * width * height <= u32::MAX
    &&& 3 * width * height <= isize::MAX
    &&& 3 * len <= isize::MAX
}

/// The frame that a decoder's answer gives for a grid of `width` by `height`
/// pixels: the first three bytes per pixel of an image of exactly that width
/// and height; nothing for an image of another size, one with too few bytes,
/// or no image.
pub open spec fn accepted(
    width: u32,
    height: u32,
    decoding: Option<(u32, u32, Seq<u8>)>,
) -> Option<FrameView> {
    match decoding {
        Some((w, h, pixels)) => if w == width && h == height && pixels.len() >= 3 * w * h {
            Some(FrameView { width: w as nat, height: h as nat, pixels: pixels.take(3 * w * h) })
        } else {
            None
        },
        None => None,
    }
}

/// The frame that `raw` decodes to for a grid of `width` by `height` pixels:
/// nothing unless the device's account of the frame's size is that grid and
/// the frame is within the machine's limits; else what the decoder's answer
/// gives.
pub open spec fn decode_outcome(width: u32, height: u32, raw: RawFrame) -> Option<FrameView> {
    if raw.width == width && raw.height == height && within_limits(width, height, raw.data@.len()) {
        accepted(width, height, rgb_decoding(raw.encoding, raw.width, raw.height, raw.data@))
    } else {
        None
    }
}

/// Calls `nokhwa::Buffer::decode_image::<RgbFormat>` on a buffer made of
/// `data`, with `width` by `height` as its resolution and the frame format
/// that `encoding` stands for. The contract claims only that the call's
/// result is a function of these four values: the image's width, height and
/// bytes on success, nothing on an error. `requires` keeps to the frames on
/// which the decoder's own arithmetic cannot overflow, its buffers are of a
/// size that can be allocated, and no row is empty; on others it may panic.
#[verifier::external_body]
fn decode_rgb(encoding: PixelEncoding, width: u32, height: u32, data: &Vec<u8>) -> (decoding:
    Option<(u32, u32, Vec<u8>)>)
    requires
        within_limits(width, height, data@.len()),
    ensures
        decoding_view(decoding) == rgb_decoding(encoding, width, height, data@),
{
    let format = match encoding {
        PixelEncoding::Mjpeg => FrameFormat::MJPEG,
        PixelEncoding::Yuyv => FrameFormat::YUYV,
        PixelEncoding::Nv12 => FrameFormat::NV12,
        PixelEncoding::Gray => FrameFormat::GRAY,
        PixelEncoding::RawRgb => FrameFormat::RAWRGB,
        PixelEncoding::RawBgr => FrameFormat::RAWBGR,
    };
    match Buffer::new(Resolution::new(width, height), data, format).decode_image::<RgbFormat>() {
        Ok(image) => Some((image.width(), image.height(), image.into_raw())),
        Err(_) => None,
    }
}

impl DecodedFrame {
    /// Turns a decoder's answer into the frame for a grid of `width` by
    /// `height` pixels, or into `FrameDecodeError`.
    ///
    /// A frame comes out only of an image of exactly that width and height
    /// that holds at least three bytes per pixel; it holds the first three
    /// bytes per pixel. An image of any other size is refused, not passed
    /// on, and where the decoder gave no image there is no frame.
    pub fn from_decoding(width: u32, height: u32, decoding: Option<(u32, u32, Vec<u8>)>) -> (result:
        Result<DecodedFrame, CameraError>)
        ensures
            match result {
                Ok(frame) => accepted(width, height, decoding_view(decoding)) == Some(frame@),
                Err(error) => error == CameraError::FrameDecodeError && accepted(
                    width,
                    height,
                    decoding_view(decoding),
                ) is None,
            },
            decoding is None ==> result is Err,
            result matches Ok(frame) ==> frame@.width == width && frame@.height == height
                && frame@.well_formed(),
    {
        match decoding {
            None => Err(CameraError::FrameDecodeError),
            Some((w, h, pixels)) => {
                if w != width || h != height {
                    return Err(CameraError::FrameDecodeError);
                }
                match DecodedFrame::from_pixels(w, h, pixels) {
                    Some(frame) => Ok(frame),
                    None => Err(CameraError::FrameDecodeError),
                }
            },
        }
    }
}

impl RawFrame {
    /// Whether the frame is one that the decoder can be handed for a grid of
    /// `width` by `height` pixels.
    fn fits(&self, width: u32, height: u32) -> (fits: bool)
        ensures
            fits == (self.width == width && self.height == height && within_limits(
                width,
                height,
                self.data@.len(),
            )),
    {
        if self.width != width || self.height != height || width == 0 || height == 0 {
            return false;
        }
        assert(width * height <= 0xFFFF_FFFF * 0xFFFF_FFFF) by (nonlinear_arith)
            requires
                width <= 0xFFFF_FFFF,
                height <= 0xFFFF_FFFF,
        ;
        let area: u64 = (width as u64) * (height as u64);
        let most: u64 = (u32::MAX / 3) as u64;
        assert(3 * width * height == 3 * area) by (nonlinear_arith)
            requires
                area == width * height,
        ;
        if area > most {
            return false;
        }
        let limit: usize = isize::MAX as usize;
        ((3 * area) as usize) <= limit && self.data.len() <= limit / 3
    }

    /// Decodes the frame into a grid of `width` by `height` pixels.
    ///
    /// The frame is decoded from the encoding that it names. The result is
    /// `FrameDecodeError`, and never a frame, when the frame's own width and
    /// height are not `width` and `height`, when it is beyond the machine's
    /// limits, when the decoder fails on it, and when the decoder's image is
    /// not of exactly `width` by `height` pixels.
    pub fn decode(&self, width: u32, height: u32) -> (result: Result<DecodedFrame, CameraError>)
        ensures
            match result {
                Ok(frame) => decode_outcome(width, height, *self) == Some(frame@),
                Err(error) => error == CameraError::FrameDecodeError && decode_outcome(
                    width,
                    height,
                    *self,
                ) is None,
            },
            result matches Ok(frame) ==> frame@.width == width && frame@.height == height
                && frame@.well_formed(),
    {
        if !self.fits(width, height) {
            return Err(CameraError::FrameDecodeError);
        }
        let decoding = decode_rgb(self.encoding, self.width, self.height, &self.data);
        DecodedFrame::from_decoding(width, height, decoding)
    }
}

} // verus!
