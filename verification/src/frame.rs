use crate::format::PixelEncoding;
use vstd::prelude::*;

verus! {

/// One frame as the device delivered it: encoded bytes and what the device
/// says of them. It is consumed by decoding and never kept.
#[derive(Debug, PartialEq, Eq)]
pub struct RawFrame {
    /// Pixels per row, by the device's account.
    pub width: u32,
    /// Rows, by the device's account.
    pub height: u32,
    /// How `data` encodes the pixels, by the device's account.
    pub encoding: PixelEncoding,
    /// The encoded bytes.
    pub data: Vec<u8>,
}

/// One pixel as a single number: red in bits 16 to 23, green in bits 8 to 15,
/// blue in bits 0 to 7, the top eight bits clear.
pub open spec fn pack_rgb(red: u8, green: u8, blue: u8) -> u32 {
    (red * 0x1_0000 + green * 0x100 + blue) as u32
}

/// A decoded frame as contracts see it: a grid of `width` by `height` pixels,
/// row after row from the top, each pixel three bytes: red, green, blue.
pub struct FrameView {
    /// Pixels per row.
    pub width: nat,
    /// Rows.
    pub height: nat,
    /// The bytes of all pixels, in order.
    pub pixels: Seq<u8>,
}

impl FrameView {
    /// A grid has exactly three bytes for each of its pixels.
    pub open spec fn well_formed(self) -> bool {
        self.pixels.len() == 3 * self.width * self.height
    }

    /// Red, green and blue of the pixel in column `x` of row `y`.
    pub open spec fn pixel(self, x: int, y: int) -> (u8, u8, u8) {
        let at = 3 * (y * self.width + x);
        (self.pixels[at], self.pixels[at + 1], self.pixels[at + 2])
    }

    /// The pixels one number each, in the order of the grid.
    pub open spec fn packed(self) -> Seq<u32> {
        Seq::new(
            self.width * self.height,
            |i: int| pack_rgb(self.pixels[3 * i], self.pixels[3 * i + 1], self.pixels[3 * i + 2]),
        )
    }
}

/// A decoded frame: 8 bits per channel, three channels, row-major and
/// pixel-packed. It always holds exactly three bytes per pixel.
#[derive(Debug, PartialEq, Eq)]
pub struct DecodedFrame {
    width: u32,
    height: u32,
    pixels: Vec<u8>,
}

impl View for DecodedFrame {
    type V = FrameView;

    closed spec fn view(&self) -> FrameView {
        FrameView { width: self.width as nat, height: self.height as nat, pixels: self.pixels@ }
    }
}

impl DecodedFrame {
    /// Every frame holds exactly three bytes for each pixel of its grid.
    #[verifier::type_invariant]
    spec fn holds_whole_grid(self) -> bool {
        self.pixels@.len() == 3 * self.width * self.height
    }

    /// The number of bytes in a grid of `width` by `height` pixels, where a
    /// `usize` can hold it.
    fn byte_count(width: u32, height: u32) -> (count: Option<usize>)
        ensures
            count matches Some(n) ==> n == 3 * width * height,
            count is None ==> 3 * width * height > usize::MAX,
    {
        let area: usize = match (width as usize).checked_mul(height as usize) {
            Some(n) => n,
            None => {
                assert(3 * width * height > usize::MAX) by (nonlinear_arith)
                    requires
                        width * height > usize::MAX,
                ;
                return None;
            },
        };
        let count = area.checked_mul(3);
        assert(3 * area == 3 * width * height) by (nonlinear_arith)
            requires
                area == width * height,
        ;
        count
    }

    /// Makes a frame of the first `3 * width * height` bytes of `pixels`, or
    /// nothing when `pixels` holds fewer.
    pub fn from_pixels(width: u32, height: u32, pixels: Vec<u8>) -> (frame: Option<DecodedFrame>)
        ensures
            frame is Some <==> pixels@.len() >= 3 * width * height,
            frame matches Some(f) ==> f@ == (FrameView {
                width: width as nat,
                height: height as nat,
                pixels: pixels@.take(3 * width * height),
            }),
            frame matches Some(f) ==> f@.well_formed(),
    {
        let have: usize = pixels.len();
        let needed: usize = match Self::byte_count(width, height) {
            Some(n) => n,
            None => return None,
        };
        if have < needed {
            return None;
        }
        let mut pixels = pixels;
        pixels.truncate(needed);
        Some(DecodedFrame { width, height, pixels })
    }

    /// Pixels per row.
    pub fn width(&self) -> (width: u32)
        ensures
            width == self@.width,
    {
        self.width
    }

    /// Rows.
    pub fn height(&self) -> (height: u32)
        ensures
            height == self@.height,
    {
        self.height
    }

    /// The bytes of all pixels: row after row, three bytes per pixel.
    pub fn pixels(&self) -> (pixels: &Vec<u8>)
        ensures
            pixels@ == self@.pixels,
            self@.well_formed(),
    {
        proof {
            use_type_invariant(self);
        }
        &self.pixels
    }

    /// Gives up the frame for its bytes.
    pub fn into_pixels(self) -> (pixels: Vec<u8>)
        ensures
            pixels@ == self@.pixels,
            self@.well_formed(),
    {
        proof {
            use_type_invariant(&self);
        }
        self.pixels
    }

    /// Red, green and blue of the pixel in column `x` of row `y`, or nothing
    /// where the grid has no such pixel.
    pub fn pixel(&self, x: u32, y: u32) -> (pixel: Option<(u8, u8, u8)>)
        ensures
            pixel == if x < self@.width && y < self@.height {
                Some(self@.pixel(x as int, y as int))
            } else {
                None
            },
    {
        proof {
            use_type_invariant(self);
        }
        if x >= self.width || y >= self.height {
            return None;
        }
        assert(self.pixels@.len() == self.pixels.len());
        assert(0 <= y * self.width && 3 * (y * self.width + x) + 2 < 3 * self.width * self.height)
            by (nonlinear_arith)
            requires
                0 <= x < self.width,
                0 <= y < self.height,
        ;
        let at: usize = 3 * ((y as usize) * (self.width as usize) + (x as usize));
        Some((self.pixels[at], self.pixels[at + 1], self.pixels[at + 2]))
    }

    /// The pixels one number each, as `pack_rgb` packs them, in the order of
    /// the grid: what a display buffer of 32-bit words takes.
    pub fn packed_rgb(&self) -> (words: Vec<u32>)
        ensures
            words@ == self@.packed(),
            words@.len() == self@.width * self@.height,
    {
        proof {
            use_type_invariant(self);
        }
        assert(self.pixels@.len() == self.pixels.len());
        assert(3 * (self.width * self.height) == 3 * self.width * self.height)
            by (nonlinear_arith);
        assert(0 <= self.width * self.height) by (nonlinear_arith);
        let count: usize = (self.width as usize) * (self.height as usize);
        let mut words: Vec<u32> = Vec::new();
        let mut i: usize = 0;
        while i < count
            invariant
                i <= count,
                count == self.width * self.height,
                self.pixels@.len() == 3 * count <= usize::MAX,
                words@.len() == i,
                forall|k: int|
                    0 <= k < i ==> #[trigger] words@[k] == pack_rgb(
                        self.pixels@[3 * k],
                        self.pixels@[3 * k + 1],
                        self.pixels@[3 * k + 2],
                    ),
            decreases count - i,
        {
            let word = pack(self.pixels[3 * i], self.pixels[3 * i + 1], self.pixels[3 * i + 2]);
            words.push(word);
            i += 1;
        }
        assert(words@ =~= self@.packed());
        words
    }
}

/// Packs one pixel into a number.
fn pack(red: u8, green: u8, blue: u8) -> (word: u32)
    ensures
        word == pack_rgb(red, green, blue),
{
    let r: u32 = red as u32;
    let g: u32 = green as u32;
    let b: u32 = blue as u32;
    assert(((r << 16) | (g << 8) | b) == r * 0x1_0000 + g * 0x100 + b) by (bit_vector)
        requires
            r < 0x100,
            g < 0x100,
            b < 0x100,
    ;
    (r << 16) | (g << 8) | b
}

} // verus!
