//! Frames, intensity maps and the luminance conversion between them.

use vstd::prelude::*;

verus! {

/// Weight of the red channel, in thousandths.
pub const RED_WEIGHT: u32 = 299;

/// Weight of the green channel, in thousandths.
pub const GREEN_WEIGHT: u32 = 587;

/// Weight of the blue channel, in thousandths.
pub const BLUE_WEIGHT: u32 = 114;

/// Luminance of one pixel: `0.299 R + 0.587 G + 0.114 B`, rounded to the
/// nearest integer (a half rounds up).
pub open spec fn luma(r: u8, g: u8, b: u8) -> int {
    (RED_WEIGHT * (r as int) + GREEN_WEIGHT * (g as int) + BLUE_WEIGHT * (b as int) + 500) / 1000
}

/// The luminance of the first `count` pixels of an interleaved 3-channel buffer.
pub open spec fn gray_of(rgb: Seq<u8>, count: nat) -> Seq<u8> {
    Seq::new(count, |i: int| luma(rgb[3 * i], rgb[3 * i + 1], rgb[3 * i + 2]) as u8)
}

/// The weights sum to one, so a luminance is again an 8-bit value.
pub proof fn lemma_luma_is_byte(r: u8, g: u8, b: u8)
    ensures
        0 <= luma(r, g, b) <= 255,
        r == g && g == b ==> luma(r, g, b) == r,
{
}

/// The conversion reads nothing but the pixels it converts: two buffers that
/// agree on their first `count` pixels have the same luminance there, and
/// there is one output byte for each pixel.
pub proof fn lemma_gray_follows_pixels(a: Seq<u8>, b: Seq<u8>, count: nat)
    requires
        forall|i: int| 0 <= i < 3 * count ==> a[i] == b[i],
    ensures
        gray_of(a, count) == gray_of(b, count),
        gray_of(a, count).len() == count,
{
    assert(gray_of(a, count) =~= gray_of(b, count));
}

/// Luminance of one pixel.
pub fn pixel_luma(r: u8, g: u8, b: u8) -> (y: u8)
    ensures
        y == luma(r, g, b),
{
    let weighted: u32 = RED_WEIGHT * (r as u32) + GREEN_WEIGHT * (g as u32) + BLUE_WEIGHT * (b as u32);
    let rounded: u32 = (weighted + 500) / 1000;
    rounded as u8
}

/// Luminance of the first `width * height` pixels of `rgb_data`.
pub fn create_gray_data(rgb_data: &[u8], width: usize, height: usize) -> (gray: Vec<u8>)
    requires
        width * height * 3 <= rgb_data@.len(),
    ensures
        gray@ == gray_of(rgb_data@, (width * height) as nat),
{
    let available: usize = rgb_data.len();
    assert(0 <= width * height <= width * height * 3) by (nonlinear_arith);
    let count: usize = width * height;
    let mut gray: Vec<u8> = Vec::with_capacity(count);
    let mut i: usize = 0;
    while i < count
        invariant
            i <= count,
            count * 3 <= rgb_data@.len() == available,
            gray@ == gray_of(rgb_data@, i as nat),
        decreases count - i,
    {
        let idx: usize = i * 3;
        let y: u8 = pixel_luma(rgb_data[idx], rgb_data[idx + 1], rgb_data[idx + 2]);
        gray.push(y);
        i += 1;
        assert(gray@ =~= gray_of(rgb_data@, i as nat));
    }
    gray
}

/// One captured image: interleaved 3-channel, 8-bit pixels in row-major order.
#[derive(Clone, Debug, PartialEq, Eq)]
pub struct Frame {
    pub width: u32,
    pub height: u32,
    pub pixels: Vec<u8>,
}

/// Single-channel intensities of a frame, in row-major order.
#[derive(Clone, Debug, PartialEq, Eq)]
pub struct IntensityMap {
    pub width: u32,
    pub height: u32,
    pub data: Vec<u8>,
}

impl Frame {
    /// The buffer holds exactly three bytes per pixel.
    pub open spec fn well_formed(&self) -> bool {
        self.pixels@.len() == self.width * self.height * 3
    }

    /// A frame of the given size over `pixels`, if the buffer has the length
    /// that the size asks for.
    pub fn new(width: u32, height: u32, pixels: Vec<u8>) -> (frame: Option<Frame>)
        ensures
            frame.is_some() <==> pixels@.len() == width * height * 3,
            frame.is_some() ==> {
                let f = frame.unwrap();
                f.well_formed() && f.width == width && f.height == height && f.pixels@ == pixels@
            },
    {
        assert(0 <= width * height <= 0xffff_ffff * 0xffff_ffff) by (nonlinear_arith)
            requires
                0 <= width <= 0xffff_ffff,
                0 <= height <= 0xffff_ffff,
        ;
        let count: u64 = (width as u64) * (height as u64);
        let given: usize = pixels.len();
        if count > u64::MAX / 3 {
            assert(given < count * 3);
            return None;
        }
        if given as u64 != count * 3 {
            return None;
        }
        Some(Frame { width, height, pixels })
    }
}

impl IntensityMap {
    /// The buffer holds exactly one byte per pixel.
    pub open spec fn well_formed(&self) -> bool {
        self.data@.len() == self.width * self.height
    }
}

/// The intensity map of a frame: same size, each pixel its luminance.
pub fn to_intensity(frame: &Frame) -> (map: IntensityMap)
    requires
        frame.well_formed(),
    ensures
        map.well_formed(),
        map.width == frame.width,
        map.height == frame.height,
        map.data@ == gray_of(frame.pixels@, (frame.width * frame.height) as nat),
{
    let width: usize = frame.width as usize;
    let height: usize = frame.height as usize;
    let data: Vec<u8> = create_gray_data(frame.pixels.as_slice(), width, height);
    IntensityMap { width: frame.width, height: frame.height, data }
}

} // verus!
