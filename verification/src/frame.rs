use vstd::prelude::*;

verus! {

/// Whether a buffer of `len` bytes holds a `width` x `height` image of
/// `channels` bytes per pixel (extra bytes at the end are allowed), with the
/// byte counts of a row and of the whole image representable as `usize`.
pub open spec fn image_fits(width: u32, height: u32, channels: nat, len: nat) -> bool {
    &&& channels * width <= usize::MAX
    &&& channels * width * height <= usize::MAX
    &&& channels * width * height <= len
}

/// An RGBA image: four bytes per pixel, rows top to bottom, pixels left to right.
#[derive(Debug, Clone)]
pub struct RgbaFrame {
    pub width: u32,
    pub height: u32,
    pub data: Vec<u8>,
}

/// A grayscale image: one byte per pixel, rows top to bottom, pixels left to right.
#[derive(Debug, Clone)]
pub struct GrayFrame {
    pub width: u32,
    pub height: u32,
    pub data: Vec<u8>,
}

/// Whether `len` bytes hold `channels * width * height` bytes, computed as
/// the image buffer does: with multiplications that report overflow, an
/// overflow counting as not fitting.
fn buffer_fits(width: u32, height: u32, channels: usize, len: usize) -> (r: bool)
    ensures
        r == image_fits(width, height, channels as nat, len as nat),
{
    match channels.checked_mul(width as usize) {
        None => false,
        Some(row) => match row.checked_mul(height as usize) {
            None => false,
            Some(total) => total <= len,
        },
    }
}

impl RgbaFrame {
    /// A copy of the frame.
    pub fn duplicate(&self) -> (r: RgbaFrame)
        ensures
            r.width == self.width,
            r.height == self.height,
            r.data@ == self.data@,
    {
        RgbaFrame { width: self.width, height: self.height, data: self.data.clone() }
    }

    /// Whether the buffer is large enough for the frame's dimensions.
    pub open spec fn wf(&self) -> bool {
        image_fits(self.width, self.height, 4, self.data@.len())
    }

    /// Wraps `data` as a `width` x `height` RGBA image; `None` when the buffer
    /// is too small for those dimensions.
    pub fn from_raw(width: u32, height: u32, data: Vec<u8>) -> (r: Option<RgbaFrame>)
        ensures
            r is Some <==> image_fits(width, height, 4, data@.len()),
            r matches Some(f) ==> f.width == width && f.height == height && f.data@ == data@,
    {
        if buffer_fits(width, height, 4, data.len()) {
            Some(RgbaFrame { width, height, data })
        } else {
            None
        }
    }
}

impl GrayFrame {
    /// Whether the buffer is large enough for the frame's dimensions.
    pub open spec fn wf(&self) -> bool {
        image_fits(self.width, self.height, 1, self.data@.len())
    }

    /// Wraps `data` as a `width` x `height` grayscale image; `None` when the
    /// buffer is too small for those dimensions.
    pub fn from_raw(width: u32, height: u32, data: Vec<u8>) -> (r: Option<GrayFrame>)
        ensures
            r is Some <==> image_fits(width, height, 1, data@.len()),
            r matches Some(f) ==> f.width == width && f.height == height && f.data@ == data@,
    {
        if buffer_fits(width, height, 1, data.len()) {
            Some(GrayFrame { width, height, data })
        } else {
            None
        }
    }
}

} // verus!
