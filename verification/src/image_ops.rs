use vstd::prelude::*;
use image::{ImageBuffer, Rgba};
use crate::frame::RgbaFrame;

verus! {

/// The smaller of two values.
pub open spec fn min_u32(a: u32, b: u32) -> u32 {
    if a <= b {
        a
    } else {
        b
    }
}

/// The part of a `image_width` x `image_height` image that a crop at `(x, y)`
/// of size `width` x `height` keeps: the corner is clamped into the image and
/// the size is clamped to what lies right of and below the corner.
/// Returns `(x, y, width, height)` of the kept rectangle.
pub open spec fn crop_region(
    image_width: u32,
    image_height: u32,
    x: u32,
    y: u32,
    width: u32,
    height: u32,
) -> (u32, u32, u32, u32) {
    let cx = min_u32(x, image_width);
    let cy = min_u32(y, image_height);
    (cx, cy, min_u32(width, (image_width - cx) as u32), min_u32(height, (image_height - cy) as u32))
}

/// The bytes of the `width` x `height` rectangle at `(x, y)` of an image of
/// `image_width` columns and `channels` bytes per pixel, row by row.
pub open spec fn cropped_bytes(
    data: Seq<u8>,
    image_width: u32,
    channels: nat,
    x: u32,
    y: u32,
    width: u32,
    height: u32,
) -> Seq<u8> {
    Seq::new(
        (width * height * channels) as nat,
        |i: int|
            {
                let p = i / (channels as int);
                let c = i % (channels as int);
                let row = p / (width as int);
                let col = p % (width as int);
                data[((y + row) * image_width + x + col) * channels + c]
            },
    )
}

/// The bytes that a crop at `(x, y)` of size `width` x `height` keeps from an
/// `image_width` x `image_height` image of `channels` bytes per pixel.
pub open spec fn crop_of(
    data: Seq<u8>,
    image_width: u32,
    image_height: u32,
    channels: nat,
    x: u32,
    y: u32,
    width: u32,
    height: u32,
) -> Seq<u8> {
    let (cx, cy, cw, ch) = crop_region(image_width, image_height, x, y, width, height);
    cropped_bytes(data, image_width, channels, cx, cy, cw, ch)
}

/// Crops an RGBA frame with `image::imageops::crop_imm` and copies the view
/// out with `SubImage::to_image`.
/// The frame is rebuilt as an image buffer with `ImageBuffer::from_raw`,
/// which accepts exactly the well-formed frames (same overflow-checked size
/// test), so the rebuild cannot fail.
/// Trusted: the kept rectangle is the corner clamped into the image and the
/// size clamped to what remains (as `crop_imm` computes it), and the copy holds
/// exactly that rectangle's pixels, row by row.
#[verifier::external_body]
pub(crate) fn crop_rgba(frame: &RgbaFrame, x: u32, y: u32, width: u32, height: u32) -> (r: RgbaFrame)
    requires
        frame.wf(),
    ensures
        r.width == crop_region(frame.width, frame.height, x, y, width, height).2,
        r.height == crop_region(frame.width, frame.height, x, y, width, height).3,
        r.data@ == crop_of(frame.data@, frame.width, frame.height, 4, x, y, width, height),
{
    let image: ImageBuffer<Rgba<u8>, Vec<u8>> = ImageBuffer::from_raw(
        frame.width,
        frame.height,
        frame.data.clone(),
    ).unwrap();
    let cropped = image::imageops::crop_imm(&image, x, y, width, height).to_image();
    RgbaFrame { width: cropped.width(), height: cropped.height(), data: cropped.into_raw() }
}

/// A crop never reaches outside the image and is never larger than asked:
/// the kept rectangle lies inside the image and within the requested size.
pub proof fn lemma_crop_within_image(
    image_width: u32,
    image_height: u32,
    x: u32,
    y: u32,
    width: u32,
    height: u32,
)
    ensures
        ({
            let (cx, cy, cw, ch) = crop_region(image_width, image_height, x, y, width, height);
            &&& cx + cw <= image_width
            &&& cy + ch <= image_height
            &&& cw <= width
            &&& ch <= height
            &&& (x <= image_width && x + width <= image_width) ==> cx == x && cw == width
            &&& (y <= image_height && y + height <= image_height) ==> cy == y && ch == height
        }),
{
}

/// Cropping an image to its whole area gives back the image: the bytes of
/// all its pixels, in order.
pub proof fn lemma_whole_image_crop(
    data: Seq<u8>,
    image_width: u32,
    image_height: u32,
    channels: nat,
)
    requires
        channels > 0,
        data.len() >= image_width * image_height * channels,
    ensures
        crop_region(image_width, image_height, 0, 0, image_width, image_height) == (
            0u32,
            0u32,
            image_width,
            image_height,
        ),
        crop_of(data, image_width, image_height, channels, 0, 0, image_width, image_height)
            =~= data.subrange(0, image_width * image_height * channels),
{
    let w = image_width as int;
    let h = image_height as int;
    let c = channels as int;
    let n = w * h * c;
    assert(n >= 0) by (nonlinear_arith)
        requires
            w >= 0,
            h >= 0,
            c >= 0,
            n == w * h * c,
    ;
    let cropped = cropped_bytes(data, image_width, channels, 0, 0, image_width, image_height);
    assert(cropped.len() == n);
    assert forall|i: int| 0 <= i < n implies cropped[i] == data[i] by {
        let p = i / c;
        let cc = i % c;
        vstd::arithmetic::div_mod::lemma_fundamental_div_mod(i, c);
        assert(w > 0) by (nonlinear_arith)
            requires
                0 <= i < n,
                n == w * h * c,
                w >= 0,
                h >= 0,
                c > 0,
        ;
        let row = p / w;
        let col = p % w;
        vstd::arithmetic::div_mod::lemma_fundamental_div_mod(p, w);
        assert((row * w + col) * c + cc == i) by (nonlinear_arith)
            requires
                i == c * p + cc,
                p == w * row + col,
        ;
    }
}

/// The kept rectangle starts at the requested corner whenever that corner
/// lies in the image (it is never moved left or up), and at the image's edge
/// otherwise; its size is the requested size, cut off only where the image
/// ends.
pub proof fn lemma_crop_keeps_requested_corner(
    image_width: u32,
    image_height: u32,
    x: u32,
    y: u32,
    width: u32,
    height: u32,
)
    ensures
        ({
            let (cx, cy, cw, ch) = crop_region(image_width, image_height, x, y, width, height);
            &&& x <= image_width ==> cx == x
            &&& x > image_width ==> cx == image_width
            &&& y <= image_height ==> cy == y
            &&& y > image_height ==> cy == image_height
            &&& cw <= width && cx + cw <= image_width
            &&& cw == width || cx + cw == image_width
            &&& ch <= height && cy + ch <= image_height
            &&& ch == height || cy + ch == image_height
        }),
{
}

/// Byte `c` of the pixel in row `row` and column `col` of a crop is byte `c`
/// of the image pixel `row` rows below and `col` columns right of the kept
/// corner.
pub proof fn lemma_crop_pixel(
    data: Seq<u8>,
    image_width: u32,
    image_height: u32,
    channels: nat,
    x: u32,
    y: u32,
    width: u32,
    height: u32,
    row: int,
    col: int,
    c: int,
)
    requires
        channels > 0,
        0 <= row < crop_region(image_width, image_height, x, y, width, height).3,
        0 <= col < crop_region(image_width, image_height, x, y, width, height).2,
        0 <= c < channels,
    ensures
        ({
            let (cx, cy, cw, ch) = crop_region(image_width, image_height, x, y, width, height);
            let bytes = crop_of(data, image_width, image_height, channels, x, y, width, height);
            &&& bytes.len() == cw * ch * channels
            &&& (row * cw + col) * channels + c < bytes.len()
            &&& bytes[(row * cw + col) * channels + c] == data[((cy + row) * image_width + cx
                + col) * channels + c]
        }),
{
    let (cx, cy, cw, ch) = crop_region(image_width, image_height, x, y, width, height);
    let cc = channels as int;
    let w = cw as int;
    let h = ch as int;
    let p = row * w + col;
    let i = p * cc + c;
    assert(p < w * h) by (nonlinear_arith)
        requires
            0 <= row < h,
            0 <= col < w,
            p == row * w + col,
    ;
    assert(0 <= p) by (nonlinear_arith)
        requires
            0 <= row,
            0 <= col,
            0 <= w,
            p == row * w + col,
    ;
    assert(0 <= i < w * h * cc) by (nonlinear_arith)
        requires
            0 <= p < w * h,
            0 <= c < cc,
            i == p * cc + c,
    ;
    vstd::arithmetic::div_mod::lemma_fundamental_div_mod_converse(i, cc, p, c);
    vstd::arithmetic::div_mod::lemma_fundamental_div_mod_converse(p, w, row, col);
}

} // verus!
