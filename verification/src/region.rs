use vstd::prelude::*;
use crate::errors::{AutoGuiError, image_processing_error};
use crate::frame::{GrayFrame, RgbaFrame, image_fits};
use crate::image_ops::{crop_of, crop_region, lemma_crop_pixel, min_u32};
use crate::pixels::{gray_from_pixels, gray_levels};

verus! {

/// Byte `i` of the bytes kept by a crop, read from the source image: the
/// index that `cropped_bytes` reads.
proof fn lemma_cut_index_in_bounds(
    image_width: int,
    image_height: int,
    channels: int,
    cx: int,
    cy: int,
    cw: int,
    ch: int,
    row: int,
    col: int,
    c: int,
)
    requires
        0 <= image_width,
        0 <= image_height,
        0 < channels,
        0 <= cx,
        0 <= cy,
        cx + cw <= image_width,
        cy + ch <= image_height,
        0 <= row < ch,
        0 <= col < cw,
        0 <= c < channels,
    ensures
        0 <= ((cy + row) * image_width + cx + col) * channels + c < image_width * image_height
            * channels,
        0 <= (cy + row) * image_width <= (cy + row) * image_width + cx + col,
        (cy + row) * image_width + cx + col <= ((cy + row) * image_width + cx + col) * channels,
{
    assert(0 <= (cy + row) * image_width) by (nonlinear_arith)
        requires
            0 <= cy + row,
            0 <= image_width,
    ;
    assert((cy + row) * image_width + cx + col < (cy + row + 1) * image_width) by (nonlinear_arith)
        requires
            cx + col < image_width,
    ;
    assert((cy + row + 1) * image_width <= image_height * image_width) by (nonlinear_arith)
        requires
            cy + row + 1 <= image_height,
            0 <= image_width,
    ;
    let p = (cy + row) * image_width + cx + col;
    assert(p * channels + c < image_width * image_height * channels) by (nonlinear_arith)
        requires
            0 <= p,
            p + 1 <= image_height * image_width,
            0 <= c < channels,
    ;
    assert(0 <= p * channels) by (nonlinear_arith)
        requires
            0 <= p,
            0 < channels,
    ;
    assert(p <= p * channels) by (nonlinear_arith)
        requires
            0 <= p,
            1 <= channels,
    ;
}

/// The bytes of a crop, read directly from the image: the pixel in row `row`
/// and column `col` of the crop is the image pixel `row` rows below and `col`
/// columns right of the requested corner `(x, y)`.
proof fn lemma_cut_reads_from_corner(
    data: Seq<u8>,
    image_width: u32,
    image_height: u32,
    channels: nat,
    x: u32,
    y: u32,
    width: u32,
    height: u32,
)
    requires
        channels > 0,
    ensures
        ({
            let (cx, cy, cw, ch) = crop_region(image_width, image_height, x, y, width, height);
            let bytes = crop_of(data, image_width, image_height, channels, x, y, width, height);
            &&& bytes.len() == cw * ch * channels
            &&& forall|row: int, col: int, c: int|
                0 <= row < ch && 0 <= col < cw && 0 <= c < channels ==> #[trigger] bytes[(row * cw
                    + col) * channels + c] == data[((y + row) * image_width + x + col) * channels
                    + c]
        }),
{
    let (cx, cy, cw, ch) = crop_region(image_width, image_height, x, y, width, height);
    let bytes = crop_of(data, image_width, image_height, channels, x, y, width, height);
    assert forall|row: int, col: int, c: int|
        0 <= row < ch && 0 <= col < cw && 0 <= c < channels implies #[trigger] bytes[(row * cw
            + col) * channels + c] == data[((y + row) * image_width + x + col) * channels + c] by {
        lemma_crop_pixel(data, image_width, image_height, channels, x, y, width, height, row, col, c);
    }
}

/// The bytes of the part of an image that a crop at `(x, y)` of size
/// `width` x `height` keeps, row by row.
fn cut_bytes(
    data: &[u8],
    image_width: u32,
    image_height: u32,
    channels: u32,
    x: u32,
    y: u32,
    width: u32,
    height: u32,
) -> (r: Vec<u8>)
    requires
        channels == 1 || channels == 4,
        image_fits(image_width, image_height, channels as nat, data@.len()),
    ensures
        r@ == crop_of(data@, image_width, image_height, channels as nat, x, y, width, height),
{
    let cx = if x <= image_width {
        x
    } else {
        image_width
    };
    let cy = if y <= image_height {
        y
    } else {
        image_height
    };
    let cw = if width <= image_width - cx {
        width
    } else {
        image_width - cx
    };
    let ch = if height <= image_height - cy {
        height
    } else {
        image_height - cy
    };
    assert(crop_region(image_width, image_height, x, y, width, height) == (cx, cy, cw, ch));
    let ghost iw = image_width as int;
    let ghost ih = image_height as int;
    let ghost cc = channels as int;
    assert(cw * ch * cc <= iw * ih * cc) by (nonlinear_arith)
        requires
            0 <= cw <= iw,
            0 <= ch <= ih,
            0 < cc,
    ;
    assert(iw * ih * cc == cc * iw * ih) by (nonlinear_arith);
    let len = data.len();
    assert(cw * ch <= cw * ch * cc) by (nonlinear_arith)
        requires
            0 <= cw,
            0 <= ch,
            1 <= cc,
    ;
    let total: usize = (cw as usize) * (ch as usize) * (channels as usize);
    let ghost expected = crop_of(data@, image_width, image_height, channels as nat, x, y, width, height);
    let mut out: Vec<u8> = Vec::new();
    let mut i: usize = 0;
    while i < total
        invariant
            channels == 1 || channels == 4,
            cc == channels,
            iw == image_width,
            ih == image_height,
            cx + cw <= iw,
            cy + ch <= ih,
            total == cw * ch * cc,
            total <= data@.len(),
            iw * ih * cc <= data@.len(),
            len == data@.len(),
            expected.len() == total,
            expected == crop_of(data@, image_width, image_height, channels as nat, x, y, width, height),
            crop_region(image_width, image_height, x, y, width, height) == (cx, cy, cw, ch),
            i <= total,
            out@ == expected.take(i as int),
        decreases total - i,
    {
        let p: usize = i / (channels as usize);
        let c: usize = i % (channels as usize);
        assert(cw > 0) by (nonlinear_arith)
            requires
                0 <= i < total,
                total == cw * ch * cc,
                0 <= cw,
                0 <= ch,
        ;
        let row: usize = p / (cw as usize);
        let col: usize = p % (cw as usize);
        proof {
            vstd::arithmetic::div_mod::lemma_fundamental_div_mod(i as int, cc);
            vstd::arithmetic::div_mod::lemma_fundamental_div_mod(p as int, cw as int);
            assert(row < ch) by (nonlinear_arith)
                requires
                    i < cw * ch * cc,
                    i == cc * p + c,
                    0 <= c,
                    p == cw * row + col,
                    0 <= col,
                    0 < cc,
                    0 < cw,
            ;
            lemma_cut_index_in_bounds(
                iw,
                ih,
                cc,
                cx as int,
                cy as int,
                cw as int,
                ch as int,
                row as int,
                col as int,
                c as int,
            );
        }
        let index: usize = (((cy as usize) + row) * (image_width as usize) + (cx as usize) + col)
            * (channels as usize) + c;
        out.push(data[index]);
        proof {
            assert(expected[i as int] == data@[index as int]);
            assert(expected.take(i + 1) =~= expected.take(i as int).push(data@[index as int]));
        }
        i = i + 1;
    }
    assert(expected.take(total as int) =~= expected);
    out
}

/// The part of an RGBA frame that a crop at `(x, y)` of size `width` x
/// `height` keeps: the corner clamped into the frame and the size clamped to
/// what lies right of and below it.
pub fn cut_screen_region_rgba(x: u32, y: u32, width: u32, height: u32, frame: &RgbaFrame) -> (r:
    RgbaFrame)
    requires
        frame.wf(),
    ensures
        r.width == crop_region(frame.width, frame.height, x, y, width, height).2,
        r.height == crop_region(frame.width, frame.height, x, y, width, height).3,
        r.data@ == crop_of(frame.data@, frame.width, frame.height, 4, x, y, width, height),
        r.wf(),
        x <= frame.width ==> r.width <= width && x + r.width <= frame.width && (r.width == width
            || x + r.width == frame.width),
        x > frame.width ==> r.width == 0,
        y <= frame.height ==> r.height <= height && y + r.height <= frame.height && (r.height
            == height || y + r.height == frame.height),
        y > frame.height ==> r.height == 0,
        r.data@.len() == r.width * r.height * 4,
        forall|row: int, col: int, c: int|
            0 <= row < r.height && 0 <= col < r.width && 0 <= c < 4 ==> #[trigger] r.data@[(row
                * r.width + col) * 4 + c] == frame.data@[((y + row) * frame.width + x + col) * 4 + c],
{
    proof {
        lemma_cut_reads_from_corner(frame.data@, frame.width, frame.height, 4, x, y, width, height);
    }
    let cw = if width <= frame.width - min_u32_exec(x, frame.width) {
        width
    } else {
        frame.width - min_u32_exec(x, frame.width)
    };
    let ch = if height <= frame.height - min_u32_exec(y, frame.height) {
        height
    } else {
        frame.height - min_u32_exec(y, frame.height)
    };
    let data = cut_bytes(frame.data.as_slice(), frame.width, frame.height, 4, x, y, width, height);
    assert(4 * cw * ch == cw * ch * 4 && 4 * cw <= 4 * frame.width && 4 * cw * ch <= 4 * frame.width * frame.height) by (nonlinear_arith)
        requires
            cw <= frame.width,
            ch <= frame.height,
    ;
    RgbaFrame { width: cw, height: ch, data }
}

/// The part of a grayscale frame that a crop at `(x, y)` of size `width` x
/// `height` keeps, clamped as for RGBA frames.
pub fn cut_screen_region_gray(x: u32, y: u32, width: u32, height: u32, frame: &GrayFrame) -> (r:
    GrayFrame)
    requires
        frame.wf(),
    ensures
        r.width == crop_region(frame.width, frame.height, x, y, width, height).2,
        r.height == crop_region(frame.width, frame.height, x, y, width, height).3,
        r.data@ == crop_of(frame.data@, frame.width, frame.height, 1, x, y, width, height),
        r.wf(),
        x <= frame.width ==> r.width <= width && x + r.width <= frame.width && (r.width == width
            || x + r.width == frame.width),
        x > frame.width ==> r.width == 0,
        y <= frame.height ==> r.height <= height && y + r.height <= frame.height && (r.height
            == height || y + r.height == frame.height),
        y > frame.height ==> r.height == 0,
        r.data@.len() == r.width * r.height * 1,
        forall|row: int, col: int, c: int|
            0 <= row < r.height && 0 <= col < r.width && 0 <= c < 1 ==> #[trigger] r.data@[(row
                * r.width + col) * 1 + c] == frame.data@[((y + row) * frame.width + x + col) * 1 + c],
{
    proof {
        lemma_cut_reads_from_corner(frame.data@, frame.width, frame.height, 1, x, y, width, height);
    }
    let cw = if width <= frame.width - min_u32_exec(x, frame.width) {
        width
    } else {
        frame.width - min_u32_exec(x, frame.width)
    };
    let ch = if height <= frame.height - min_u32_exec(y, frame.height) {
        height
    } else {
        frame.height - min_u32_exec(y, frame.height)
    };
    let data = cut_bytes(frame.data.as_slice(), frame.width, frame.height, 1, x, y, width, height);
    assert(1 * cw * ch == cw * ch * 1 && 1 * cw <= 1 * frame.width && 1 * cw * ch <= 1 * frame.width * frame.height) by (nonlinear_arith)
        requires
            cw <= frame.width,
            ch <= frame.height,
    ;
    GrayFrame { width: cw, height: ch, data }
}

/// The smaller of two values.
fn min_u32_exec(a: u32, b: u32) -> (r: u32)
    ensures
        r == min_u32(a, b),
{
    if a <= b {
        a
    } else {
        b
    }
}

/// Message when an RGBA image cannot be turned into a grayscale one.
pub open spec fn bw_failure_message() -> Seq<char> {
    "Failed conversion to grayscale"@
}

/// An RGBA frame in grayscale, by the luminance formula (red 30, green 59,
/// blue 11 percent).
pub fn convert_rgba_to_bw(frame: RgbaFrame) -> (r: Result<GrayFrame, AutoGuiError>)
    requires
        frame.wf(),
    ensures
        r matches Ok(g) && g.width == frame.width && g.height == frame.height && g.data@
            == gray_levels(frame.data@),
{
    let gray = gray_from_pixels(frame.data.as_slice());
    assert(frame.width * frame.height <= frame.data@.len() / 4) by (nonlinear_arith)
        requires
            4 * frame.width * frame.height <= frame.data@.len(),
    ;
    assert(1 * frame.width * frame.height == frame.width * frame.height);
    assert(frame.width <= 4 * frame.width);
    assert(frame.width * frame.height <= 4 * frame.width * frame.height) by (nonlinear_arith);
    match GrayFrame::from_raw(frame.width, frame.height, gray) {
        Some(g) => Ok(g),
        None => Err(image_processing_error("Failed conversion to grayscale")),
    }
}

} // verus!
