use vstd::prelude::*;

verus! {

/// Byte `c` of pixel `k` in a buffer of four bytes per pixel.
pub open spec fn channel(data: Seq<u8>, k: int, c: int) -> u8 {
    data[4 * k + c]
}

/// Pixel `k` of `out` is pixel `k` of `raw` read in B, G, R order and made opaque.
pub open spec fn rgba_pixel_of_bgra(out: Seq<u8>, raw: Seq<u8>, k: int) -> bool {
    &&& channel(out, k, 0) == channel(raw, k, 2)
    &&& channel(out, k, 1) == channel(raw, k, 1)
    &&& channel(out, k, 2) == channel(raw, k, 0)
    &&& channel(out, k, 3) == 255
}

/// `out` holds the first `pixels` pixels of the BGRA buffer `raw` as RGBA.
pub open spec fn is_rgba_of_bgra(out: Seq<u8>, raw: Seq<u8>, pixels: int) -> bool {
    &&& out.len() == 4 * pixels
    &&& forall|k: int| 0 <= k < pixels ==> #[trigger] rgba_pixel_of_bgra(out, raw, k)
}

/// Converts a `width` x `height` screen capture stored as B, G, R, X bytes per
/// pixel into R, G, B, A bytes with full opacity, pixel by pixel in row order.
pub fn bgra_to_rgba(raw: &[u8], width: u32, height: u32) -> (out: Vec<u8>)
    requires
        width * height * 4 <= u32::MAX,
        raw@.len() >= width * height * 4,
    ensures
        is_rgba_of_bgra(out@, raw@, width * height),
{
    let pixels: u32 = width * height;
    let mut out: Vec<u8> = Vec::new();
    let mut k: u32 = 0;
    while k < pixels
        invariant
            pixels == width * height,
            pixels * 4 <= u32::MAX,
            raw@.len() >= pixels * 4,
            k <= pixels,
            is_rgba_of_bgra(out@, raw@, k as int),
        decreases pixels - k,
    {
        let index: usize = (k * 4) as usize;
        let ghost before = out@;
        out.push(raw[index + 2]);
        out.push(raw[index + 1]);
        out.push(raw[index]);
        out.push(255u8);
        proof {
            assert forall|j: int| 0 <= j < k + 1 implies #[trigger] rgba_pixel_of_bgra(
                out@,
                raw@,
                j,
            ) by {
                if j < k {
                    assert(rgba_pixel_of_bgra(before, raw@, j));
                }
            }
        }
        k = k + 1;
    }
    out
}

/// Gray level of a pixel from its red, green and blue bytes, weighted
/// 30 / 59 / 11 percent.
pub open spec fn luminance(r: u8, g: u8, b: u8) -> u8 {
    ((r * 30 + g * 59 + b * 11) / 100) as u8
}

/// Gray levels of the complete four-byte RGBA pixels of `data`: byte 0 of a
/// pixel is red, byte 1 green and byte 2 blue; the alpha byte is ignored.
pub open spec fn gray_levels(data: Seq<u8>) -> Seq<u8> {
    Seq::new(
        data.len() / 4,
        |k: int| luminance(channel(data, k, 0), channel(data, k, 1), channel(data, k, 2)),
    )
}

/// Gray levels of every complete RGBA pixel of `data` by the luminance
/// formula; bytes after the last complete pixel are ignored.
pub fn gray_from_pixels(data: &[u8]) -> (out: Vec<u8>)
    ensures
        out@ == gray_levels(data@),
{
    let pixels: usize = data.len() / 4;
    let mut out: Vec<u8> = Vec::new();
    let mut k: usize = 0;
    while k < pixels
        invariant
            pixels == data.len() / 4,
            data.len() == data@.len(),
            k <= pixels,
            out@ == gray_levels(data@).take(k as int),
        decreases pixels - k,
    {
        assert(k * 4 + 3 < data.len()) by (nonlinear_arith)
            requires
                k < pixels,
                pixels == data.len() / 4,
        ;
        let index: usize = k * 4;
        let r = data[index] as u32;
        let g = data[index + 1] as u32;
        let b = data[index + 2] as u32;
        let sum: u32 = r * 30 + g * 59 + b * 11;
        assert(sum / 100 <= 255) by (nonlinear_arith)
            requires
                sum == r * 30 + g * 59 + b * 11,
                r <= 255,
                g <= 255,
                b <= 255,
        ;
        let gray = (sum / 100) as u8;
        out.push(gray);
        proof {
            assert(gray_levels(data@).take(k + 1) =~= gray_levels(data@).take(k as int).push(gray));
        }
        k = k + 1;
    }
    assert(gray_levels(data@).take(pixels as int) =~= gray_levels(data@));
    out
}

/// A gray pixel (equal red, green and blue bytes) keeps its level: the
/// weights of the luminance formula add up to one.
pub proof fn lemma_luminance_of_gray(v: u8)
    ensures
        luminance(v, v, v) == v,
{
    assert(v * 30 + v * 59 + v * 11 == 100 * v);
}

/// Each gray level lies between the smallest and the largest of the pixel's
/// red, green and blue bytes (the weights are non-negative and add up to one).
pub proof fn lemma_luminance_between(r: u8, g: u8, b: u8)
    ensures
        r <= g && r <= b ==> r <= luminance(r, g, b),
        g <= r && g <= b ==> g <= luminance(r, g, b),
        b <= r && b <= g ==> b <= luminance(r, g, b),
        r >= g && r >= b ==> luminance(r, g, b) <= r,
        g >= r && g >= b ==> luminance(r, g, b) <= g,
        b >= r && b >= g ==> luminance(r, g, b) <= b,
{
    let sum = r * 30 + g * 59 + b * 11;
    let lo = if r <= g && r <= b {
        r
    } else if g <= b {
        g
    } else {
        b
    };
    let hi = if r >= g && r >= b {
        r
    } else if g >= b {
        g
    } else {
        b
    };
    assert(100 * lo <= sum <= 100 * hi);
    assert(lo <= sum / 100 <= hi) by (nonlinear_arith)
        requires
            100 * lo <= sum <= 100 * hi,
            0 <= lo,
    ;
}

/// The smallest of three bytes.
pub open spec fn min3(a: u8, b: u8, c: u8) -> u8 {
    if a <= b && a <= c {
        a
    } else if b <= c {
        b
    } else {
        c
    }
}

/// The largest of three bytes.
pub open spec fn max3(a: u8, b: u8, c: u8) -> u8 {
    if a >= b && a >= c {
        a
    } else if b >= c {
        b
    } else {
        c
    }
}

/// Every gray level of a buffer lies between the smallest and the largest of
/// its pixel's red, green and blue bytes; the alpha byte plays no part.
pub proof fn lemma_gray_levels_between(data: Seq<u8>)
    ensures
        forall|k: int|
            0 <= k < data.len() / 4 ==> {
                &&& min3(channel(data, k, 0), channel(data, k, 1), channel(data, k, 2))
                    <= #[trigger] gray_levels(data)[k]
                &&& gray_levels(data)[k] <= max3(
                    channel(data, k, 0),
                    channel(data, k, 1),
                    channel(data, k, 2),
                )
            },
{
    assert forall|k: int| 0 <= k < data.len() / 4 implies {
        &&& min3(channel(data, k, 0), channel(data, k, 1), channel(data, k, 2))
            <= #[trigger] gray_levels(data)[k]
        &&& gray_levels(data)[k] <= max3(channel(data, k, 0), channel(data, k, 1), channel(data, k, 2))
    } by {
        lemma_luminance_between(channel(data, k, 0), channel(data, k, 1), channel(data, k, 2));
    }
}

/// The gray levels of a converted capture weight the capture's own bytes:
/// red (byte 2 of the captured pixel) by 30 percent, green (byte 1) by 59 and
/// blue (byte 0) by 11.
pub proof fn lemma_gray_levels_of_capture(out: Seq<u8>, raw: Seq<u8>, pixels: int)
    requires
        pixels >= 0,
        is_rgba_of_bgra(out, raw, pixels),
    ensures
        gray_levels(out).len() == pixels,
        forall|k: int|
            0 <= k < pixels ==> #[trigger] gray_levels(out)[k] == luminance(
                channel(raw, k, 2),
                channel(raw, k, 1),
                channel(raw, k, 0),
            ),
{
    assert forall|k: int| 0 <= k < pixels implies #[trigger] gray_levels(out)[k] == luminance(
        channel(raw, k, 2),
        channel(raw, k, 1),
        channel(raw, k, 0),
    ) by {
        assert(rgba_pixel_of_bgra(out, raw, k));
    }
}

/// Byte by byte, a converted capture holds the captured byte two places
/// ahead in each pixel's first position (red), the same byte in the second
/// (green), the byte two places back in the third (blue), and 255 in the
/// fourth (alpha).
pub proof fn lemma_rgba_bytes_of_bgra(out: Seq<u8>, raw: Seq<u8>, pixels: int)
    requires
        pixels >= 0,
        is_rgba_of_bgra(out, raw, pixels),
    ensures
        out.len() == 4 * pixels,
        forall|i: int|
            0 <= i < 4 * pixels ==> {
                &&& i % 4 == 0 ==> #[trigger] out[i] == raw[i + 2]
                &&& i % 4 == 1 ==> out[i] == raw[i]
                &&& i % 4 == 2 ==> out[i] == raw[i - 2]
                &&& i % 4 == 3 ==> out[i] == 255
            },
{
    assert forall|i: int| 0 <= i < 4 * pixels implies {
        &&& i % 4 == 0 ==> #[trigger] out[i] == raw[i + 2]
        &&& i % 4 == 1 ==> out[i] == raw[i]
        &&& i % 4 == 2 ==> out[i] == raw[i - 2]
        &&& i % 4 == 3 ==> out[i] == 255
    } by {
        let k = i / 4;
        assert(i == 4 * k + i % 4);
        assert(0 <= k < pixels);
        assert(rgba_pixel_of_bgra(out, raw, k));
    }
}

/// The gray level of pixel `k` is 30 percent of its first byte (red), 59
/// percent of its second (green) and 11 percent of its third (blue), summed
/// and rounded down.
pub proof fn lemma_gray_level_formula(data: Seq<u8>)
    ensures
        gray_levels(data).len() == data.len() / 4,
        forall|k: int|
            0 <= k < data.len() / 4 ==> #[trigger] gray_levels(data)[k] as int == (30 * data[4
                * k] + 59 * data[4 * k + 1] + 11 * data[4 * k + 2]) / 100,
{
    assert forall|k: int| 0 <= k < data.len() / 4 implies #[trigger] gray_levels(data)[k] as int
        == (30 * data[4 * k] + 59 * data[4 * k + 1] + 11 * data[4 * k + 2]) / 100 by {
        let r = data[4 * k];
        let g = data[4 * k + 1];
        let b = data[4 * k + 2];
        assert((r * 30 + g * 59 + b * 11) / 100 <= 255) by (nonlinear_arith)
            requires
                r <= 255,
                g <= 255,
                b <= 255,
        ;
        assert(30 * r + 59 * g + 11 * b == r * 30 + g * 59 + b * 11);
    }
}

} // verus!
