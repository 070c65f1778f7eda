//! Encodes raw pixel buffers into output file formats: flattening onto a
//! solid background, and PNG.
//!
//! Knows nothing about the GPU or the platform: it only ever sees plain
//! bytes plus width, height and color.

use vstd::prelude::*;
use vstd::string::*;

use crate::text::{decimal, push_decimal};

verus! {

/// The value of a colour channel of `fg` composited with straight alpha
/// `alpha` over an opaque `bg`: `fg * a + bg * (1 - a)` with
/// `a = alpha / 255`, rounded to the nearest integer (half up).
pub open spec fn over_channel(fg: u8, bg: u8, alpha: u8) -> int {
    (2 * (fg * alpha + bg * (255 - alpha)) + 255) / 510
}

/// Whether pixel `p` of `out` is pixel `p` of `rgba` composited onto
/// `background`: each colour channel composited with the pixel's own
/// alpha, and the alpha channel opaque.
pub open spec fn pixel_flattened(rgba: Seq<u8>, background: [u8; 3], out: Seq<u8>, p: int) -> bool {
    &&& out[4 * p] == over_channel(rgba[4 * p], background[0], rgba[4 * p + 3])
    &&& out[4 * p + 1] == over_channel(rgba[4 * p + 1], background[1], rgba[4 * p + 3])
    &&& out[4 * p + 2] == over_channel(rgba[4 * p + 2], background[2], rgba[4 * p + 3])
    &&& out[4 * p + 3] == 255
}

/// Whether `out` is `rgba` composited onto `background`: one opaque
/// pixel per whole RGBA pixel of `rgba` (a trailing partial pixel is
/// dropped).
pub open spec fn is_flattened(rgba: Seq<u8>, background: [u8; 3], out: Seq<u8>) -> bool {
    &&& out.len() == (rgba.len() / 4) * 4
    &&& forall|p: int| 0 <= p < rgba.len() / 4 ==> #[trigger] pixel_flattened(rgba, background, out, p)
}

/// `(n + 127) / 255` rounds `n / 255` to the nearest integer, halves up.
proof fn lemma_round_div_255(n: int)
    requires
        0 <= n,
    ensures
        (n + 127) / 255 == (2 * n + 255) / 510,
{
    let q: int = n / 255;
    let r: int = n % 255;
    assert(n == 255 * q + r && 0 <= r < 255) by (nonlinear_arith)
        requires
            q == n / 255,
            r == n % 255,
    ;
    assert((n + 127) / 255 == q + (r + 127) / 255) by (nonlinear_arith)
        requires
            n == 255 * q + r,
            0 <= r < 255,
    ;
    assert((2 * n + 255) / 510 == q + (2 * r + 255) / 510) by (nonlinear_arith)
        requires
            n == 255 * q + r,
            0 <= r < 255,
    ;
}

/// One channel of `fg` over `bg` at straight alpha `alpha`.
fn blend(fg: u8, bg: u8, alpha: u8) -> (r: u8)
    ensures
        r == over_channel(fg, bg, alpha),
{
    let a: u32 = alpha as u32;
    proof {
        assert(fg as u32 * a <= 255 * 255) by (nonlinear_arith)
            requires
                fg <= 255,
                a <= 255,
        ;
        assert(bg as u32 * (255 - a) <= 255 * 255) by (nonlinear_arith)
            requires
                bg <= 255,
                a <= 255,
        ;
    }
    let n: u32 = fg as u32 * a + bg as u32 * (255 - a);
    proof {
        assert(fg as u32 * a <= 255 * a) by (nonlinear_arith)
            requires
                fg <= 255,
        ;
        assert(bg as u32 * (255 - a) <= 255 * (255 - a)) by (nonlinear_arith)
            requires
                bg <= 255,
                a <= 255,
        ;
        assert(n <= 65025);
        assert(n as int == fg * alpha + bg * (255 - alpha));
        lemma_round_div_255(n as int);
    }
    ((n + 127) / 255) as u8
}

/// Composites `rgba` onto a solid `background` colour, producing a fully
/// opaque buffer of the same dimensions (alpha 255 everywhere), with
/// non-premultiplied "alpha over" math, matching how the canvas stores
/// colour (straight alpha).
pub fn flatten_onto(rgba: &[u8], background: [u8; 3]) -> (out: Vec<u8>)
    ensures
        is_flattened(rgba@, background, out@),
{
    let mut out: Vec<u8> = Vec::with_capacity(rgba.len());
    let mut p: usize = 0;
    let mut base: usize = 0;
    while rgba.len() - base >= 4
        invariant
            base == 4 * p,
            base <= rgba@.len(),
            out@.len() == base,
            forall|q: int| 0 <= q < p ==> #[trigger] pixel_flattened(rgba@, background, out@, q),
        decreases rgba@.len() - base,
    {
        let ghost before = out@;
        let alpha: u8 = rgba[base + 3];
        let r: u8 = blend(rgba[base], background[0], alpha);
        let g: u8 = blend(rgba[base + 1], background[1], alpha);
        let b: u8 = blend(rgba[base + 2], background[2], alpha);
        out.push(r);
        out.push(g);
        out.push(b);
        out.push(255);
        assert forall|q: int| 0 <= q < p + 1 implies #[trigger] pixel_flattened(rgba@, background, out@, q) by {
            if q < p {
                assert(pixel_flattened(rgba@, background, before, q));
            }
        }
        p = p + 1;
        base = base + 4;
    }
    assert(p == rgba@.len() / 4);
    out
}

/// The bytes of the PNG file that the `png` crate writes for an 8-bit
/// RGBA image of `width` x `height` pixels whose tightly packed, row-major
/// pixel data is `rgba`, with the encoder's default settings.
pub uninterp spec fn png_rgba8_file(width: u32, height: u32, rgba: Seq<u8>) -> Seq<u8>;

/// The stage at which the `png` encoder refused an image, with its
/// message.
pub enum PngFailure {
    /// Writing the signature and header failed.
    Header(String),
    /// Writing the image data failed.
    Data(String),
}

/// The outcome of encoding a PNG file.
pub type PngResult = Result<Vec<u8>, PngFailure>;

/// Encodes with the `png` crate: `Encoder::new` over a byte vector,
/// colour type RGBA at bit depth 8, then `Encoder::write_header` and
/// `Writer::write_image_data`; dropping the writer ends the stream.
/// Assumed of it, from the crate's source: the header is refused with the
/// message "Zero width not allowed" when `width` is 0 and "Zero height
/// not allowed" when only `height` is 0; otherwise, for data of exactly
/// `width * height * 4` bytes written into memory, encoding succeeds and
/// yields the file `png_rgba8_file(width, height, rgba)`.
#[verifier::external_body]
fn write_rgba8_png(width: u32, height: u32, rgba: &[u8]) -> (r: PngResult)
    requires
        rgba@.len() == width as int * height as int * 4,
    ensures
        width == 0 ==> r is Err && r->Err_0 is Header && r->Err_0->Header_0@ == "Zero width not allowed"@,
        width != 0 && height == 0 ==> r is Err && r->Err_0 is Header && r->Err_0->Header_0@ == "Zero height not allowed"@,
        width != 0 && height != 0 ==> r is Ok && r->Ok_0@ == png_rgba8_file(width, height, rgba@),
{
    let mut bytes = Vec::new();
    {
        let mut encoder = png::Encoder::new(&mut bytes, width, height);
        encoder.set_color(png::ColorType::Rgba);
        encoder.set_depth(png::BitDepth::Eight);
        let mut writer = match encoder.write_header() {
            Ok(writer) => writer,
            Err(e) => return Err(PngFailure::Header(e.to_string())),
        };
        if let Err(e) = writer.write_image_data(rgba) {
            return Err(PngFailure::Data(e.to_string()));
        }
    }
    Ok(bytes)
}

/// The message of a pixel buffer whose length does not fit its size.
pub open spec fn size_mismatch_message(expected: nat, width: nat, height: nat, got: nat) -> Seq<char> {
    "encode_png: expected "@ + decimal(expected) + " bytes for a "@ + decimal(width) + "x"@ + decimal(
        height,
    ) + " RGBA8 image, got "@ + decimal(got)
}

/// The message of a refused PNG header.
pub open spec fn header_failure_message(cause: Seq<char>) -> Seq<char> {
    "PNG header write failed: "@ + cause
}

/// Builds the message of a pixel buffer whose length does not fit its
/// size.
fn size_mismatch(expected: usize, width: u32, height: u32, got: usize) -> (m: String)
    ensures
        m@ == size_mismatch_message(expected as nat, width as nat, height as nat, got as nat),
{
    let mut m = String::from_str("encode_png: expected ");
    push_decimal(&mut m, expected as u64);
    m.append(" bytes for a ");
    push_decimal(&mut m, width as u64);
    m.append("x");
    push_decimal(&mut m, height as u64);
    m.append(" RGBA8 image, got ");
    push_decimal(&mut m, got as u64);
    m
}

/// Encodes `rgba` (tightly packed, 4 bytes per pixel, row-major,
/// `width * height * 4` bytes in all) as a PNG with a full alpha channel.
/// A buffer of any other length is refused before anything is encoded.
pub fn encode_png(width: u32, height: u32, rgba: &[u8]) -> (r: Result<Vec<u8>, String>)
    requires
        width * height * 4 <= usize::MAX,
    ensures
        rgba@.len() != width * height * 4 ==> r is Err && r->Err_0@ == size_mismatch_message(
            (width * height * 4) as nat,
            width as nat,
            height as nat,
            rgba@.len(),
        ),
        rgba@.len() == width * height * 4 && width == 0 ==> r is Err && r->Err_0@
            == header_failure_message("Zero width not allowed"@),
        rgba@.len() == width * height * 4 && width != 0 && height == 0 ==> r is Err && r->Err_0@
            == header_failure_message("Zero height not allowed"@),
        rgba@.len() == width * height * 4 && width != 0 && height != 0 ==> r is Ok && r->Ok_0@
            == png_rgba8_file(width, height, rgba@),
{
    proof {
        assert(width as int * height as int >= 0) by (nonlinear_arith)
            requires
                width >= 0,
                height >= 0,
        ;
    }
    let expected_len: usize = (width as usize) * (height as usize) * 4;
    if rgba.len() != expected_len {
        return Err(size_mismatch(expected_len, width, height, rgba.len()));
    }
    match write_rgba8_png(width, height, rgba) {
        Ok(bytes) => Ok(bytes),
        Err(PngFailure::Header(cause)) => {
            let mut m = String::from_str("PNG header write failed: ");
            m.append(cause.as_str());
            Err(m)
        },
        Err(PngFailure::Data(cause)) => {
            let mut m = String::from_str("PNG data write failed: ");
            m.append(cause.as_str());
            Err(m)
        },
    }
}

} // verus!
