//! Turns an encoded tile image into the packed four-bit-per-pixel stream.
use vstd::prelude::*;
use vstd::arithmetic::div_mod::lemma_fundamental_div_mod_converse;
use crate::palette::{Rgb, color_to_raw, raw_code};
use crate::perceptual::{PERCEPTUAL_TABLE_LEN, first_min, generic_map_color, perceptual_color};

verus! {

#[verifier::external_type_specification]
#[verifier::external_body]
pub struct ExImageError(image::ImageError);

/// The input bytes are not an image that could be decoded.
#[derive(Clone, Copy, Debug, PartialEq, Eq, Structural)]
pub struct DecodeError;

/// Whether the image crate decodes `data`, and the width and height it finds;
/// `None` where decoding fails.
pub uninterp spec fn decoded_size(data: Seq<u8>) -> Option<(u32, u32)>;

/// Relies on `image::load_from_memory`, which guesses the format from the
/// content and decodes it, and on `DynamicImage::to_rgb8` and
/// `ImageBuffer::into_raw`, which give three bytes per pixel in row-major order.
/// Success and the size follow from the bytes; the pixel values need not (a
/// JPEG decoder may round differently depending on the CPU), so of them only
/// their number is promised.
#[verifier::external_body]
fn decode_rgb(data: &[u8]) -> (r: Result<(u32, u32, Vec<u8>), image::ImageError>)
    ensures
        match r {
            Ok((w, h, px)) => decoded_size(data@) == Some((w, h)) && px@.len() == 3 * w * h,
            Err(_) => decoded_size(data@) is None,
        },
{
    let img = image::load_from_memory(data)?.to_rgb8();
    Ok((img.width(), img.height(), img.into_raw()))
}

/// Two codes per byte, the first in the high nibble; a trailing odd code is dropped.
pub open spec fn packed(codes: Seq<u8>) -> Seq<u8> {
    Seq::new(codes.len() / 2, |i: int| (codes[2 * i] * 16 + codes[2 * i + 1]) as u8)
}

/// Packs four-bit codes two to a byte, high nibble first. With an odd number of
/// codes the last one never completes a byte and is left out.
pub fn pack_codes(codes: &Vec<u8>) -> (out: Vec<u8>)
    requires
        forall|i: int| 0 <= i < codes.len() ==> codes@[i] < 16,
    ensures
        out@ == packed(codes@),
        out@.len() == codes@.len() / 2,
{
    let mut out: Vec<u8> = Vec::new();
    let mut pxl: u8 = 0;
    let mut high = true;
    for i in 0..codes.len()
        invariant
            high == (i % 2 == 0),
            !high ==> pxl == codes@[i - 1] * 16,
            out@.len() == i / 2,
            forall|k: int| 0 <= k < i / 2 ==> out@[k] == packed(codes@)[k],
            forall|k: int| 0 <= k < codes.len() ==> codes@[k] < 16,
    {
        let code = codes[i];
        if high {
            pxl = code * 16;
        } else {
            pxl = pxl + code;
            out.push(pxl);
        }
        high = !high;
    }
    assert(out@ =~= packed(codes@));
    out
}

/// The codes of a row-major raster `w` pixels wide, pixel `i` classified by the
/// perceptual strategy from its distance keys `keys[i]` at its own position.
pub open spec fn classified_codes(w: u32, keys: Seq<Seq<u32>>) -> Seq<u8> {
    Seq::new(
        keys.len(),
        |i: int|
            raw_code(
                perceptual_color(first_min(keys[i]), (i % (w as int)) as u32, (i / (w as int)) as u32),
            ),
    )
}

/// `out` is the packed stream of a `w` x `h` raster whose pixels were each
/// classified from some distance keys, one per perceptual row; which keys is
/// up to the L*a*b* conversion of the lab crate.
pub open spec fn is_perceptual_encoding(w: u32, h: u32, out: Seq<u8>) -> bool {
    exists|keys: Seq<Seq<u32>>|
        keys.len() == w * h && (forall|i: int|
            0 <= i < keys.len() ==> keys[i].len() == PERCEPTUAL_TABLE_LEN) && out == packed(
            classified_codes(w, keys),
        )
}

/// Classifies every pixel of a decoded raster (three bytes per pixel, row by
/// row) with the perceptual strategy and packs the codes. The distances behind
/// each classification come from the lab crate; `classify_by_distances` and
/// `pack_codes` fix the result for given distances and codes.
pub fn encode_raster(width: u32, height: u32, rgb: &Vec<u8>) -> (out: Vec<u8>)
    requires
        rgb@.len() == 3 * width * height,
    ensures
        is_perceptual_encoding(width, height, out@),
{
    let ghost n: int = width * height;
    let mut codes: Vec<u8> = Vec::new();
    let ghost mut keys: Seq<Seq<u32>> = Seq::empty();
    let mut k: usize = 0;
    assert(rgb@.len() == 3 * n) by (nonlinear_arith)
        requires
            rgb@.len() == 3 * width * height,
            n == width * height,
    ;
    assert(0 * width == 0);
    let len = rgb.len();
    for y in 0..height
        invariant
            k == y * width,
            rgb@.len() == 3 * n,
            len == rgb@.len(),
            n == width * height,
            codes@.len() == k,
            keys.len() == k,
            forall|j: int| 0 <= j < k ==> keys[j].len() == PERCEPTUAL_TABLE_LEN,
            forall|j: int| 0 <= j < k ==> codes@[j] == classified_codes(width, keys)[j],
    {
        for x in 0..width
            invariant
                y < height,
                k == y * width + x,
                rgb@.len() == 3 * n,
                len == rgb@.len(),
                n == width * height,
                codes@.len() == k,
                keys.len() == k,
                forall|j: int| 0 <= j < k ==> keys[j].len() == PERCEPTUAL_TABLE_LEN,
                forall|j: int| 0 <= j < k ==> codes@[j] == classified_codes(width, keys)[j],
        {
            assert(k < n) by (nonlinear_arith)
                requires
                    k == y * width + x,
                    x < width,
                    y < height,
                    n == width * height,
            ;
            let pixel = Rgb(rgb[3 * k], rgb[3 * k + 1], rgb[3 * k + 2]);
            proof {
                lemma_fundamental_div_mod_converse(k as int, width as int, y as int, x as int);
            }
            let c = generic_map_color(x, y, pixel);
            proof {
                let ks = choose|ks: Seq<u32>|
                    ks.len() == PERCEPTUAL_TABLE_LEN && c == perceptual_color(first_min(ks), x, y);
                keys = keys.push(ks);
            }
            let code = color_to_raw(c);
            codes.push(code);
            k = k + 1;
        }
        assert(k == (y + 1) * width) by (nonlinear_arith)
            requires
                k == y * width + width,
        ;
    }
    assert(k == n) by (nonlinear_arith)
        requires
            k == height * width,
            n == width * height,
    ;
    assert(codes@ =~= classified_codes(width, keys));
    let out = pack_codes(&codes);
    assert(keys.len() == width * height);
    out
}

/// Decodes an image (format guessed from its content) and encodes it as the
/// packed stream; `DecodeError` exactly when the bytes do not decode.
pub fn convert_image(image_data: &[u8]) -> (r: Result<Vec<u8>, DecodeError>)
    ensures
        match r {
            Ok(out) => decoded_size(image_data@) matches Some((w, h)) && is_perceptual_encoding(
                w,
                h,
                out@,
            ),
            Err(_) => decoded_size(image_data@) is None,
        },
{
    match decode_rgb(image_data) {
        Ok((width, height, rgb)) => Ok(encode_raster(width, height, &rgb)),
        Err(_) => Err(DecodeError),
    }
}

} // verus!
