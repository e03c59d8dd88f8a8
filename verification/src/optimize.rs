//! The image optimizer: decode, conditionally shrink to the configured
//! maximum dimension, and re-encode — losslessly as PNG when the image
//! carries transparency, as JPEG at the configured quality when it is
//! opaque.  That trade-off is the subsystem's single quality/size
//! policy and is not configurable beyond quality and dimension.
//!
//! Decoding, resampling, and encoding are done by the zune-image and
//! rimage crates behind trusted wrappers; the arithmetic and every
//! decision between them are verified.  Decoding is deterministic in
//! the bytes, so its outcome carries a name that the optimizer's own
//! contract is stated over: which inputs decode, what was decoded, and
//! hence which encoding the result must carry.

use vstd::prelude::*;

use zune_core::bytestream::ZCursor;
use zune_core::options::DecoderOptions;
use zune_image::image::Image;

use crate::config::ImageConfig;
use crate::image::{EmbeddedImage, ImageError};

verus! {

#[verifier::external_type_specification]
#[verifier::external_body]
pub struct ExZuneImage(Image);

/// The name of what decoding a byte sequence yields: `None` when the
/// bytes decode as no supported image, else the decoded width and
/// height in pixels and whether the decoded colorspace carries an
/// alpha channel (RGBA, BGRA, ARGB, LumaA).  Decoding is a function of
/// the bytes alone.
pub uninterp spec fn decoded_image_of(d: Seq<u8>) -> Option<(int, int, bool)>;

/// Relies on zune-image's `Image::read`, `Image::dimensions`, and
/// `Image::colorspace` with zune-core's `ColorSpace::has_alpha`:
/// decodes any supported format from memory and reads the decoded
/// metadata, all deterministic in the bytes.
#[verifier::external_body]
fn decode_image(data: &[u8]) -> (r: Result<(Image, usize, usize, bool), String>)
    ensures
        (r is Ok) == (decoded_image_of(data@) is Some),
        r matches Ok(t) ==> decoded_image_of(data@) == Some((t.1 as int, t.2 as int, t.3)),
{
    match Image::read(ZCursor::new(data), DecoderOptions::default()) {
        Ok(img) => {
            let (w, h) = img.dimensions();
            let alpha = img.colorspace().has_alpha();
            Ok((img, w, h, alpha))
        }
        Err(e) => Err(format!("{:?}", e)),
    }
}

/// Relies on rimage's `Resize` operation over fast_image_resize with a
/// Lanczos3 filter.  Its buffer arithmetic multiplies width, height,
/// and a per-pixel size of at most 4, and it truncates the target
/// dimensions to `u32`, so callers keep both sides within `u32` and
/// the product within `usize`.
#[verifier::external_body]
fn resize_image(img: &mut Image, w: usize, h: usize) -> (r: Result<(), String>)
    requires
        w <= u32::MAX,
        h <= u32::MAX,
        w * h * 4 <= usize::MAX,
{
    let op = rimage::operations::resize::Resize::new(
        w,
        h,
        rimage::operations::resize::ResizeAlg::Convolution(
            rimage::operations::resize::FilterType::Lanczos3,
        ),
    );
    zune_image::traits::OperationsTrait::execute_impl(&op, img).map_err(|e| format!("{:?}", e))
}

/// Relies on rimage's `OxiPngEncoder`: encodes the image losslessly as
/// PNG into a byte vector.
#[verifier::external_body]
fn encode_png(img: &Image) -> (r: Result<Vec<u8>, String>)
{
    let mut encoder = rimage::codecs::oxipng::OxiPngEncoder::new();
    let mut sink: Vec<u8> = Vec::new();
    match zune_image::traits::EncoderTrait::encode(&mut encoder, img, &mut sink) {
        Ok(_) => Ok(sink),
        Err(e) => Err(format!("{:?}", e)),
    }
}

/// Relies on rimage's `MozJpegEncoder`: encodes the image as JPEG at
/// the given quality, where 1 is smallest and 100 highest fidelity.
#[verifier::external_body]
fn encode_jpeg(img: &Image, quality: u8) -> (r: Result<Vec<u8>, String>)
    requires
        1 <= quality <= 100,
{
    let options = rimage::codecs::mozjpeg::MozJpegOptions {
        quality: quality.into(),
        ..Default::default()
    };
    let mut encoder = rimage::codecs::mozjpeg::MozJpegEncoder::new_with_options(options);
    let mut sink: Vec<u8> = Vec::new();
    match zune_image::traits::EncoderTrait::encode(&mut encoder, img, &mut sink) {
        Ok(_) => Ok(sink),
        Err(e) => Err(format!("{:?}", e)),
    }
}

/// The target of a proportional shrink: both dimensions scaled by
/// `max_dim` over the longer side, rounding down.
pub open spec fn resize_target(w: int, h: int, max_dim: int) -> (int, int) {
    let m = if w >= h {
        w
    } else {
        h
    };
    (w * max_dim / m, h * max_dim / m)
}

/// Whether a side of an image exceeds the configured cap, so that the
/// optimizer must shrink it.
pub open spec fn needs_resize(w: int, h: int, max_dim: int) -> bool {
    w > max_dim || h > max_dim
}

/// Computes the dimensions an oversized image is shrunk to: the longer
/// side becomes exactly `max_dim`, the other is scaled by the same
/// factor, and the aspect ratio is preserved within rounding.
pub fn resize_dimensions(w: usize, h: usize, max_dim: u32) -> (r: (usize, usize))
    requires
        w > max_dim || h > max_dim,
    ensures
        r.0 == resize_target(w as int, h as int, max_dim as int).0,
        r.1 == resize_target(w as int, h as int, max_dim as int).1,
        r.0 <= max_dim,
        r.1 <= max_dim,
        w >= h ==> r.0 == max_dim,
        h >= w ==> r.1 == max_dim,
{
    let m = if w >= h {
        w
    } else {
        h
    };
    proof {
        assert(m > max_dim);
        assert((w as int) * (max_dim as int) <= u128::MAX && (h as int) * (max_dim as int)
            <= u128::MAX) by (nonlinear_arith)
            requires
                w as int <= 0xffff_ffff_ffff_ffff,
                h as int <= 0xffff_ffff_ffff_ffff,
                max_dim as int <= 0xffff_ffff,
        ;
    }
    let nw128: u128 = (w as u128) * (max_dim as u128) / (m as u128);
    let nh128: u128 = (h as u128) * (max_dim as u128) / (m as u128);
    proof {
        let wi = w as int;
        let hi = h as int;
        let mi = m as int;
        let di = max_dim as int;
        assert(wi * di / mi <= di && hi * di / mi <= di) by (nonlinear_arith)
            requires
                0 < mi,
                wi <= mi,
                hi <= mi,
                0 <= di,
        ;
        assert(mi * di / mi == di) by (nonlinear_arith)
            requires
                0 < mi,
                0 <= di,
        ;
        assert(u32::MAX <= usize::MAX);
    }
    let nw = nw128 as usize;
    let nh = nh128 as usize;
    (nw, nh)
}

/// A prefix and a reason joined into one message; the prefix stays a
/// leading substring.
fn failure_message(prefix: &str, reason: String) -> (r: String)
    ensures
        r@ == prefix@ + reason@,
        prefix@.is_prefix_of(r@),
{
    let mut out = String::from_str(prefix);
    out.append(reason.as_str());
    proof {
        assert((prefix@ + reason@).subrange(0, prefix@.len() as int) =~= prefix@);
    }
    out
}

/// Encodes a decoded image by the transparency rule: PNG exactly when
/// it has an alpha channel, JPEG at the given quality when it does
/// not; a failure of the chosen encoder is reported as an
/// `InvalidImage` naming that encoder.
pub fn encode_for_transparency(
    img: &Image,
    has_alpha: bool,
    quality: u8,
) -> (r: Result<EmbeddedImage, ImageError>)
    requires
        1 <= quality <= 100,
    ensures
        match r {
            Ok(out) => out.mime_type@ == if has_alpha {
                "image/png"@
            } else {
                "image/jpeg"@
            },
            Err(e) => match e {
                ImageError::InvalidImage(m) => if has_alpha {
                    "Failed to encode PNG: "@.is_prefix_of(m@)
                } else {
                    "Failed to encode JPEG: "@.is_prefix_of(m@)
                },
                _ => false,
            },
        },
{
    if has_alpha {
        match encode_png(img) {
            Ok(data) => Ok(EmbeddedImage { data, mime_type: String::from_str("image/png") }),
            Err(reason) => Err(
                ImageError::InvalidImage(failure_message("Failed to encode PNG: ", reason)),
            ),
        }
    } else {
        match encode_jpeg(img, quality) {
            Ok(data) => Ok(EmbeddedImage { data, mime_type: String::from_str("image/jpeg") }),
            Err(reason) => Err(
                ImageError::InvalidImage(failure_message("Failed to encode JPEG: ", reason)),
            ),
        }
    }
}

/// What an optimizer outcome must look like for given input bytes.
/// Bytes that decode as no image are reported as a decode failure, and
/// only those are.  Bytes that decode either come back re-encoded by
/// the transparency rule — PNG exactly when the decoded image carries
/// an alpha channel, JPEG otherwise — or fail in the resampling step,
/// which is possible only when a decoded side exceeds the cap, or in
/// the encoder that the same transparency rule chose.
pub open spec fn optimize_ok(
    r: Result<EmbeddedImage, ImageError>,
    d: Seq<u8>,
    c: ImageConfig,
) -> bool {
    match decoded_image_of(d) {
        None => match r {
            Err(ImageError::InvalidImage(m)) => "Failed to decode image: "@.is_prefix_of(m@),
            _ => false,
        },
        Some(meta) => match r {
            Ok(img) => img.mime_type@ == (if meta.2 {
                "image/png"@
            } else {
                "image/jpeg"@
            }),
            Err(e) => match e {
                ImageError::InvalidImage(m) => {
                    ||| (needs_resize(meta.0, meta.1, c.max_dimension as int)
                        && "Failed to resize image: "@.is_prefix_of(m@))
                    ||| (meta.2 && "Failed to encode PNG: "@.is_prefix_of(m@))
                    ||| (!meta.2 && "Failed to encode JPEG: "@.is_prefix_of(m@))
                },
                _ => false,
            },
        },
    }
}

/// Optimizes image bytes: decodes them, shrinks them proportionally
/// when a side exceeds `max_dimension`, and re-encodes as PNG for
/// transparency or JPEG for opaque content.  The contract ties the
/// outcome to the bytes: exactly the undecodable inputs fail as decode
/// errors, and a success carries the encoding that the decoded alpha
/// channel dictates.
pub fn optimize_image(data: &[u8], c: &ImageConfig) -> (r: Result<EmbeddedImage, ImageError>)
    requires
        1 <= c.quality <= 100,
    ensures
        optimize_ok(r, data@, *c),
{
    let (mut img, w, h, has_alpha) = match decode_image(data) {
        Ok(t) => t,
        Err(reason) => {
            return Err(
                ImageError::InvalidImage(failure_message("Failed to decode image: ", reason)),
            );
        },
    };
    proof {
        assert(u32::MAX <= usize::MAX);
    }
    let md = c.max_dimension as usize;
    if w > md || h > md {
        let (nw, nh) = resize_dimensions(w, h, c.max_dimension);
        proof {
            assert((nw as int) * (nh as int) * 4 <= u128::MAX) by (nonlinear_arith)
                requires
                    0 <= nw as int <= 0xffff_ffff,
                    0 <= nh as int <= 0xffff_ffff,
            ;
        }
        let needed: u128 = (nw as u128) * (nh as u128) * 4;
        if needed > usize::MAX as u128 {
            return Err(
                ImageError::InvalidImage(
                    failure_message(
                        "Failed to resize image: ",
                        String::from_str("target dimensions exceed the address space"),
                    ),
                ),
            );
        }
        match resize_image(&mut img, nw, nh) {
            Ok(()) => {},
            Err(reason) => {
                return Err(
                    ImageError::InvalidImage(failure_message("Failed to resize image: ", reason)),
                );
            },
        }
    }
    encode_for_transparency(&img, has_alpha, c.quality)
}

} // verus!
