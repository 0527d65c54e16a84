use vstd::prelude::*;
use vstd::arithmetic::div_mod::{lemma_div_is_ordered, lemma_div_multiples_vanish,
    lemma_fundamental_div_mod, lemma_mod_bound};
use vstd::arithmetic::mul::lemma_mul_inequality;

use crate::errors::{ImageProcessorError, ImageProcessorRuntimeError,
    ImageProcessorValidationError};
use crate::raster::{ImageBuffer, resample};
use crate::validate::QualityLevel;

verus! {

/// A resize request before dimension inference: an absent dimension is filled
/// in from the other and the original aspect ratio; when both are present the
/// aspect ratio is deliberately discarded.
#[derive(Clone, Copy, Debug)]
pub struct ResizeTarget {
    pub width: Option<u32>,
    pub height: Option<u32>,
}

impl ResizeTarget {
    /// Whether the request names at least one explicit dimension.
    pub open spec fn is_explicit(self) -> bool {
        self.width is Some || self.height is Some
    }
}

/// What resampling a source image to the dimensions `(w, h)` must produce:
/// a buffer of exactly those dimensions in the source's color model, or the
/// `InvalidDimensions` failure where the request degenerated to zero pixels.
pub open spec fn resize_outcome(
    r: Result<ImageBuffer, ImageProcessorError>,
    src: ImageBuffer,
    w: int,
    h: int,
) -> bool {
    &&& w > 0 && h > 0 ==> (r matches Ok(out) && out.width == w && out.height == h && out.color
        == src.color && out.wf())
    &&& (w == 0 || h == 0) ==> r == Err::<ImageBuffer, ImageProcessorError>(
        ImageProcessorError::Runtime(ImageProcessorRuntimeError::InvalidDimensions),
    )
}

/// Fill in the missing dimension of a resize request: an absent height is
/// `floor(original_h * w / original_w)`, an absent width symmetrically; two
/// present dimensions are used exactly as given.
pub fn resolve_target(original_w: u32, original_h: u32, target: ResizeTarget) -> (r: (u32, u32))
    requires
        original_w > 0,
        original_h > 0,
        target.is_explicit(),
        target.width matches Some(tw) ==> (target.height is None ==> original_h as int * tw as int
            / (original_w as int) <= u32::MAX),
        target.height matches Some(th) ==> (target.width is None ==> original_w as int * th as int
            / (original_h as int) <= u32::MAX),
    ensures
        target.width matches Some(tw) ==> r.0 == tw,
        target.height matches Some(th) ==> r.1 == th,
        target.width matches Some(tw) ==> (target.height is None ==> r.1 == original_h as int * tw as int
            / (original_w as int)),
        target.height matches Some(th) ==> (target.width is None ==> r.0 == original_w as int * th as int
            / (original_h as int)),
{
    match (target.width, target.height) {
        (Some(w), Some(h)) => (w, h),
        (Some(w), None) => {
            proof {
                lemma_mul_inequality(original_h as int, u32::MAX as int, w as int);
            }
            let h64: u64 = (original_h as u64) * (w as u64) / (original_w as u64);
            (w, h64 as u32)
        },
        (None, Some(h)) => {
            proof {
                lemma_mul_inequality(original_w as int, u32::MAX as int, h as int);
            }
            let w64: u64 = (original_w as u64) * (h as u64) / (original_h as u64);
            (w64 as u32, h)
        },
        (None, None) => (original_w, original_h),
    }
}

/// Compress an image by a quality percentage, preserving the aspect ratio:
/// quality 100 returns the input unchanged, pixel for pixel; a quality in
/// [1, 99] scales both dimensions by `quality / 100` with floor division and
/// resamples; a quality outside [1, 100] never reaches the pixel work and
/// fails fast as `InvalidQuality`.
pub fn compress(img: ImageBuffer, quality: u8) -> (r: Result<ImageBuffer, ImageProcessorError>)
    ensures
        quality == 100 ==> r == Ok::<ImageBuffer, ImageProcessorError>(img),
        1 <= quality < 100 ==> resize_outcome(
            r,
            img,
            img.width as int * quality as int / 100,
            img.height as int * quality as int / 100,
        ),
        quality == 0 || quality > 100 ==> r == Err::<ImageBuffer, ImageProcessorError>(
            ImageProcessorError::Validation(ImageProcessorValidationError::InvalidQuality),
        ),
{
    if quality == 0 || quality > 100 {
        return Err(ImageProcessorError::Validation(ImageProcessorValidationError::InvalidQuality));
    }
    if quality == 100 {
        return Ok(img);
    }
    proof {
        lemma_mul_inequality(quality as int, 100, img.width as int);
        lemma_div_is_ordered(img.width as int * quality as int, img.width as int * 100, 100);
        lemma_div_multiples_vanish(img.width as int, 100);
        lemma_mul_inequality(quality as int, 100, img.height as int);
        lemma_div_is_ordered(img.height as int * quality as int, img.height as int * 100, 100);
        lemma_div_multiples_vanish(img.height as int, 100);
    }
    let tw: u64 = (img.width as u64) * (quality as u64) / 100;
    let th: u64 = (img.height as u64) * (quality as u64) / 100;
    match resample(&img, tw as u32, th as u32) {
        Ok(out) => Ok(out),
        Err(e) => Err(ImageProcessorError::Runtime(e)),
    }
}

/// Apply a resize request or a quality compression to an image: with no
/// explicit dimension the quality path is taken; otherwise the request is
/// resolved against the original dimensions and the image resampled, the
/// aspect ratio discarded where both dimensions were given.
pub fn transform(img: ImageBuffer, target: ResizeTarget, quality: QualityLevel) -> (r: Result<
    ImageBuffer,
    ImageProcessorError,
>)
    requires
        img.wf(),
        quality.wf(),
        target.width matches Some(tw) ==> (target.height is None ==> img.height as int * tw as int
            / (img.width as int) <= u32::MAX),
        target.height matches Some(th) ==> (target.width is None ==> img.width as int * th as int
            / (img.height as int) <= u32::MAX),
    ensures
        !target.is_explicit() && quality.value == 100 ==> r == Ok::<
            ImageBuffer,
            ImageProcessorError,
        >(img),
        !target.is_explicit() && quality.value < 100 ==> resize_outcome(
            r,
            img,
            img.width as int * quality.value as int / 100,
            img.height as int * quality.value as int / 100,
        ),
        target.width matches Some(tw) ==> (target.height matches Some(th) ==> resize_outcome(
            r,
            img,
            tw as int,
            th as int,
        )),
        target.width matches Some(tw) ==> (target.height is None ==> resize_outcome(
            r,
            img,
            tw as int,
            img.height as int * tw as int / (img.width as int),
        )),
        target.height matches Some(th) ==> (target.width is None ==> resize_outcome(
            r,
            img,
            img.width as int * th as int / (img.height as int),
            th as int,
        )),
{
    if target.width.is_none() && target.height.is_none() {
        return compress(img, quality.value);
    }
    let (tw, th) = resolve_target(img.width, img.height, target);
    match resample(&img, tw, th) {
        Ok(out) => Ok(out),
        Err(e) => Err(ImageProcessorError::Runtime(e)),
    }
}

/// Law: quality compression preserves the aspect ratio within rounding error.
/// Scaling both dimensions by `q / 100` with floor division keeps the cross
/// products of the new and the original dimensions within one original
/// dimension of each other: `-oh < (ow*q/100)*oh - (oh*q/100)*ow < ow`.
pub proof fn lemma_compression_keeps_ratio(ow: int, oh: int, q: int)
    requires
        0 < ow,
        0 < oh,
        1 <= q <= 99,
    ensures
        -oh < (ow * q / 100) * oh - (oh * q / 100) * ow,
        (ow * q / 100) * oh - (oh * q / 100) * ow < ow,
{
    let w = ow * q / 100;
    let h = oh * q / 100;
    lemma_fundamental_div_mod(ow * q, 100);
    lemma_fundamental_div_mod(oh * q, 100);
    lemma_mod_bound(ow * q, 100);
    lemma_mod_bound(oh * q, 100);
    assert((-oh < w * oh - h * ow) && (w * oh - h * ow < ow)) by (nonlinear_arith)
        requires
            100 * w <= ow * q,
            ow * q <= 100 * w + 99,
            100 * h <= oh * q,
            oh * q <= 100 * h + 99,
            0 < ow,
            0 < oh,
    {}
}

} // verus!
