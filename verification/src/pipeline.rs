use vstd::prelude::*;

use crate::errors::{ImageProcessorError, ImageProcessorRuntimeError,
    ImageProcessorValidationError};
use crate::raster::{decodable, decode_image, decoded_color, decoded_height, decoded_width,
    default_encoding, select_encoding, write_to_buffer, ColorModel, Encoding, ImageBuffer};
use crate::transform::compress;
use crate::validate::{check_quality, quality_in_range};

verus! {

/// Whether an optional quality request passes validation: absent, or in range.
pub open spec fn quality_requested_ok(q: Option<u8>) -> bool {
    q matches Some(v) ==> quality_in_range(v)
}

/// The quality percentage a request stands for: an absent quality means no
/// compression, that is 100.
pub open spec fn effective_quality(q: Option<u8>) -> int {
    match q {
        Some(v) => v as int,
        None => 100,
    }
}

/// A dimension after compression by quality `q`: unchanged at 100, scaled by
/// `q / 100` with floor division below it.
pub open spec fn scaled_dim(dim: int, q: int) -> int {
    if q == 100 {
        dim
    } else {
        dim * q / 100
    }
}

/// The acquirer's reading of an HTTP response: only a success status carries
/// a usable body; any other status means the source was not really reached.
pub fn body_if_success(status_success: bool, body: Vec<u8>) -> (r: Option<Vec<u8>>)
    ensures
        status_success ==> r == Some(body),
        !status_success ==> r is None,
{
    if status_success {
        Some(body)
    } else {
        None
    }
}

/// The remote half of the acquirer, after the transport has run: `fetched` is
/// the fully buffered response body, or `None` where the transport failed or
/// the response was not a success. A transport failure is `SourceUnreachable`
/// and never `DecodeFailure`; a body that is not a decodable image is
/// `DecodeFailure` and never `SourceUnreachable`; a decodable body of nonzero
/// dimensions is owed a buffer holding exactly the decoded image.
pub fn acquire_remote(fetched: Option<Vec<u8>>) -> (r: Result<
    ImageBuffer,
    ImageProcessorRuntimeError,
>)
    ensures
        fetched is None <==> r == Err::<ImageBuffer, ImageProcessorRuntimeError>(
            ImageProcessorRuntimeError::SourceUnreachable,
        ),
        fetched matches Some(b) ==> (!decodable(b@) ==> r == Err::<
            ImageBuffer,
            ImageProcessorRuntimeError,
        >(ImageProcessorRuntimeError::DecodeFailure)),
        fetched is Some ==> (r matches Err(e) ==> e
            == ImageProcessorRuntimeError::DecodeFailure),
        fetched matches Some(b) ==> (decodable(b@) && decoded_width(b@) > 0 && decoded_height(b@)
            > 0 ==> r is Ok),
        fetched matches Some(b) ==> (r matches Ok(img) ==> img.width == decoded_width(b@)
            && img.height == decoded_height(b@) && img.color == decoded_color(b@)),
        r matches Ok(img) ==> img.wf() && fetched is Some,
{
    match fetched {
        None => Err(ImageProcessorRuntimeError::SourceUnreachable),
        Some(bytes) => decode_image(&bytes),
    }
}

/// The result of a full pipeline run: the encoded bytes, the encoding they
/// are in, and the dimensions of the image they hold.
pub struct EncodedOutput {
    pub bytes: Vec<u8>,
    pub encoding: Encoding,
    pub width: u32,
    pub height: u32,
}

/// What a pipeline run owes once the decoded image of color model `c` has
/// been scaled to `(w, h)`: an output of exactly those dimensions in the
/// model's default encoding — or the encoder's own refusal, the one failure
/// no contract on the opaque pixel store can rule out.
pub open spec fn encoded_or_write_failure(
    r: Result<EncodedOutput, ImageProcessorError>,
    w: int,
    h: int,
    c: ColorModel,
) -> bool {
    ||| (r matches Ok(out) && out.width == w && out.height == h && out.encoding
        == default_encoding(c))
    ||| r == Err::<EncodedOutput, ImageProcessorError>(
        ImageProcessorError::Runtime(ImageProcessorRuntimeError::WriteFailure),
    )
}

/// One full run of the pipeline on a fetched remote body: validate the
/// quality, acquire the decoded image, compress it, choose the default
/// encoding for its color model, and encode it into an in-memory buffer.
/// Validation happens first: an out-of-range quality is rejected before any
/// decode or transform work, whatever the fetch brought. A decodable body of
/// nonzero dimensions whose scaled floors stay positive is owed the encoded
/// output, short of the encoder's own refusal.
pub fn process_fetched(fetched: Option<Vec<u8>>, quality: Option<u8>) -> (r: Result<
    EncodedOutput,
    ImageProcessorError,
>)
    ensures
        quality matches Some(v) ==> (!quality_in_range(v) ==> r == Err::<
            EncodedOutput,
            ImageProcessorError,
        >(ImageProcessorError::Validation(ImageProcessorValidationError::InvalidQuality))),
        r matches Err(e) ==> (e matches ImageProcessorError::Validation(v) ==> v
            == ImageProcessorValidationError::InvalidQuality && !quality_requested_ok(quality)),
        quality_requested_ok(quality) && fetched is None ==> r == Err::<
            EncodedOutput,
            ImageProcessorError,
        >(ImageProcessorError::Runtime(ImageProcessorRuntimeError::SourceUnreachable)),
        fetched matches Some(b) ==> (quality_requested_ok(quality) && !decodable(b@) ==> r
            == Err::<EncodedOutput, ImageProcessorError>(
            ImageProcessorError::Runtime(ImageProcessorRuntimeError::DecodeFailure),
        )),
        fetched matches Some(b) ==> (quality_requested_ok(quality) && decodable(b@)
            && decoded_width(b@) > 0 && decoded_height(b@) > 0 ==> ({
            let w = scaled_dim(decoded_width(b@) as int, effective_quality(quality));
            let h = scaled_dim(decoded_height(b@) as int, effective_quality(quality));
            &&& w > 0 && h > 0 ==> encoded_or_write_failure(r, w, h, decoded_color(b@))
            &&& (w == 0 || h == 0) ==> r == Err::<EncodedOutput, ImageProcessorError>(
                ImageProcessorError::Runtime(ImageProcessorRuntimeError::InvalidDimensions),
            )
        })),
        r matches Ok(out) ==> fetched is Some && quality_requested_ok(quality) && out.width > 0
            && out.height > 0,
{
    let level = match check_quality(quality) {
        Ok(level) => level,
        Err(e) => {
            return Err(ImageProcessorError::Validation(e));
        },
    };
    let img = match acquire_remote(fetched) {
        Ok(img) => img,
        Err(e) => {
            return Err(ImageProcessorError::Runtime(e));
        },
    };
    let compressed = match compress(img, level.value) {
        Ok(out) => out,
        Err(e) => {
            return Err(e);
        },
    };
    let encoding = select_encoding(compressed.color, None);
    match write_to_buffer(&compressed, encoding) {
        Ok(bytes) => Ok(
            EncodedOutput {
                bytes,
                encoding,
                width: compressed.width,
                height: compressed.height,
            },
        ),
        Err(e) => Err(ImageProcessorError::Runtime(e)),
    }
}

} // verus!
