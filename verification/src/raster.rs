use vstd::prelude::*;

use crate::errors::ImageProcessorRuntimeError;

verus! {

/// The codec library's decoded image type, declared so that it can stand in
/// signatures and fields; Verus sees nothing inside a value of it.
#[verifier::external_type_specification]
#[verifier::external_body]
pub struct ExDynamicImage(image::DynamicImage);

/// The pixel color model of a decoded image: integer-depth grayscale and
/// RGB(A) at 8 or 16 bits, or 32-bit floating-point RGB(A). `Other` stands
/// for any model the codec library may add later.
#[derive(Clone, Copy, Debug, PartialEq, Eq, Structural)]
pub enum ColorModel {
    L8,
    La8,
    Rgb8,
    Rgba8,
    L16,
    La16,
    Rgb16,
    Rgba16,
    Rgb32F,
    Rgba32F,
    Other,
}

impl ColorModel {
    /// Whether the model stores floating-point samples.
    pub open spec fn is_float(self) -> bool {
        self == ColorModel::Rgb32F || self == ColorModel::Rgba32F
    }
}

/// An output encoding the pipeline can emit: the lossless raster encoding for
/// integer-depth pixels, or the high-dynamic-range encoding for
/// floating-point pixels.
#[derive(Clone, Copy, Debug, PartialEq, Eq, Structural)]
pub enum Encoding {
    Png,
    OpenExr,
}

/// A decoded raster image: the opaque pixel store together with the plain
/// values the pipeline's logic reads from it — its dimensions and its color
/// model. Buffers are made with `from_pixels` or `decode_image`, which read
/// the plain fields off the store; every buffer the pipeline hands on has
/// nonzero dimensions.
pub struct ImageBuffer {
    pub pixels: image::DynamicImage,
    pub width: u32,
    pub height: u32,
    pub color: ColorModel,
}

impl ImageBuffer {
    pub open spec fn wf(self) -> bool {
        self.width > 0 && self.height > 0
    }
}

/// Whether a byte sequence decodes as an image in one of the supported
/// encodings. The exact set of such sequences is the codec library's; it
/// depends on the bytes alone.
pub uninterp spec fn decodable(bytes: Seq<u8>) -> bool;

/// The pixel width of the image a decodable byte sequence holds; a function
/// of the bytes alone.
pub uninterp spec fn decoded_width(bytes: Seq<u8>) -> u32;

/// The pixel height of the image a decodable byte sequence holds; a function
/// of the bytes alone.
pub uninterp spec fn decoded_height(bytes: Seq<u8>) -> u32;

/// The color model of the image a decodable byte sequence holds; a function
/// of the bytes alone.
pub uninterp spec fn decoded_color(bytes: Seq<u8>) -> ColorModel;

/// Relies on image::load_from_memory, which sniffs the encoding from the
/// content bytes and decodes them, and on DynamicImage::width, height and
/// color, read here so that the decoded store is tied to its dimensions and
/// color model while the bytes are still at hand: all four are functions of
/// the bytes alone.
#[verifier::external_body]
fn decode_from_memory(bytes: &Vec<u8>) -> (r: Result<(image::DynamicImage, u32, u32, ColorModel), ()>)
    ensures
        r is Ok <==> decodable(bytes@),
        r matches Ok(t) ==> t.1 == decoded_width(bytes@) && t.2 == decoded_height(bytes@) && t.3
            == decoded_color(bytes@),
{
    match image::load_from_memory(bytes.as_slice()) {
        Ok(img) => {
            let w = pixel_width(&img);
            let h = pixel_height(&img);
            let c = pixel_color(&img);
            Ok((img, w, h, c))
        },
        Err(_) => Err(()),
    }
}

/// Relies on image::DynamicImage::width: the pixel width of the decoded
/// image. Nothing is promised of the value.
#[verifier::external_body]
fn pixel_width(img: &image::DynamicImage) -> u32 {
    img.width()
}

/// Relies on image::DynamicImage::height: the pixel height of the decoded
/// image. Nothing is promised of the value.
#[verifier::external_body]
fn pixel_height(img: &image::DynamicImage) -> u32 {
    img.height()
}

/// Relies on image::DynamicImage::color: the color model of the stored
/// pixels, carried over variant by variant.
#[verifier::external_body]
fn pixel_color(img: &image::DynamicImage) -> ColorModel {
    match img.color() {
        image::ColorType::L8 => ColorModel::L8,
        image::ColorType::La8 => ColorModel::La8,
        image::ColorType::Rgb8 => ColorModel::Rgb8,
        image::ColorType::Rgba8 => ColorModel::Rgba8,
        image::ColorType::L16 => ColorModel::L16,
        image::ColorType::La16 => ColorModel::La16,
        image::ColorType::Rgb16 => ColorModel::Rgb16,
        image::ColorType::Rgba16 => ColorModel::Rgba16,
        image::ColorType::Rgb32F => ColorModel::Rgb32F,
        image::ColorType::Rgba32F => ColorModel::Rgba32F,
        _ => ColorModel::Other,
    }
}

impl ImageBuffer {
    /// Wrap an already decoded pixel store, reading its dimensions and color
    /// model; a store with a zero dimension is no usable image.
    pub fn from_pixels(img: image::DynamicImage) -> (r: Result<
        ImageBuffer,
        ImageProcessorRuntimeError,
    >)
        ensures
            r matches Ok(b) ==> b.wf(),
            r matches Err(e) ==> e == ImageProcessorRuntimeError::InvalidDimensions,
    {
        let width = pixel_width(&img);
        let height = pixel_height(&img);
        if width == 0 || height == 0 {
            return Err(ImageProcessorRuntimeError::InvalidDimensions);
        }
        let color = pixel_color(&img);
        Ok(ImageBuffer { pixels: img, width, height, color })
    }
}

/// Decode raw bytes into an image buffer, sniffing the encoding from the
/// content. The buffer's dimensions and color model are the decoded ones.
/// Bytes that are not a supported image — and the degenerate decode with a
/// zero dimension — fail as `DecodeFailure`; everything else is owed success.
pub fn decode_image(bytes: &Vec<u8>) -> (r: Result<ImageBuffer, ImageProcessorRuntimeError>)
    ensures
        r matches Ok(b) ==> decodable(bytes@) && b.wf() && b.width == decoded_width(bytes@)
            && b.height == decoded_height(bytes@) && b.color == decoded_color(bytes@),
        r matches Err(e) ==> e == ImageProcessorRuntimeError::DecodeFailure,
        !decodable(bytes@) ==> r == Err::<ImageBuffer, ImageProcessorRuntimeError>(
            ImageProcessorRuntimeError::DecodeFailure,
        ),
        decodable(bytes@) && decoded_width(bytes@) > 0 && decoded_height(bytes@) > 0 ==> r is Ok,
{
    match decode_from_memory(bytes) {
        Ok((img, width, height, color)) => {
            if width == 0 || height == 0 {
                return Err(ImageProcessorRuntimeError::DecodeFailure);
            }
            Ok(ImageBuffer { pixels: img, width, height, color })
        },
        Err(()) => Err(ImageProcessorRuntimeError::DecodeFailure),
    }
}

/// The default encoding for a color model: floating-point pixels go to the
/// high-dynamic-range encoding, every integer-depth or unknown model to the
/// lossless raster encoding.
pub open spec fn default_encoding(color: ColorModel) -> Encoding {
    if color.is_float() {
        Encoding::OpenExr
    } else {
        Encoding::Png
    }
}

/// Choose the output encoding: an explicitly requested encoding is used as
/// given; otherwise the color model decides. Never fails.
pub fn select_encoding(color: ColorModel, requested: Option<Encoding>) -> (r: Encoding)
    ensures
        requested matches Some(enc) ==> r == enc,
        requested is None ==> r == default_encoding(color),
{
    match requested {
        Some(enc) => enc,
        None => match color {
            ColorModel::Rgb32F => Encoding::OpenExr,
            ColorModel::Rgba32F => Encoding::OpenExr,
            _ => Encoding::Png,
        },
    }
}

/// Relies on image::DynamicImage::resize_exact with FilterType::Nearest:
/// nearest-neighbour resampling to exactly the given dimensions, with no
/// interpolation, keeping the pixel variant of the input.
#[verifier::external_body]
fn resize_exact_nearest(img: &image::DynamicImage, w: u32, h: u32) -> image::DynamicImage
    requires
        w > 0,
        h > 0,
{
    img.resize_exact(w, h, image::imageops::FilterType::Nearest)
}

/// Resample an image to exactly the given dimensions by nearest-neighbour
/// sampling, keeping its color model. A zero target dimension is a degenerate
/// request and fails as `InvalidDimensions` before any pixel work.
pub fn resample(img: &ImageBuffer, target_w: u32, target_h: u32) -> (r: Result<
    ImageBuffer,
    ImageProcessorRuntimeError,
>)
    ensures
        target_w == 0 || target_h == 0 <==> r == Err::<ImageBuffer, ImageProcessorRuntimeError>(
            ImageProcessorRuntimeError::InvalidDimensions,
        ),
        target_w > 0 && target_h > 0 ==> r is Ok,
        r matches Ok(out) ==> out.width == target_w && out.height == target_h && out.color
            == img.color && out.wf(),
{
    if target_w == 0 || target_h == 0 {
        return Err(ImageProcessorRuntimeError::InvalidDimensions);
    }
    let resized = resize_exact_nearest(&img.pixels, target_w, target_h);
    Ok(ImageBuffer { pixels: resized, width: target_w, height: target_h, color: img.color })
}

/// Relies on image::DynamicImage::write_to: encodes the pixels in the given
/// format into an in-memory buffer, converting the color model where the
/// encoder needs it. Nothing is promised of the produced bytes.
#[verifier::external_body]
fn encode_to_vec(img: &image::DynamicImage, enc: Encoding) -> Result<Vec<u8>, ()> {
    let format = match enc {
        Encoding::Png => image::ImageFormat::Png,
        Encoding::OpenExr => image::ImageFormat::OpenExr,
    };
    let mut out: Vec<u8> = Vec::new();
    match img.write_to(std::io::Cursor::new(&mut out), format) {
        Ok(()) => Ok(out),
        Err(_) => Err(()),
    }
}

/// Encode an image into an in-memory byte buffer in the given encoding. For
/// the encodings this pipeline selects the encoder converts the color model
/// where it must and does not fail, but whether a given pixel store encodes
/// is a fact about the opaque store that no contract here can state, so the
/// error path is kept deliberately: an encoder failure is a `WriteFailure`,
/// never silently swallowed.
pub fn write_to_buffer(img: &ImageBuffer, enc: Encoding) -> (r: Result<
    Vec<u8>,
    ImageProcessorRuntimeError,
>)
    ensures
        r matches Err(e) ==> e == ImageProcessorRuntimeError::WriteFailure,
{
    match encode_to_vec(&img.pixels, enc) {
        Ok(bytes) => Ok(bytes),
        Err(()) => Err(ImageProcessorRuntimeError::WriteFailure),
    }
}

} // verus!
