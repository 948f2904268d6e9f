use base64::Engine;
use image::GenericImageView;
use vstd::prelude::*;

use crate::metadata::{is_float_format, ColorFormat};

verus! {

#[verifier::external_type_specification]
#[verifier::external_body]
pub struct ExDynamicImage(image::DynamicImage);

/// Interpolation used when an image is resampled to an exact size.
#[derive(Debug, Clone, Copy, PartialEq, Eq)]
pub enum ResampleFilter {
    /// Nearest neighbour: fast, discards high-frequency detail.
    Nearest,
    /// Lanczos with a window of three: slow, keeps detail.
    Lanczos3,
}

/// The character of a 6-bit value in the standard base64 alphabet.
pub open spec fn base64_digit(v: int) -> char {
    "ABCDEFGHIJKLMNOPQRSTUVWXYZabcdefghijklmnopqrstuvwxyz0123456789+/"@[v]
}

/// Standard base64 with padding: each group of three bytes gives four
/// digits of six bits each, most significant first; a last group of one or
/// two bytes is filled with zero bits and completed with '='.
pub open spec fn base64_of(b: Seq<u8>) -> Seq<char>
    decreases b.len(),
{
    if b.len() == 0 {
        Seq::empty()
    } else if b.len() == 1 {
        seq![base64_digit(b[0] as int / 4), base64_digit((b[0] as int % 4) * 16), '=', '=']
    } else if b.len() == 2 {
        seq![
            base64_digit(b[0] as int / 4),
            base64_digit((b[0] as int % 4) * 16 + b[1] as int / 16),
            base64_digit((b[1] as int % 16) * 4),
            '=',
        ]
    } else {
        seq![
            base64_digit(b[0] as int / 4),
            base64_digit((b[0] as int % 4) * 16 + b[1] as int / 16),
            base64_digit((b[1] as int % 16) * 4 + b[2] as int / 64),
            base64_digit(b[2] as int % 64),
        ] + base64_of(b.subrange(3, b.len() as int))
    }
}

/// What decoding a byte string gives: `None` when it decodes, else the
/// codec's description of the failure.
pub uninterp spec fn decode_failure(bytes: Seq<u8>) -> Option<Seq<char>>;

/// Width and height of the image that a byte string decodes to.
pub uninterp spec fn decoded_size(bytes: Seq<u8>) -> (u32, u32);

/// Color format of the image that a byte string decodes to.
pub uninterp spec fn decoded_format(bytes: Seq<u8>) -> ColorFormat;

/// 8-bit luminance samples of the decoded image resampled to exactly
/// width × height with the nearest-neighbour filter.
pub uninterp spec fn resized_luma8_of(bytes: Seq<u8>, width: u32, height: u32) -> Seq<u8>;

/// JPEG encoding, at the given quality, of the width × height thumbnail of
/// the decoded image: its bytes, or the encoder's description of the failure.
pub uninterp spec fn thumbnail_jpeg(bytes: Seq<u8>, width: u32, height: u32, quality: u8) -> Result<
    Seq<u8>,
    Seq<char>,
>;

/// The byte string decodes to an image.
pub open spec fn decodes(bytes: Seq<u8>) -> bool {
    decode_failure(bytes) is None
}

/// A decoded image, with the bytes it was decoded from.
pub(crate) struct DecodedImage {
    pub(crate) image: image::DynamicImage,
    pub(crate) source: Ghost<Seq<u8>>,
}

/// A thumbnail of a decoded image, with the bytes and the size it was made from.
pub(crate) struct ThumbnailImage {
    pub(crate) image: image::DynamicImage,
    pub(crate) source: Ghost<Seq<u8>>,
    pub(crate) width: Ghost<u32>,
    pub(crate) height: Ghost<u32>,
}

/// Relies on image::load_from_memory: guesses the format from the bytes and
/// decodes them under the default limits, a function of the bytes alone; a
/// failure is reported through ImageError's Display impl.
#[verifier::external_body]
pub(crate) fn decode(bytes: &Vec<u8>) -> (r: Result<DecodedImage, String>)
    ensures
        r is Ok <==> decodes(bytes@),
        r is Ok ==> r->Ok_0.source@ == bytes@,
        r is Err ==> decode_failure(bytes@) == Some(r->Err_0@),
{
    match image::load_from_memory(bytes.as_slice()) {
        Ok(image) => Ok(DecodedImage { image, source: Ghost(bytes@) }),
        Err(e) => Err(e.to_string()),
    }
}

/// Relies on GenericImageView::dimensions for DynamicImage: (width, height).
#[verifier::external_body]
pub(crate) fn dimensions(img: &DecodedImage) -> (r: (u32, u32))
    ensures
        r == decoded_size(img.source@),
{
    img.image.dimensions()
}

/// Relies on DynamicImage::color: the stored color type, one arm per variant.
#[verifier::external_body]
pub(crate) fn color_format(img: &DecodedImage) -> (r: ColorFormat)
    ensures
        r == decoded_format(img.source@),
{
    match img.image.color() {
        image::ColorType::L8 => ColorFormat::L8,
        image::ColorType::La8 => ColorFormat::La8,
        image::ColorType::Rgb8 => ColorFormat::Rgb8,
        image::ColorType::Rgba8 => ColorFormat::Rgba8,
        image::ColorType::L16 => ColorFormat::L16,
        image::ColorType::La16 => ColorFormat::La16,
        image::ColorType::Rgb16 => ColorFormat::Rgb16,
        image::ColorType::Rgba16 => ColorFormat::Rgba16,
        image::ColorType::Rgb32F => ColorFormat::Rgb32F,
        image::ColorType::Rgba32F => ColorFormat::Rgba32F,
        _ => ColorFormat::Unknown,
    }
}

/// Relies on DynamicImage::resize_exact, whose output is exactly
/// nwidth × nheight, taken as 8-bit RGB (to_rgb8): three samples per pixel,
/// pixels in row-major order. Converting 32-bit float samples to 8 bits
/// unwraps a cast that fails on NaN, which resampling can produce from
/// finite samples, so float images are left out.
#[verifier::external_body]
pub(crate) fn resized_rgb8(
    img: &DecodedImage,
    nwidth: u32,
    nheight: u32,
    filter: ResampleFilter,
) -> (r: Vec<u8>)
    requires
        !is_float_format(decoded_format(img.source@)),
    ensures
        r@.len() == 3 * nwidth * nheight,
{
    let filter_type = match filter {
        ResampleFilter::Nearest => image::imageops::FilterType::Nearest,
        ResampleFilter::Lanczos3 => image::imageops::FilterType::Lanczos3,
    };
    img.image.resize_exact(nwidth, nheight, filter_type).to_rgb8().into_raw()
}

/// Relies on DynamicImage::resize_exact with FilterType::Nearest, whose
/// output is exactly nwidth × nheight, taken as 8-bit luminance (to_luma8):
/// one sample per pixel, in row-major order. Converting 32-bit float samples
/// to 8 bits unwraps a cast that fails on NaN, so float images are left out.
#[verifier::external_body]
pub(crate) fn resized_luma8(img: &DecodedImage, nwidth: u32, nheight: u32) -> (r: Vec<u8>)
    requires
        !is_float_format(decoded_format(img.source@)),
    ensures
        r@ == resized_luma8_of(img.source@, nwidth, nheight),
        r@.len() == nwidth * nheight,
{
    img.image.resize_exact(nwidth, nheight, image::imageops::FilterType::Nearest).to_luma8().into_raw()
}

/// Relies on DynamicImage::thumbnail_exact: a nwidth × nheight copy made by
/// averaging blocks of source pixels.
#[verifier::external_body]
pub(crate) fn thumbnail_exact(img: &DecodedImage, nwidth: u32, nheight: u32) -> (r:
    ThumbnailImage)
    ensures
        r.source@ == img.source@,
        r.width@ == nwidth,
        r.height@ == nheight,
{
    ThumbnailImage {
        image: img.image.thumbnail_exact(nwidth, nheight),
        source: Ghost(img.source@),
        width: Ghost(nwidth),
        height: Ghost(nheight),
    }
}

/// Relies on DynamicImage::write_to with ImageOutputFormat::Jpeg: the JPEG
/// encoding at the given quality, or the encoder's error through its Display
/// impl. The bytes sit in a Vec, which std never lets grow past isize::MAX
/// bytes.
#[verifier::external_body]
pub(crate) fn encode_jpeg(img: &ThumbnailImage, quality: u8) -> (r: Result<Vec<u8>, String>)
    ensures
        r is Ok <==> thumbnail_jpeg(img.source@, img.width@, img.height@, quality) is Ok,
        r is Ok ==> thumbnail_jpeg(img.source@, img.width@, img.height@, quality)->Ok_0
            == r->Ok_0@,
        r is Err ==> thumbnail_jpeg(img.source@, img.width@, img.height@, quality)->Err_0
            == r->Err_0@,
        r is Ok ==> r->Ok_0@.len() <= isize::MAX,
{
    let mut buffer = Vec::new();
    let mut cursor = std::io::Cursor::new(&mut buffer);
    match img.image.write_to(&mut cursor, image::ImageOutputFormat::Jpeg(quality)) {
        Ok(()) => Ok(buffer),
        Err(e) => Err(e.to_string()),
    }
}

/// Relies on base64's general_purpose::STANDARD engine: padded standard
/// base64, four characters for each started group of three bytes. It panics
/// only where that length overflows usize.
#[verifier::external_body]
pub(crate) fn base64_encode(bytes: &Vec<u8>) -> (r: String)
    requires
        4 * ((bytes@.len() + 2) / 3) <= usize::MAX,
    ensures
        r@ == base64_of(bytes@),
        r@.len() == 4 * ((bytes@.len() + 2) / 3),
{
    base64::engine::general_purpose::STANDARD.encode(bytes)
}

} // verus!
