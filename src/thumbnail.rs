use vstd::prelude::*;
use vstd::string::*;

use crate::error::PipelineError;
use crate::imaging::{
    base64_encode, base64_of, decode, decode_failure, decoded_size, decodes, dimensions,
    encode_jpeg, thumbnail_exact, thumbnail_jpeg,
};
use crate::resample::{bounded_dimensions, bounded_size, lemma_bounded_size_fits};

verus! {

/// JPEG quality of thumbnails, on the scale 1 to 100.
pub const THUMBNAIL_QUALITY: u8 = 80;

/// The MIME descriptor put in front of the base64 text.
pub open spec fn data_url_prefix() -> Seq<char> {
    "data:image/jpeg;base64,"@
}

/// A JPEG byte string as a data URL: the descriptor, then its base64 text.
pub open spec fn jpeg_data_url_of(jpeg: Seq<u8>) -> Seq<char> {
    data_url_prefix() + base64_of(jpeg)
}

/// Wraps JPEG bytes in a data URL that a consumer can embed as it is.
pub fn jpeg_data_url(jpeg: &Vec<u8>) -> (r: String)
    requires
        jpeg@.len() <= isize::MAX,
    ensures
        r@ == jpeg_data_url_of(jpeg@),
{
    let text = base64_encode(jpeg);
    String::from_str("data:image/jpeg;base64,").concat(text.as_str())
}

/// Size of the thumbnail of the image that `bytes` decode to, for a box of
/// side `max_size`.
pub open spec fn thumbnail_size(bytes: Seq<u8>, max_size: u32) -> (u32, u32) {
    let (w, h) = decoded_size(bytes);
    let (tw, th) = bounded_size(w as int, h as int, max_size as int);
    (tw as u32, th as u32)
}

/// The JPEG encoding, at quality 80, of the thumbnail of the image that
/// `bytes` decode to.
pub open spec fn thumbnail_encoding(bytes: Seq<u8>, max_size: u32) -> Result<Seq<u8>, Seq<char>> {
    thumbnail_jpeg(
        bytes,
        thumbnail_size(bytes, max_size).0,
        thumbnail_size(bytes, max_size).1,
        THUMBNAIL_QUALITY,
    )
}

/// Decodes an image, shrinks it to fit a `max_size × max_size` box keeping
/// its aspect ratio, encodes that as JPEG at quality 80 and returns it as a
/// data URL. Fails with a decode error exactly when the bytes do not decode,
/// and with an encode error exactly when they do but the encoder refuses the
/// thumbnail.
pub fn create_thumbnail(bytes: &Vec<u8>, max_size: u32) -> (r: Result<String, PipelineError>)
    requires
        max_size > 0,
    ensures
        (r is Err && r->Err_0 is Decode) <==> !decodes(bytes@),
        r is Ok <==> decodes(bytes@) && thumbnail_encoding(bytes@, max_size) is Ok,
        r is Ok ==> r->Ok_0@ == jpeg_data_url_of(thumbnail_encoding(bytes@, max_size)->Ok_0),
        r is Err && r->Err_0 is Decode ==> decode_failure(bytes@) == Some(r->Err_0->Decode_0@),
        r is Err && r->Err_0 is Encode ==> thumbnail_encoding(bytes@, max_size)->Err_0
            == r->Err_0->Encode_0@,
{
    match decode(bytes) {
        Ok(img) => {
            let (width, height) = dimensions(&img);
            let (nwidth, nheight) = bounded_dimensions(width, height, max_size);
            let small = thumbnail_exact(&img, nwidth, nheight);
            match encode_jpeg(&small, THUMBNAIL_QUALITY) {
                Ok(jpeg) => Ok(jpeg_data_url(&jpeg)),
                Err(cause) => Err(PipelineError::Encode(cause)),
            }
        },
        Err(cause) => Err(PipelineError::Decode(cause)),
    }
}

/// The thumbnail of an image with positive sides fits the box: each side is
/// positive, no larger than the source's and no larger than `max_size`; the
/// longer side is `max_size` when the source did not fit, and the source
/// size is kept when it did; and the aspect ratio is kept up to the rounding
/// of one side, |w'·h − h'·w| ≤ max(w, h).
pub proof fn lemma_thumbnail_fits(bytes: Seq<u8>, max_size: u32)
    requires
        max_size > 0,
        decoded_size(bytes).0 > 0,
        decoded_size(bytes).1 > 0,
    ensures
        ({
            let (w, h) = decoded_size(bytes);
            let (tw, th) = thumbnail_size(bytes, max_size);
            let longer = if w >= h {
                w
            } else {
                h
            };
            &&& 0 < tw <= w
            &&& 0 < th <= h
            &&& tw <= max_size
            &&& th <= max_size
            &&& -(longer as int) <= tw * h - th * w <= longer
            &&& longer > max_size ==> (tw == max_size || th == max_size)
            &&& longer <= max_size ==> tw == w && th == h
        }),
{
    let (w, h) = decoded_size(bytes);
    lemma_bounded_size_fits(w as int, h as int, max_size as int);
}

} // verus!
