use vstd::prelude::*;

use crate::error::PipelineError;
use crate::error::{float_samples_cause, float_samples_error};
use crate::imaging::{
    color_format, decode, decode_failure, decoded_format, decodes, resized_rgb8, ResampleFilter,
};
use crate::metadata::is_float_format;

verus! {

/// Side of the square classifier input, in pixels.
pub const MODEL_INPUT_SIDE: u32 = 224;

/// Number of samples in a classifier input: side × side pixels, three channels.
pub const MODEL_INPUT_LEN: usize = 150528;

/// Denominator shared by every normalized value.
pub const NORMALIZED_SCALE: i16 = 255;

/// An 8-bit sample s maps to (s - 127.5) / 127.5, which is (2s - 255) / 255:
/// this is its numerator over NORMALIZED_SCALE.
pub open spec fn centered(s: u8) -> int {
    2 * s - 255
}

/// `out` holds, in order, the centered value of each sample of `samples`.
pub open spec fn normalizes(out: Seq<i16>, samples: Seq<u8>) -> bool {
    &&& out.len() == samples.len()
    &&& forall|i: int| 0 <= i < out.len() ==> out[i] as int == centered(samples[i])
}

/// Classifier input: `data[i] / 255` is the value of sample i, for samples
/// taken pixel by pixel in row-major order, channels R, G, B.
#[derive(Debug)]
pub struct PreprocessedImage {
    pub data: Vec<i16>,
    pub width: u32,
    pub height: u32,
}

/// Centers each 8-bit sample s to the numerator 2s - 255, in [-255, 255],
/// of its value over NORMALIZED_SCALE, keeping the order of the samples.
pub fn normalize_rgb(samples: &Vec<u8>) -> (r: Vec<i16>)
    ensures
        normalizes(r@, samples@),
{
    let mut out: Vec<i16> = Vec::with_capacity(samples.len());
    let mut i: usize = 0;
    while i < samples.len()
        invariant
            i <= samples@.len(),
            out@.len() == i,
            forall|j: int| 0 <= j < i ==> out@[j] as int == centered(samples@[j]),
        decreases samples@.len() - i,
    {
        let s = samples[i] as i16;
        out.push(2 * s - NORMALIZED_SCALE);
        i = i + 1;
    }
    out
}

/// Decodes an image, resamples it to 224 × 224 with the Lanczos filter, and
/// normalizes its RGB samples. Fails exactly when the bytes do not decode or
/// decode to an image of 32-bit float samples.
pub fn preprocess_image_for_ml(bytes: &Vec<u8>) -> (r: Result<PreprocessedImage, PipelineError>)
    ensures
        r is Ok <==> decodes(bytes@) && !is_float_format(decoded_format(bytes@)),
        r is Err ==> r->Err_0 is Decode,
        r is Err && !decodes(bytes@) ==> decode_failure(bytes@) == Some(r->Err_0->Decode_0@),
        r is Err && decodes(bytes@) ==> r->Err_0->Decode_0@ == float_samples_cause(),
        r is Ok ==> {
            let t = r->Ok_0;
            &&& t.width == MODEL_INPUT_SIDE
            &&& t.height == MODEL_INPUT_SIDE
            &&& t.data@.len() == MODEL_INPUT_LEN
            &&& exists|samples: Seq<u8>| #[trigger] normalizes(t.data@, samples)
        },
{
    match decode(bytes) {
        Ok(img) => {
            if color_format(&img).is_float() {
                return Err(float_samples_error());
            }
            let samples = resized_rgb8(
                &img,
                MODEL_INPUT_SIDE,
                MODEL_INPUT_SIDE,
                ResampleFilter::Lanczos3,
            );
            assert(samples@.len() == MODEL_INPUT_LEN) by (nonlinear_arith)
                requires
                    samples@.len() == 3 * MODEL_INPUT_SIDE * MODEL_INPUT_SIDE,
                    MODEL_INPUT_SIDE == 224,
                    MODEL_INPUT_LEN == 150528,
            ;
            let data = normalize_rgb(&samples);
            let t = PreprocessedImage { data, width: MODEL_INPUT_SIDE, height: MODEL_INPUT_SIDE };
            assert(exists|s: Seq<u8>| #[trigger] normalizes(t.data@, s)) by {
                assert(normalizes(t.data@, samples@));
            }
            Ok(t)
        },
        Err(cause) => Err(PipelineError::Decode(cause)),
    }
}

/// Every normalized value lies in [-1, 1]: its numerator lies in [-255, 255].
/// Sample 0 gives exactly -1, sample 255 exactly 1, and samples 127 and 128
/// give -1/255 and 1/255, the two values nearest 0.
pub proof fn lemma_normalized_range(out: Seq<i16>, samples: Seq<u8>)
    requires
        normalizes(out, samples),
    ensures
        forall|i: int| 0 <= i < out.len() ==> -255 <= #[trigger] out[i] <= 255,
        forall|i: int| 0 <= i < out.len() && samples[i] == 0 ==> out[i] == -255,
        forall|i: int| 0 <= i < out.len() && samples[i] == 255 ==> out[i] == 255,
        forall|i: int| 0 <= i < out.len() && samples[i] == 127 ==> out[i] == -1,
        forall|i: int| 0 <= i < out.len() && samples[i] == 128 ==> out[i] == 1,
{
    assert forall|i: int| 0 <= i < out.len() implies -255 <= #[trigger] out[i] <= 255 by {
        assert(out[i] as int == centered(samples[i]));
    }
}

/// Normalization keeps the order of samples, is symmetric about the middle
/// grey (samples s and 255 - s give opposite values), and is undone by
/// (v + 255) / 2.
pub proof fn lemma_normalized_order(out: Seq<i16>, samples: Seq<u8>)
    requires
        normalizes(out, samples),
    ensures
        forall|i: int, j: int|
            0 <= i < out.len() && 0 <= j < out.len() && samples[i] <= samples[j] ==> out[i]
                <= out[j],
        forall|i: int, j: int|
            0 <= i < out.len() && 0 <= j < out.len() && samples[i] < samples[j] ==> out[i]
                < out[j],
        forall|i: int, j: int|
            0 <= i < out.len() && 0 <= j < out.len() && samples[i] + samples[j] == 255 ==> out[i]
                == -out[j],
        forall|i: int| 0 <= i < out.len() ==> (#[trigger] out[i] + 255) / 2 == samples[i],
{
}

/// Samples that all hold one value `v` normalize to one value: an all-black
/// image gives -1 everywhere.
pub proof fn lemma_normalized_uniform(out: Seq<i16>, samples: Seq<u8>, v: u8)
    requires
        normalizes(out, samples),
        forall|i: int| 0 <= i < samples.len() ==> samples[i] == v,
    ensures
        forall|i: int| 0 <= i < out.len() ==> out[i] == centered(v),
        v == 0 ==> forall|i: int| 0 <= i < out.len() ==> out[i] == -255,
{
}

} // verus!
