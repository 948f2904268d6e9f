use vstd::prelude::*;

use crate::error::PipelineError;
use crate::imaging::{
    color_format, decode, decode_failure, decoded_format, decoded_size, decodes, dimensions,
};

verus! {

/// How the decoded image stores its pixels: channels and sample depth.
#[derive(Debug, Clone, Copy, PartialEq, Eq)]
pub enum ColorFormat {
    L8,
    La8,
    Rgb8,
    Rgba8,
    L16,
    La16,
    Rgb16,
    Rgba16,
    Rgb32F,
    Rgba32F,
    /// A layout that has no name here.
    Unknown,
}

pub open spec fn color_label(c: ColorFormat) -> Seq<char> {
    match c {
        ColorFormat::L8 => "L8"@,
        ColorFormat::La8 => "La8"@,
        ColorFormat::Rgb8 => "Rgb8"@,
        ColorFormat::Rgba8 => "Rgba8"@,
        ColorFormat::L16 => "L16"@,
        ColorFormat::La16 => "La16"@,
        ColorFormat::Rgb16 => "Rgb16"@,
        ColorFormat::Rgba16 => "Rgba16"@,
        ColorFormat::Rgb32F => "Rgb32F"@,
        ColorFormat::Rgba32F => "Rgba32F"@,
        ColorFormat::Unknown => "Unknown"@,
    }
}

/// The format stores 32-bit float samples.
pub open spec fn is_float_format(c: ColorFormat) -> bool {
    c == ColorFormat::Rgb32F || c == ColorFormat::Rgba32F
}

impl ColorFormat {
    /// Whether the format stores 32-bit float samples.
    pub fn is_float(&self) -> (r: bool)
        ensures
            r == is_float_format(*self),
    {
        match self {
            ColorFormat::Rgb32F => true,
            ColorFormat::Rgba32F => true,
            _ => false,
        }
    }

    /// The name of the format as it is reported to the user.
    pub fn label(&self) -> (r: &'static str)
        ensures
            r@ == color_label(*self),
    {
        match self {
            ColorFormat::L8 => "L8",
            ColorFormat::La8 => "La8",
            ColorFormat::Rgb8 => "Rgb8",
            ColorFormat::Rgba8 => "Rgba8",
            ColorFormat::L16 => "L16",
            ColorFormat::La16 => "La16",
            ColorFormat::Rgb16 => "Rgb16",
            ColorFormat::Rgba16 => "Rgba16",
            ColorFormat::Rgb32F => "Rgb32F",
            ColorFormat::Rgba32F => "Rgba32F",
            ColorFormat::Unknown => "Unknown",
        }
    }
}

/// Dimensions and color format of a decoded image. The aspect ratio is
/// width / height.
#[derive(Debug, Clone, Copy, PartialEq, Eq)]
pub struct ImageMetadata {
    pub width: u32,
    pub height: u32,
    pub format: ColorFormat,
}

/// Reads the dimensions and color format of an encoded image without
/// resampling it. Fails exactly when the bytes do not decode.
pub fn get_image_metadata(bytes: &Vec<u8>) -> (r: Result<ImageMetadata, PipelineError>)
    ensures
        r is Ok <==> decodes(bytes@),
        r is Err ==> r->Err_0 is Decode && decode_failure(bytes@) == Some(r->Err_0->Decode_0@),
        r is Ok ==> (r->Ok_0.width, r->Ok_0.height) == decoded_size(bytes@),
        r is Ok ==> r->Ok_0.format == decoded_format(bytes@),
{
    match decode(bytes) {
        Ok(img) => {
            let (width, height) = dimensions(&img);
            let format = color_format(&img);
            Ok(ImageMetadata { width, height, format })
        },
        Err(cause) => Err(PipelineError::Decode(cause)),
    }
}

} // verus!
