use vstd::prelude::*;
use vstd::string::*;

verus! {

/// Why an operation of the pipeline failed, with the cause reported by the codec.
#[derive(Debug)]
pub enum PipelineError {
    /// The bytes could not be decoded as an image of a supported format.
    Decode(String),
    /// A decoded image could not be serialized to the output format.
    Encode(String),
}

/// Cause given when an image stores 32-bit float samples, which the
/// resampling to 8-bit samples does not take.
pub open spec fn float_samples_cause() -> Seq<char> {
    "32-bit float samples are not supported"@
}

/// The error for an image that stores 32-bit float samples.
pub fn float_samples_error() -> (r: PipelineError)
    ensures
        r is Decode,
        r->Decode_0@ == float_samples_cause(),
{
    PipelineError::Decode(String::from_str("32-bit float samples are not supported"))
}

/// The text shown to the user for an error: the failing stage, then the cause.
pub open spec fn error_message(e: PipelineError) -> Seq<char> {
    match e {
        PipelineError::Decode(cause) => "Failed to open image: "@ + cause@,
        PipelineError::Encode(cause) => "Failed to encode thumbnail: "@ + cause@,
    }
}

impl PipelineError {
    /// Human-readable description naming the failing stage and its cause.
    pub fn message(&self) -> (r: String)
        ensures
            r@ == error_message(*self),
    {
        match self {
            PipelineError::Decode(cause) => String::from_str("Failed to open image: ").concat(
                cause.as_str(),
            ),
            PipelineError::Encode(cause) => String::from_str("Failed to encode thumbnail: ").concat(
                cause.as_str(),
            ),
        }
    }
}

} // verus!
