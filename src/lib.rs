//! Image fingerprinting and preprocessing: a classifier input tensor, an
//! average hash, a JPEG thumbnail as a data URL, and basic metadata, each
//! computed from the encoded bytes of one image.

pub mod error;
pub mod hash;
pub mod imaging;
pub mod metadata;
pub mod normalize;
pub mod resample;
pub mod thumbnail;
