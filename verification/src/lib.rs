//! An image transformation pipeline: classify a source string as a local
//! path or a remote URL, decode the acquired bytes, resize by explicit
//! dimensions or compress by a quality percentage, choose an output encoding
//! from the color model, and encode the result into an in-memory buffer.
//! The dimension arithmetic, the validation rules and the error taxonomy are
//! verified; the codec, the regular-expression engine and the filesystem
//! queries are called through trusted wrappers.

pub mod errors;
pub mod pipeline;
pub mod raster;
pub mod transform;
pub mod validate;
