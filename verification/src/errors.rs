use vstd::prelude::*;
use vstd::string::StringExecFns;

verus! {

/// A failure that occurs while executing a well-formed request: the source
/// could not be reached, its bytes were not a decodable image, the result
/// could not be written, or a resize request degenerated to zero pixels.
#[derive(Clone, Copy, Debug, PartialEq, Eq, Structural)]
pub enum ImageProcessorRuntimeError {
    SourceUnreachable,
    DecodeFailure,
    WriteFailure,
    InvalidDimensions,
}

/// A failure detected before any acquisition or transformation work begins:
/// the caller supplied unusable input.
#[derive(Clone, Copy, Debug, PartialEq, Eq, Structural)]
pub enum ImageProcessorValidationError {
    InvalidQuality,
    InvalidSource,
    InvalidOutputPath,
    MissingOutputPath,
}

/// The top-level error: every failure of the pipeline is either a validation
/// error (bad input, detected up front) or a runtime error (detected while
/// acquiring, transforming or writing).
#[derive(Clone, Copy, Debug, PartialEq, Eq, Structural)]
pub enum ImageProcessorError {
    Runtime(ImageProcessorRuntimeError),
    Validation(ImageProcessorValidationError),
}

impl ImageProcessorRuntimeError {
    /// The words naming this failure kind.
    pub open spec fn message_view(self) -> Seq<char> {
        match self {
            ImageProcessorRuntimeError::SourceUnreachable => "source unreachable"@,
            ImageProcessorRuntimeError::DecodeFailure => "target is not an image"@,
            ImageProcessorRuntimeError::WriteFailure => "failed to write the result"@,
            ImageProcessorRuntimeError::InvalidDimensions => "resize request degenerates to zero pixels"@,
        }
    }

    /// A human-readable message naming the failure kind.
    pub fn message(&self) -> (r: String)
        ensures
            r@ == self.message_view(),
    {
        match self {
            ImageProcessorRuntimeError::SourceUnreachable => String::from_str(
                "source unreachable",
            ),
            ImageProcessorRuntimeError::DecodeFailure => String::from_str(
                "target is not an image",
            ),
            ImageProcessorRuntimeError::WriteFailure => String::from_str(
                "failed to write the result",
            ),
            ImageProcessorRuntimeError::InvalidDimensions => String::from_str(
                "resize request degenerates to zero pixels",
            ),
        }
    }
}

impl ImageProcessorValidationError {
    /// The words naming this failure kind.
    pub open spec fn message_view(self) -> Seq<char> {
        match self {
            ImageProcessorValidationError::InvalidQuality => "quality must be between 1 and 100"@,
            ImageProcessorValidationError::InvalidSource => "source is neither an existing file nor a url"@,
            ImageProcessorValidationError::InvalidOutputPath => "invalid output path"@,
            ImageProcessorValidationError::MissingOutputPath => "missing output path"@,
        }
    }

    /// A human-readable message naming the failure kind.
    pub fn message(&self) -> (r: String)
        ensures
            r@ == self.message_view(),
    {
        match self {
            ImageProcessorValidationError::InvalidQuality => String::from_str(
                "quality must be between 1 and 100",
            ),
            ImageProcessorValidationError::InvalidSource => String::from_str(
                "source is neither an existing file nor a url",
            ),
            ImageProcessorValidationError::InvalidOutputPath => String::from_str(
                "invalid output path",
            ),
            ImageProcessorValidationError::MissingOutputPath => String::from_str(
                "missing output path",
            ),
        }
    }
}

impl ImageProcessorError {
    /// The words naming this failure kind.
    pub open spec fn message_view(self) -> Seq<char> {
        match self {
            ImageProcessorError::Runtime(e) => e.message_view(),
            ImageProcessorError::Validation(e) => e.message_view(),
        }
    }

    /// A human-readable message naming the failure kind.
    pub fn message(&self) -> (r: String)
        ensures
            r@ == self.message_view(),
    {
        match self {
            ImageProcessorError::Runtime(e) => e.message(),
            ImageProcessorError::Validation(e) => e.message(),
        }
    }
}

} // verus!
