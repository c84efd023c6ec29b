//! Structured error types.
//!
//! Validation and execution failures carry a machine-readable discriminant,
//! the offending field and — at the pipeline level — the index and name of
//! the failing step, so callers can match on the error kind instead of
//! parsing message text.

use vstd::prelude::*;

verus! {

/// The parameter field an error is about.
#[derive(Clone, Copy, Debug, PartialEq, Eq, Structural)]
pub enum ParamField {
    Width,
    Height,
    X,
    Y,
    Degrees,
    Opacity,
    Text,
    FontSize,
    Color,
    Position,
    Format,
    Quality,
    Sigma,
    Minampl,
    Factor,
    Value,
}

/// A semantic constraint violated by an operation's parameters.
#[derive(Clone, Copy, Debug, PartialEq, Eq, Structural)]
pub enum ImageError {
    InvalidDimensions(ParamField),
    InvalidDegrees,
    InvalidOpacity,
    InvalidQuality,
    InvalidParameters(ParamField),
}

/// A failure raised while applying a validated operation to an image.
#[derive(Clone, Debug, PartialEq, Eq)]
pub enum TransformFailure {
    /// The requested target dimensions would not fit in memory.
    DimensionsTooLarge,
    /// The codec refused to encode the image.
    EncodingFailed,
    /// A text watermark was requested but no font was supplied.
    FontUnavailable,
}

/// Why a single pipeline step failed.
#[derive(Clone, Debug, PartialEq, Eq)]
pub enum StepFailure {
    /// The operation name is not in the registry.
    UnsupportedOperation,
    /// A parameter could not be read as the type the schema asks for.
    Parse(ParamField),
    /// The parameters parsed but violate a semantic constraint.
    Invalid(ImageError),
    /// The transform itself failed on this image.
    Transform(TransformFailure),
}

/// The terminal error of an aborted pipeline: the failing step's index and
/// operation name together with the reason.
#[derive(Clone, Debug, PartialEq, Eq)]
pub struct PipelineError {
    pub step: usize,
    pub operation: String,
    pub failure: StepFailure,
}

/// Application-level errors, as surfaced to HTTP handlers.
#[derive(Clone, Debug, PartialEq, Eq)]
pub enum AppError {
    InternalServerError(String),
    BadRequest(String),
    ImageProcessingError(String),
    UnsupportedMediaType(String),
    PayloadTooLarge(String),
    RateLimitExceeded(String),
    InvalidOperation(String),
    FileSystemError(String),
    MultipartError(String),
    Unauthorized(String),
}

impl PipelineError {
    /// Classifies this pipeline failure the way the HTTP layer reports it:
    /// parameter problems are client errors, transform problems are image
    /// processing errors, and an unknown operation name is an invalid
    /// operation.
    pub fn to_app_error(&self) -> (r: AppError)
        ensures
            match self.failure {
                StepFailure::UnsupportedOperation => r is InvalidOperation,
                StepFailure::Parse(_) => r is BadRequest,
                StepFailure::Invalid(_) => r is BadRequest,
                StepFailure::Transform(_) => r is ImageProcessingError,
            },
    {
        match &self.failure {
            StepFailure::UnsupportedOperation => {
                let mut m = "Unknown or unsupported operation: ".to_owned();
                m.push_str(self.operation.as_str());
                AppError::InvalidOperation(m)
            },
            StepFailure::Parse(_) => {
                let mut m = "Failed to parse parameters for operation: ".to_owned();
                m.push_str(self.operation.as_str());
                AppError::BadRequest(m)
            },
            StepFailure::Invalid(_) => {
                let mut m = "Invalid parameters for operation: ".to_owned();
                m.push_str(self.operation.as_str());
                AppError::BadRequest(m)
            },
            StepFailure::Transform(_) => {
                let mut m = "Error in operation: ".to_owned();
                m.push_str(self.operation.as_str());
                AppError::ImageProcessingError(m)
            },
        }
    }
}

} // verus!
