//! Pipeline step descriptions and the operation registry.
//!
//! A step names its operation by the registry's case-sensitive name; the
//! registry maps that name to the closed set of supported operation kinds.
//! A name outside the registry yields a deterministic "unsupported
//! operation" outcome, never a panic.

use vstd::prelude::*;

use crate::params::Params;
use crate::text::str_eq;

verus! {

/// The closed set of operations the pipeline supports.
#[derive(Debug, Clone, Copy, PartialEq, Eq, Hash, Structural)]
pub enum SupportedOperation {
    Crop,
    SmartCrop,
    Resize,
    Enlarge,
    Extract,
    Rotate,
    Autorotate,
    Flip,
    Flop,
    Thumbnail,
    Zoom,
    Convert,
    Watermark,
    WatermarkImage,
    Blur,
    Grayscale,
    AdjustBrightness,
    AdjustContrast,
    Sharpen,
}

/// Specification of a single pipeline step: the operation's registry name,
/// whether a failure of this step is swallowed, and the untyped parameter
/// document.
#[derive(Debug, Clone)]
pub struct PipelineOperationSpec {
    pub operation: String,
    pub ignore_failure: bool,
    pub params: Params,
}

/// The query parameters of a pipeline request: the optional source URL and
/// the operation list as text.
#[derive(Debug, Clone)]
pub struct PipelineQuery {
    pub url: Option<String>,
    pub operations: String,
}

/// The registry: which operation a case-sensitive name denotes, if any.
pub open spec fn spec_op_of_name(name: Seq<char>) -> Option<SupportedOperation> {
    if name == "crop"@ {
        Some(SupportedOperation::Crop)
    } else if name == "smartCrop"@ {
        Some(SupportedOperation::SmartCrop)
    } else if name == "resize"@ {
        Some(SupportedOperation::Resize)
    } else if name == "enlarge"@ {
        Some(SupportedOperation::Enlarge)
    } else if name == "extract"@ {
        Some(SupportedOperation::Extract)
    } else if name == "rotate"@ {
        Some(SupportedOperation::Rotate)
    } else if name == "autorotate"@ {
        Some(SupportedOperation::Autorotate)
    } else if name == "flip"@ {
        Some(SupportedOperation::Flip)
    } else if name == "flop"@ {
        Some(SupportedOperation::Flop)
    } else if name == "thumbnail"@ {
        Some(SupportedOperation::Thumbnail)
    } else if name == "zoom"@ {
        Some(SupportedOperation::Zoom)
    } else if name == "convert"@ {
        Some(SupportedOperation::Convert)
    } else if name == "watermark"@ {
        Some(SupportedOperation::Watermark)
    } else if name == "watermarkImage"@ {
        Some(SupportedOperation::WatermarkImage)
    } else if name == "blur"@ {
        Some(SupportedOperation::Blur)
    } else if name == "grayscale"@ {
        Some(SupportedOperation::Grayscale)
    } else if name == "adjustBrightness"@ {
        Some(SupportedOperation::AdjustBrightness)
    } else if name == "adjustContrast"@ {
        Some(SupportedOperation::AdjustContrast)
    } else if name == "sharpen"@ {
        Some(SupportedOperation::Sharpen)
    } else {
        None
    }
}

/// Looks an operation name up in the registry.
pub fn op_from_name(name: &str) -> (r: Option<SupportedOperation>)
    ensures
        r == spec_op_of_name(name@),
{
    if str_eq(name, "crop") {
        Some(SupportedOperation::Crop)
    } else if str_eq(name, "smartCrop") {
        Some(SupportedOperation::SmartCrop)
    } else if str_eq(name, "resize") {
        Some(SupportedOperation::Resize)
    } else if str_eq(name, "enlarge") {
        Some(SupportedOperation::Enlarge)
    } else if str_eq(name, "extract") {
        Some(SupportedOperation::Extract)
    } else if str_eq(name, "rotate") {
        Some(SupportedOperation::Rotate)
    } else if str_eq(name, "autorotate") {
        Some(SupportedOperation::Autorotate)
    } else if str_eq(name, "flip") {
        Some(SupportedOperation::Flip)
    } else if str_eq(name, "flop") {
        Some(SupportedOperation::Flop)
    } else if str_eq(name, "thumbnail") {
        Some(SupportedOperation::Thumbnail)
    } else if str_eq(name, "zoom") {
        Some(SupportedOperation::Zoom)
    } else if str_eq(name, "convert") {
        Some(SupportedOperation::Convert)
    } else if str_eq(name, "watermark") {
        Some(SupportedOperation::Watermark)
    } else if str_eq(name, "watermarkImage") {
        Some(SupportedOperation::WatermarkImage)
    } else if str_eq(name, "blur") {
        Some(SupportedOperation::Blur)
    } else if str_eq(name, "grayscale") {
        Some(SupportedOperation::Grayscale)
    } else if str_eq(name, "adjustBrightness") {
        Some(SupportedOperation::AdjustBrightness)
    } else if str_eq(name, "adjustContrast") {
        Some(SupportedOperation::AdjustContrast)
    } else if str_eq(name, "sharpen") {
        Some(SupportedOperation::Sharpen)
    } else {
        None
    }
}

} // verus!
