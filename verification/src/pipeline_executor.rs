//! The pipeline executor.
//!
//! Steps run strictly in list order. Each step is looked up in the
//! registry, its parameters are parsed and validated, and the transform is
//! applied to the owned image; on failure the step is either swallowed —
//! the pipeline continues with the image from before the step — or the
//! whole pipeline aborts with the failing step's index, name and reason.
//!
//! The contract is stated over two traces: a trace of shapes witnesses
//! which shapes a step list can produce — exact for every deterministic
//! step and up to the codecs' answer for conversions — and a trace of
//! image values pins an ignored failure to leaving the working image the
//! very value it was.

use vstd::prelude::*;

use crate::errors::{ImageError, ParamField, PipelineError, StepFailure, TransformFailure};
use crate::formats::{spec_format_of, OutputFormat};
use crate::image_state::{
    dims_fit, dims_fit_check, fit_dimensions, img_clone, spec_crop_size, spec_decode_budget_fits,
    ColorKind, ImageShape, ImageState,
};
use crate::operations::{
    adjust_brightness, adjust_contrast, autorotate, blur, convert_format, crop, enlarge, extract,
    flip_horizontal, flip_vertical, grayscale, resize, rotate, sharpen, smart_crop,
    spec_extract_rect, spec_rotated_shape, spec_zoom_dim, thumbnail, zoom, zoom_dim,
};
use crate::params::{
    parse_adjust_brightness, parse_adjust_contrast, parse_blur, parse_convert, parse_crop,
    parse_extract, parse_resize, parse_rotate, parse_smart_crop, parse_thumbnail, parse_watermark,
    parse_watermark_image, parse_zoom, spec_parse_adjust_brightness, spec_parse_adjust_contrast,
    spec_parse_blur, spec_parse_convert, spec_parse_crop, spec_parse_extract, spec_parse_resize,
    spec_parse_rotate, spec_parse_smart_crop, spec_parse_thumbnail, spec_parse_watermark,
    spec_parse_watermark_image, spec_parse_zoom, ParamValue, Validate, WatermarkPosition,
};
use crate::pipeline_types::{op_from_name, spec_op_of_name, PipelineOperationSpec, SupportedOperation};
use crate::watermark::{watermark, watermark_image};

verus! {

/// Validity of a parsed conversion, over the parse model: a recognized
/// format name and a quality within range.
pub open spec fn spec_convert_model_valid(m: (Seq<char>, Option<u8>)) -> bool {
    &&& spec_format_of(m.0) is Some
    &&& match m.1 {
        Some(q) => q <= 100,
        None => true,
    }
}

/// The first constraint a parsed conversion violates, over the parse model.
pub open spec fn spec_convert_model_reason(m: (Seq<char>, Option<u8>)) -> ImageError {
    if spec_format_of(m.0) is None {
        ImageError::InvalidParameters(ParamField::Format)
    } else {
        ImageError::InvalidQuality
    }
}

/// Validity of a parsed watermark, over the parse model.
pub open spec fn spec_watermark_model_valid(
    m: (Seq<char>, i64, WatermarkPosition, u32, crate::params::Rgb, Option<u32>, Option<u32>),
) -> bool {
    &&& 0 <= m.1 <= 1000
    &&& m.0.len() > 0
    &&& m.3 > 0
    &&& !(m.5 == Some(0u32) && m.6 == Some(0u32))
}

/// The first constraint a watermark violates, over the parse model.
pub open spec fn spec_watermark_model_reason(
    m: (Seq<char>, i64, WatermarkPosition, u32, crate::params::Rgb, Option<u32>, Option<u32>),
) -> ImageError {
    if !(0 <= m.1 <= 1000) {
        ImageError::InvalidOpacity
    } else if m.0.len() == 0 {
        ImageError::InvalidParameters(ParamField::Text)
    } else if m.3 == 0 {
        ImageError::InvalidParameters(ParamField::FontSize)
    } else {
        ImageError::InvalidParameters(ParamField::X)
    }
}

/// Whether a step's parameters parse and meet the schema of its operation.
pub open spec fn spec_step_ok(op: SupportedOperation, fields: Seq<(String, ParamValue)>) -> bool {
    match op {
        SupportedOperation::Resize => spec_parse_resize(fields) matches Ok(p) && p.valid(),
        SupportedOperation::Rotate => spec_parse_rotate(fields) matches Ok(p) && p.valid(),
        SupportedOperation::Crop => spec_parse_crop(fields) matches Ok(p) && p.valid(),
        SupportedOperation::Grayscale => true,
        SupportedOperation::Blur => spec_parse_blur(fields) matches Ok(p) && p.valid(),
        SupportedOperation::Flip => true,
        SupportedOperation::Flop => true,
        SupportedOperation::Convert => spec_parse_convert(fields) matches Ok(m)
            && spec_convert_model_valid(m),
        SupportedOperation::AdjustBrightness => spec_parse_adjust_brightness(fields) is Ok,
        SupportedOperation::AdjustContrast => spec_parse_adjust_contrast(fields) is Ok,
        SupportedOperation::Sharpen => true,
        SupportedOperation::Thumbnail => spec_parse_thumbnail(fields) matches Ok(p) && p.valid(),
        SupportedOperation::Enlarge => spec_parse_resize(fields) matches Ok(p) && p.valid(),
        SupportedOperation::Extract => spec_parse_extract(fields) matches Ok(p) && p.valid(),
        SupportedOperation::Autorotate => true,
        SupportedOperation::Zoom => spec_parse_zoom(fields) matches Ok(p) && p.valid(),
        SupportedOperation::SmartCrop => spec_parse_smart_crop(fields) matches Ok(p) && p.valid(),
        SupportedOperation::Watermark => spec_parse_watermark(fields) matches Ok(m)
            && spec_watermark_model_valid(m),
        SupportedOperation::WatermarkImage => spec_parse_watermark_image(fields) matches Ok(p)
            && p.valid(),
    }
}

/// The failure of a step whose parameters do not meet the schema: the parse
/// failure's field, or the first violated constraint. For the kinds whose
/// schema accepts anything the value is never read.
pub open spec fn spec_step_failure(op: SupportedOperation, fields: Seq<(String, ParamValue)>) -> StepFailure {
    match op {
        SupportedOperation::Resize => match spec_parse_resize(fields) {
            Ok(p) => StepFailure::Invalid(p.invalid_reason()),
            Err(f) => StepFailure::Parse(f),
        },
        SupportedOperation::Rotate => match spec_parse_rotate(fields) {
            Ok(p) => StepFailure::Invalid(p.invalid_reason()),
            Err(f) => StepFailure::Parse(f),
        },
        SupportedOperation::Crop => match spec_parse_crop(fields) {
            Ok(p) => StepFailure::Invalid(p.invalid_reason()),
            Err(f) => StepFailure::Parse(f),
        },
        SupportedOperation::Grayscale => StepFailure::UnsupportedOperation,
        SupportedOperation::Blur => match spec_parse_blur(fields) {
            Ok(p) => StepFailure::Invalid(p.invalid_reason()),
            Err(f) => StepFailure::Parse(f),
        },
        SupportedOperation::Flip => StepFailure::UnsupportedOperation,
        SupportedOperation::Flop => StepFailure::UnsupportedOperation,
        SupportedOperation::Convert => match spec_parse_convert(fields) {
            Ok(m) => StepFailure::Invalid(spec_convert_model_reason(m)),
            Err(f) => StepFailure::Parse(f),
        },
        SupportedOperation::AdjustBrightness => match spec_parse_adjust_brightness(fields) {
            Ok(p) => StepFailure::UnsupportedOperation,
            Err(f) => StepFailure::Parse(f),
        },
        SupportedOperation::AdjustContrast => match spec_parse_adjust_contrast(fields) {
            Ok(p) => StepFailure::UnsupportedOperation,
            Err(f) => StepFailure::Parse(f),
        },
        SupportedOperation::Sharpen => StepFailure::UnsupportedOperation,
        SupportedOperation::Thumbnail => match spec_parse_thumbnail(fields) {
            Ok(p) => StepFailure::Invalid(p.invalid_reason()),
            Err(f) => StepFailure::Parse(f),
        },
        SupportedOperation::Enlarge => match spec_parse_resize(fields) {
            Ok(p) => StepFailure::Invalid(p.invalid_reason()),
            Err(f) => StepFailure::Parse(f),
        },
        SupportedOperation::Extract => match spec_parse_extract(fields) {
            Ok(p) => StepFailure::Invalid(p.invalid_reason()),
            Err(f) => StepFailure::Parse(f),
        },
        SupportedOperation::Autorotate => StepFailure::UnsupportedOperation,
        SupportedOperation::Zoom => match spec_parse_zoom(fields) {
            Ok(p) => StepFailure::Invalid(p.invalid_reason()),
            Err(f) => StepFailure::Parse(f),
        },
        SupportedOperation::SmartCrop => match spec_parse_smart_crop(fields) {
            Ok(p) => StepFailure::Invalid(p.invalid_reason()),
            Err(f) => StepFailure::Parse(f),
        },
        SupportedOperation::Watermark => match spec_parse_watermark(fields) {
            Ok(m) => StepFailure::Invalid(spec_watermark_model_reason(m)),
            Err(f) => StepFailure::Parse(f),
        },
        SupportedOperation::WatermarkImage => match spec_parse_watermark_image(fields) {
            Ok(p) => StepFailure::Invalid(p.invalid_reason()),
            Err(f) => StepFailure::Parse(f),
        },
    }
}

/// The deterministic refusal of a validated step on an image of the given
/// shape: a target too large for memory, a conversion to an unrecognized
/// encoding, or a text watermark without a font.
pub open spec fn spec_step_det_refusal(
    op: SupportedOperation,
    fields: Seq<(String, ParamValue)>,
    s: ImageShape,
    font: bool,
) -> Option<TransformFailure> {
    match op {
        SupportedOperation::Resize => match spec_parse_resize(fields) {
            Ok(p) => if !dims_fit(p.width, p.height) {
                Some(TransformFailure::DimensionsTooLarge)
            } else {
                None
            },
            Err(_) => None,
        },
        SupportedOperation::Enlarge => match spec_parse_resize(fields) {
            Ok(p) => if !dims_fit(p.width, p.height) {
                Some(TransformFailure::DimensionsTooLarge)
            } else {
                None
            },
            Err(_) => None,
        },
        SupportedOperation::Thumbnail => match spec_parse_thumbnail(fields) {
            Ok(p) => if !dims_fit(p.width, p.height) {
                Some(TransformFailure::DimensionsTooLarge)
            } else {
                None
            },
            Err(_) => None,
        },
        SupportedOperation::Zoom => match spec_parse_zoom(fields) {
            Ok(p) => if !dims_fit(
                spec_zoom_dim(s.width, p.factor_milli),
                spec_zoom_dim(s.height, p.factor_milli),
            ) {
                Some(TransformFailure::DimensionsTooLarge)
            } else {
                None
            },
            Err(_) => None,
        },
        SupportedOperation::WatermarkImage => if !dims_fit(s.width / 4, s.height / 4) {
            Some(TransformFailure::DimensionsTooLarge)
        } else {
            None
        },
        SupportedOperation::Watermark => if !font {
            Some(TransformFailure::FontUnavailable)
        } else {
            None
        },
        _ => None,
    }
}

/// Whether the step's transform may still refuse after all deterministic
/// checks pass: only a conversion whose codecs are not guaranteed to
/// accept the image — a PNG conversion of an eight-bit image of positive
/// dimensions within the decode budget never is.
pub open spec fn spec_step_may_refuse(
    op: SupportedOperation,
    fields: Seq<(String, ParamValue)>,
    s: ImageShape,
) -> bool {
    match op {
        SupportedOperation::Convert => match spec_parse_convert(fields) {
            Ok(m) => match spec_format_of(m.0) {
                Some(f) => !(f == OutputFormat::Png && s.color != ColorKind::Other && s.width > 0
                    && s.height > 0 && spec_decode_budget_fits(s.width, s.height)),
                None => false,
            },
            Err(_) => false,
        },
        _ => false,
    }
}

/// What a successful step does to the image's shape.
pub open spec fn spec_step_shape_ok(
    op: SupportedOperation,
    fields: Seq<(String, ParamValue)>,
    s: ImageShape,
    s2: ImageShape,
) -> bool {
    match op {
        SupportedOperation::Resize => match spec_parse_resize(fields) {
            Ok(p) => s2 == (ImageShape { width: p.width, height: p.height, color: s.color }),
            Err(_) => true,
        },
        SupportedOperation::Rotate => match spec_parse_rotate(fields) {
            Ok(p) => s2 == spec_rotated_shape(p.degrees_milli, s),
            Err(_) => true,
        },
        SupportedOperation::Crop => match spec_parse_crop(fields) {
            Ok(p) => s2.color == s.color && (s2.width, s2.height) == spec_crop_size(
                s.width,
                s.height,
                p.x,
                p.y,
                p.width,
                p.height,
            ),
            Err(_) => true,
        },
        SupportedOperation::Grayscale => s2 == (ImageShape {
            width: s.width,
            height: s.height,
            color: ColorKind::L8,
        }),
        SupportedOperation::Blur => s2 == s,
        SupportedOperation::Flip => s2 == s,
        SupportedOperation::Flop => s2 == s,
        SupportedOperation::Convert => (s.width > 0 && s.height > 0 && spec_decode_budget_fits(
            s.width,
            s.height,
        )) ==> {
            &&& s2.width == s.width
            &&& s2.height == s.height
            &&& match spec_parse_convert(fields) {
                Ok(m) => spec_format_of(m.0) == Some(OutputFormat::Png) && s.color
                    != ColorKind::Other ==> s2 == s,
                Err(_) => true,
            }
        },
        SupportedOperation::AdjustBrightness => s2 == s,
        SupportedOperation::AdjustContrast => s2 == s,
        SupportedOperation::Sharpen => s2 == s,
        SupportedOperation::Thumbnail => match spec_parse_thumbnail(fields) {
            Ok(p) => {
                &&& s2.color == s.color
                &&& (s2.width, s2.height) == fit_dimensions(s.width, s.height, p.width, p.height)
                &&& 1 <= s2.width <= p.width
                &&& 1 <= s2.height <= p.height
            },
            Err(_) => true,
        },
        SupportedOperation::Enlarge => match spec_parse_resize(fields) {
            Ok(p) => if p.width <= s.width && p.height <= s.height {
                s2 == s
            } else {
                &&& s2.color == s.color
                &&& (s2.width, s2.height) == fit_dimensions(s.width, s.height, p.width, p.height)
                &&& 1 <= s2.width <= p.width
                &&& 1 <= s2.height <= p.height
            },
            Err(_) => true,
        },
        SupportedOperation::Extract => match spec_parse_extract(fields) {
            Ok(p) => {
                let rect = spec_extract_rect(s.width, s.height, p);
                s2.color == s.color && (s2.width, s2.height) == (rect.2, rect.3)
            },
            Err(_) => true,
        },
        SupportedOperation::Autorotate => s2 == s,
        SupportedOperation::Zoom => match spec_parse_zoom(fields) {
            Ok(p) => {
                let zw = spec_zoom_dim(s.width, p.factor_milli);
                let zh = spec_zoom_dim(s.height, p.factor_milli);
                &&& s2.color == s.color
                &&& (s2.width, s2.height) == if (zw, zh) == (s.width, s.height) {
                    (zw, zh)
                } else {
                    fit_dimensions(s.width, s.height, zw, zh)
                }
                &&& 1 <= s2.width <= zw
                &&& 1 <= s2.height <= zh
            },
            Err(_) => true,
        },
        SupportedOperation::SmartCrop => match spec_parse_smart_crop(fields) {
            Ok(p) => {
                &&& s2.color == s.color
                &&& s2.width == if p.width < s.width {
                    p.width
                } else {
                    s.width
                }
                &&& s2.height == if p.height < s.height {
                    p.height
                } else {
                    s.height
                }
            },
            Err(_) => true,
        },
        SupportedOperation::Watermark => s2 == (ImageShape {
            width: s.width,
            height: s.height,
            color: ColorKind::Rgba8,
        }),
        SupportedOperation::WatermarkImage => s2 == s,
    }
}

/// Whether a step is bound to fail on an image of this shape.
pub open spec fn spec_step_must_fail(st: PipelineOperationSpec, s: ImageShape, font: bool) -> bool {
    match spec_op_of_name(st.operation@) {
        None => true,
        Some(op) => !spec_step_ok(op, st.params.fields@) || spec_step_det_refusal(
            op,
            st.params.fields@,
            s,
            font,
        ) is Some,
    }
}

/// Whether a step can fail at all on an image of this shape.
pub open spec fn spec_step_may_fail(st: PipelineOperationSpec, s: ImageShape, font: bool) -> bool {
    ||| spec_step_must_fail(st, s, font)
    ||| match spec_op_of_name(st.operation@) {
        None => false,
        Some(op) => spec_step_may_refuse(op, st.params.fields@, s),
    }
}

/// Whether a step can succeed on an image of this shape.
pub open spec fn spec_step_can_succeed(st: PipelineOperationSpec, s: ImageShape, font: bool) -> bool {
    !spec_step_must_fail(st, s, font)
}

/// The exact reasons a step can fail with on an image of this shape.
pub open spec fn spec_step_fails_with(
    st: PipelineOperationSpec,
    s: ImageShape,
    font: bool,
    f: StepFailure,
) -> bool {
    match spec_op_of_name(st.operation@) {
        None => f == StepFailure::UnsupportedOperation,
        Some(op) => if !spec_step_ok(op, st.params.fields@) {
            f == spec_step_failure(op, st.params.fields@)
        } else {
            match spec_step_det_refusal(op, st.params.fields@, s, font) {
                Some(tf) => f == StepFailure::Transform(tf),
                None => spec_step_may_refuse(op, st.params.fields@, s) && f
                    == StepFailure::Transform(TransformFailure::EncodingFailed),
            }
        },
    }
}

/// What a successful step turns the image's shape into.
pub open spec fn spec_step_success_shape(st: PipelineOperationSpec, s: ImageShape, s2: ImageShape) -> bool {
    match spec_op_of_name(st.operation@) {
        None => false,
        Some(op) => spec_step_shape_ok(op, st.params.fields@, s, s2),
    }
}

/// One step's admissible transitions: it succeeds to a shape the shape
/// model allows, or it fails while the step swallows failures and the
/// image stays exactly as it was.
pub open spec fn spec_step_continues(
    st: PipelineOperationSpec,
    s: ImageShape,
    s2: ImageShape,
    font: bool,
) -> bool {
    ||| (spec_step_can_succeed(st, s, font) && spec_step_success_shape(st, s, s2))
    ||| (spec_step_may_fail(st, s, font) && st.ignore_failure && s2 == s)
}

/// A witness that a step list can run through a given series of shapes:
/// entry `j` is the shape before step `j`, and each step's transition is
/// admissible.
pub open spec fn spec_trace_ok(
    specs: Seq<PipelineOperationSpec>,
    trace: Seq<ImageShape>,
    font: bool,
) -> bool {
    &&& trace.len() == specs.len() + 1
    &&& forall|j: int|
        0 <= j < specs.len() ==> spec_step_continues(#[trigger] specs[j], trace[j], trace[j + 1], font)
}

/// The shapes a whole step list can take an image of shape `s0` to.
pub open spec fn spec_pipeline_shape_ok(
    specs: Seq<PipelineOperationSpec>,
    s0: ImageShape,
    s_end: ImageShape,
    font: bool,
) -> bool {
    exists|trace: Seq<ImageShape>|
        #[trigger] spec_trace_ok(specs, trace, font) && trace.first() == s0 && trace.last() == s_end
}

/// One step's admissible transitions at the level of image values: it
/// succeeds to an image whose shape the model allows, or it fails while
/// the step swallows failures and the working image stays exactly the
/// value it was.
pub open spec fn spec_step_continues_value(
    st: PipelineOperationSpec,
    v: ImageState,
    v2: ImageState,
    font: bool,
) -> bool {
    ||| (spec_step_can_succeed(st, v.shape(), font) && spec_step_success_shape(
        st,
        v.shape(),
        v2.shape(),
    ))
    ||| (spec_step_may_fail(st, v.shape(), font) && st.ignore_failure && v2 == v)
}

/// A witness that a step list can run through a given series of working
/// images: entry `j` is the image before step `j`, and an ignored failure
/// keeps the very value.
pub open spec fn spec_value_trace_ok(
    specs: Seq<PipelineOperationSpec>,
    trace: Seq<ImageState>,
    font: bool,
) -> bool {
    &&& trace.len() == specs.len() + 1
    &&& forall|j: int|
        0 <= j < specs.len() ==> spec_step_continues_value(#[trigger] specs[j], trace[j], trace[j + 1], font)
}

/// The image values a whole step list can take an input image to.
pub open spec fn spec_pipeline_value_ok(
    specs: Seq<PipelineOperationSpec>,
    img0: ImageState,
    img_end: ImageState,
    font: bool,
) -> bool {
    exists|trace: Seq<ImageState>|
        #[trigger] spec_value_trace_ok(specs, trace, font) && trace.first() == img0 && trace.last()
            == img_end
}

/// An admissible abort at step `k`: the steps before it can run, and step
/// `k` can fail with the given reason on the shape they leave behind.
pub open spec fn spec_abortable_at(
    specs: Seq<PipelineOperationSpec>,
    k: int,
    s0: ImageShape,
    font: bool,
    f: StepFailure,
) -> bool {
    exists|trace: Seq<ImageShape>|
        #[trigger] spec_trace_ok(specs.subrange(0, k), trace, font) && trace.first() == s0
            && spec_step_fails_with(specs[k], trace.last(), font, f)
}

fn step_resize(
    image: &ImageState,
    st: &PipelineOperationSpec,
    font: Option<&rusttype::Font<'static>>,
) -> (r: Result<ImageState, StepFailure>)
    requires
        spec_op_of_name(st.operation@) == Some(SupportedOperation::Resize),
    ensures
        match r {
            Ok(out) => spec_step_can_succeed(*st, image.shape(), font is Some)
                && spec_step_success_shape(*st, image.shape(), out.shape()),
            Err(f) => spec_step_fails_with(*st, image.shape(), font is Some, f),
        },
        spec_step_must_fail(*st, image.shape(), font is Some) ==> r is Err,
{
    let p = match parse_resize(&st.params) {
        Ok(p) => p,
        Err(f) => {
            return Err(StepFailure::Parse(f));
        },
    };
    if let Err(e) = p.validate() {
        return Err(StepFailure::Invalid(e));
    }
    if !dims_fit_check(p.width, p.height) {
        return Err(StepFailure::Transform(TransformFailure::DimensionsTooLarge));
    }
    Ok(resize(img_clone(image), &p))
}

fn step_rotate(
    image: &ImageState,
    st: &PipelineOperationSpec,
    font: Option<&rusttype::Font<'static>>,
) -> (r: Result<ImageState, StepFailure>)
    requires
        spec_op_of_name(st.operation@) == Some(SupportedOperation::Rotate),
    ensures
        match r {
            Ok(out) => spec_step_can_succeed(*st, image.shape(), font is Some)
                && spec_step_success_shape(*st, image.shape(), out.shape()),
            Err(f) => spec_step_fails_with(*st, image.shape(), font is Some, f),
        },
        spec_step_must_fail(*st, image.shape(), font is Some) ==> r is Err,
{
    let p = match parse_rotate(&st.params) {
        Ok(p) => p,
        Err(f) => {
            return Err(StepFailure::Parse(f));
        },
    };
    if let Err(e) = p.validate() {
        return Err(StepFailure::Invalid(e));
    }
    Ok(rotate(img_clone(image), &p))
}

fn step_crop(
    image: &ImageState,
    st: &PipelineOperationSpec,
    font: Option<&rusttype::Font<'static>>,
) -> (r: Result<ImageState, StepFailure>)
    requires
        spec_op_of_name(st.operation@) == Some(SupportedOperation::Crop),
    ensures
        match r {
            Ok(out) => spec_step_can_succeed(*st, image.shape(), font is Some)
                && spec_step_success_shape(*st, image.shape(), out.shape()),
            Err(f) => spec_step_fails_with(*st, image.shape(), font is Some, f),
        },
        spec_step_must_fail(*st, image.shape(), font is Some) ==> r is Err,
{
    let p = match parse_crop(&st.params) {
        Ok(p) => p,
        Err(f) => {
            return Err(StepFailure::Parse(f));
        },
    };
    if let Err(e) = p.validate() {
        return Err(StepFailure::Invalid(e));
    }
    Ok(crop(img_clone(image), &p))
}

fn step_grayscale(
    image: &ImageState,
    st: &PipelineOperationSpec,
    font: Option<&rusttype::Font<'static>>,
) -> (r: Result<ImageState, StepFailure>)
    requires
        spec_op_of_name(st.operation@) == Some(SupportedOperation::Grayscale),
    ensures
        match r {
            Ok(out) => spec_step_can_succeed(*st, image.shape(), font is Some)
                && spec_step_success_shape(*st, image.shape(), out.shape()),
            Err(f) => spec_step_fails_with(*st, image.shape(), font is Some, f),
        },
        spec_step_must_fail(*st, image.shape(), font is Some) ==> r is Err,
{
    Ok(grayscale(img_clone(image)))
}

fn step_blur(
    image: &ImageState,
    st: &PipelineOperationSpec,
    font: Option<&rusttype::Font<'static>>,
) -> (r: Result<ImageState, StepFailure>)
    requires
        spec_op_of_name(st.operation@) == Some(SupportedOperation::Blur),
    ensures
        match r {
            Ok(out) => spec_step_can_succeed(*st, image.shape(), font is Some)
                && spec_step_success_shape(*st, image.shape(), out.shape()),
            Err(f) => spec_step_fails_with(*st, image.shape(), font is Some, f),
        },
        spec_step_must_fail(*st, image.shape(), font is Some) ==> r is Err,
{
    let p = match parse_blur(&st.params) {
        Ok(p) => p,
        Err(f) => {
            return Err(StepFailure::Parse(f));
        },
    };
    if let Err(e) = p.validate() {
        return Err(StepFailure::Invalid(e));
    }
    Ok(blur(img_clone(image), &p))
}

fn step_flip(
    image: &ImageState,
    st: &PipelineOperationSpec,
    font: Option<&rusttype::Font<'static>>,
) -> (r: Result<ImageState, StepFailure>)
    requires
        spec_op_of_name(st.operation@) == Some(SupportedOperation::Flip),
    ensures
        match r {
            Ok(out) => spec_step_can_succeed(*st, image.shape(), font is Some)
                && spec_step_success_shape(*st, image.shape(), out.shape()),
            Err(f) => spec_step_fails_with(*st, image.shape(), font is Some, f),
        },
        spec_step_must_fail(*st, image.shape(), font is Some) ==> r is Err,
{
    Ok(flip_vertical(img_clone(image)))
}

fn step_flop(
    image: &ImageState,
    st: &PipelineOperationSpec,
    font: Option<&rusttype::Font<'static>>,
) -> (r: Result<ImageState, StepFailure>)
    requires
        spec_op_of_name(st.operation@) == Some(SupportedOperation::Flop),
    ensures
        match r {
            Ok(out) => spec_step_can_succeed(*st, image.shape(), font is Some)
                && spec_step_success_shape(*st, image.shape(), out.shape()),
            Err(f) => spec_step_fails_with(*st, image.shape(), font is Some, f),
        },
        spec_step_must_fail(*st, image.shape(), font is Some) ==> r is Err,
{
    Ok(flip_horizontal(img_clone(image)))
}

fn step_convert(
    image: &ImageState,
    st: &PipelineOperationSpec,
    font: Option<&rusttype::Font<'static>>,
) -> (r: Result<ImageState, StepFailure>)
    requires
        spec_op_of_name(st.operation@) == Some(SupportedOperation::Convert),
    ensures
        match r {
            Ok(out) => spec_step_can_succeed(*st, image.shape(), font is Some)
                && spec_step_success_shape(*st, image.shape(), out.shape()),
            Err(f) => spec_step_fails_with(*st, image.shape(), font is Some, f),
        },
        spec_step_must_fail(*st, image.shape(), font is Some) ==> r is Err,
{
    let p = match parse_convert(&st.params) {
        Ok(p) => p,
        Err(f) => {
            return Err(StepFailure::Parse(f));
        },
    };
    if let Err(e) = p.validate() {
        return Err(StepFailure::Invalid(e));
    }
    match convert_format(img_clone(image), &p) {
        Ok(out) => Ok(out),
        Err(_) => Err(StepFailure::Transform(TransformFailure::EncodingFailed)),
    }
}

fn step_adjust_brightness(
    image: &ImageState,
    st: &PipelineOperationSpec,
    font: Option<&rusttype::Font<'static>>,
) -> (r: Result<ImageState, StepFailure>)
    requires
        spec_op_of_name(st.operation@) == Some(SupportedOperation::AdjustBrightness),
    ensures
        match r {
            Ok(out) => spec_step_can_succeed(*st, image.shape(), font is Some)
                && spec_step_success_shape(*st, image.shape(), out.shape()),
            Err(f) => spec_step_fails_with(*st, image.shape(), font is Some, f),
        },
        spec_step_must_fail(*st, image.shape(), font is Some) ==> r is Err,
{
    let p = match parse_adjust_brightness(&st.params) {
        Ok(p) => p,
        Err(f) => {
            return Err(StepFailure::Parse(f));
        },
    };
    Ok(adjust_brightness(img_clone(image), p.value))
}

fn step_adjust_contrast(
    image: &ImageState,
    st: &PipelineOperationSpec,
    font: Option<&rusttype::Font<'static>>,
) -> (r: Result<ImageState, StepFailure>)
    requires
        spec_op_of_name(st.operation@) == Some(SupportedOperation::AdjustContrast),
    ensures
        match r {
            Ok(out) => spec_step_can_succeed(*st, image.shape(), font is Some)
                && spec_step_success_shape(*st, image.shape(), out.shape()),
            Err(f) => spec_step_fails_with(*st, image.shape(), font is Some, f),
        },
        spec_step_must_fail(*st, image.shape(), font is Some) ==> r is Err,
{
    let p = match parse_adjust_contrast(&st.params) {
        Ok(p) => p,
        Err(f) => {
            return Err(StepFailure::Parse(f));
        },
    };
    Ok(adjust_contrast(img_clone(image), p.value_milli))
}

fn step_sharpen(
    image: &ImageState,
    st: &PipelineOperationSpec,
    font: Option<&rusttype::Font<'static>>,
) -> (r: Result<ImageState, StepFailure>)
    requires
        spec_op_of_name(st.operation@) == Some(SupportedOperation::Sharpen),
    ensures
        match r {
            Ok(out) => spec_step_can_succeed(*st, image.shape(), font is Some)
                && spec_step_success_shape(*st, image.shape(), out.shape()),
            Err(f) => spec_step_fails_with(*st, image.shape(), font is Some, f),
        },
        spec_step_must_fail(*st, image.shape(), font is Some) ==> r is Err,
{
    Ok(sharpen(img_clone(image)))
}

fn step_thumbnail(
    image: &ImageState,
    st: &PipelineOperationSpec,
    font: Option<&rusttype::Font<'static>>,
) -> (r: Result<ImageState, StepFailure>)
    requires
        spec_op_of_name(st.operation@) == Some(SupportedOperation::Thumbnail),
    ensures
        match r {
            Ok(out) => spec_step_can_succeed(*st, image.shape(), font is Some)
                && spec_step_success_shape(*st, image.shape(), out.shape()),
            Err(f) => spec_step_fails_with(*st, image.shape(), font is Some, f),
        },
        spec_step_must_fail(*st, image.shape(), font is Some) ==> r is Err,
{
    let p = match parse_thumbnail(&st.params) {
        Ok(p) => p,
        Err(f) => {
            return Err(StepFailure::Parse(f));
        },
    };
    if let Err(e) = p.validate() {
        return Err(StepFailure::Invalid(e));
    }
    if !dims_fit_check(p.width, p.height) {
        return Err(StepFailure::Transform(TransformFailure::DimensionsTooLarge));
    }
    Ok(thumbnail(img_clone(image), &p))
}

fn step_enlarge(
    image: &ImageState,
    st: &PipelineOperationSpec,
    font: Option<&rusttype::Font<'static>>,
) -> (r: Result<ImageState, StepFailure>)
    requires
        spec_op_of_name(st.operation@) == Some(SupportedOperation::Enlarge),
    ensures
        match r {
            Ok(out) => spec_step_can_succeed(*st, image.shape(), font is Some)
                && spec_step_success_shape(*st, image.shape(), out.shape()),
            Err(f) => spec_step_fails_with(*st, image.shape(), font is Some, f),
        },
        spec_step_must_fail(*st, image.shape(), font is Some) ==> r is Err,
{
    let p = match parse_resize(&st.params) {
        Ok(p) => p,
        Err(f) => {
            return Err(StepFailure::Parse(f));
        },
    };
    if let Err(e) = p.validate() {
        return Err(StepFailure::Invalid(e));
    }
    if !dims_fit_check(p.width, p.height) {
        return Err(StepFailure::Transform(TransformFailure::DimensionsTooLarge));
    }
    Ok(enlarge(img_clone(image), &p))
}

fn step_extract(
    image: &ImageState,
    st: &PipelineOperationSpec,
    font: Option<&rusttype::Font<'static>>,
) -> (r: Result<ImageState, StepFailure>)
    requires
        spec_op_of_name(st.operation@) == Some(SupportedOperation::Extract),
    ensures
        match r {
            Ok(out) => spec_step_can_succeed(*st, image.shape(), font is Some)
                && spec_step_success_shape(*st, image.shape(), out.shape()),
            Err(f) => spec_step_fails_with(*st, image.shape(), font is Some, f),
        },
        spec_step_must_fail(*st, image.shape(), font is Some) ==> r is Err,
{
    let p = match parse_extract(&st.params) {
        Ok(p) => p,
        Err(f) => {
            return Err(StepFailure::Parse(f));
        },
    };
    if let Err(e) = p.validate() {
        return Err(StepFailure::Invalid(e));
    }
    Ok(extract(img_clone(image), &p))
}

fn step_autorotate(
    image: &ImageState,
    st: &PipelineOperationSpec,
    font: Option<&rusttype::Font<'static>>,
) -> (r: Result<ImageState, StepFailure>)
    requires
        spec_op_of_name(st.operation@) == Some(SupportedOperation::Autorotate),
    ensures
        match r {
            Ok(out) => spec_step_can_succeed(*st, image.shape(), font is Some)
                && spec_step_success_shape(*st, image.shape(), out.shape()),
            Err(f) => spec_step_fails_with(*st, image.shape(), font is Some, f),
        },
        spec_step_must_fail(*st, image.shape(), font is Some) ==> r is Err,
{
    Ok(autorotate(img_clone(image)))
}

fn step_zoom(
    image: &ImageState,
    st: &PipelineOperationSpec,
    font: Option<&rusttype::Font<'static>>,
) -> (r: Result<ImageState, StepFailure>)
    requires
        spec_op_of_name(st.operation@) == Some(SupportedOperation::Zoom),
    ensures
        match r {
            Ok(out) => spec_step_can_succeed(*st, image.shape(), font is Some)
                && spec_step_success_shape(*st, image.shape(), out.shape()),
            Err(f) => spec_step_fails_with(*st, image.shape(), font is Some, f),
        },
        spec_step_must_fail(*st, image.shape(), font is Some) ==> r is Err,
{
    let p = match parse_zoom(&st.params) {
        Ok(p) => p,
        Err(f) => {
            return Err(StepFailure::Parse(f));
        },
    };
    if let Err(e) = p.validate() {
        return Err(StepFailure::Invalid(e));
    }
    let (iw, ih) = image.dimensions();
    let zw = zoom_dim(iw, p.factor_milli);
    let zh = zoom_dim(ih, p.factor_milli);
    if !dims_fit_check(zw, zh) {
        return Err(StepFailure::Transform(TransformFailure::DimensionsTooLarge));
    }
    Ok(zoom(img_clone(image), &p))
}

fn step_smart_crop(
    image: &ImageState,
    st: &PipelineOperationSpec,
    font: Option<&rusttype::Font<'static>>,
) -> (r: Result<ImageState, StepFailure>)
    requires
        spec_op_of_name(st.operation@) == Some(SupportedOperation::SmartCrop),
    ensures
        match r {
            Ok(out) => spec_step_can_succeed(*st, image.shape(), font is Some)
                && spec_step_success_shape(*st, image.shape(), out.shape()),
            Err(f) => spec_step_fails_with(*st, image.shape(), font is Some, f),
        },
        spec_step_must_fail(*st, image.shape(), font is Some) ==> r is Err,
{
    let p = match parse_smart_crop(&st.params) {
        Ok(p) => p,
        Err(f) => {
            return Err(StepFailure::Parse(f));
        },
    };
    if let Err(e) = p.validate() {
        return Err(StepFailure::Invalid(e));
    }
    Ok(smart_crop(img_clone(image), &p))
}

fn step_watermark(
    image: &ImageState,
    st: &PipelineOperationSpec,
    font: Option<&rusttype::Font<'static>>,
) -> (r: Result<ImageState, StepFailure>)
    requires
        spec_op_of_name(st.operation@) == Some(SupportedOperation::Watermark),
    ensures
        match r {
            Ok(out) => spec_step_can_succeed(*st, image.shape(), font is Some)
                && spec_step_success_shape(*st, image.shape(), out.shape()),
            Err(f) => spec_step_fails_with(*st, image.shape(), font is Some, f),
        },
        spec_step_must_fail(*st, image.shape(), font is Some) ==> r is Err,
{
    let p = match parse_watermark(&st.params) {
        Ok(p) => p,
        Err(f) => {
            return Err(StepFailure::Parse(f));
        },
    };
    if let Err(e) = p.validate() {
        return Err(StepFailure::Invalid(e));
    }
    match font {
        None => Err(StepFailure::Transform(TransformFailure::FontUnavailable)),
        Some(f) => Ok(watermark(image, &p, f)),
    }
}

fn step_watermark_image(
    image: &ImageState,
    st: &PipelineOperationSpec,
    font: Option<&rusttype::Font<'static>>,
) -> (r: Result<ImageState, StepFailure>)
    requires
        spec_op_of_name(st.operation@) == Some(SupportedOperation::WatermarkImage),
    ensures
        match r {
            Ok(out) => spec_step_can_succeed(*st, image.shape(), font is Some)
                && spec_step_success_shape(*st, image.shape(), out.shape()),
            Err(f) => spec_step_fails_with(*st, image.shape(), font is Some, f),
        },
        spec_step_must_fail(*st, image.shape(), font is Some) ==> r is Err,
{
    let p = match parse_watermark_image(&st.params) {
        Ok(p) => p,
        Err(f) => {
            return Err(StepFailure::Parse(f));
        },
    };
    if let Err(e) = p.validate() {
        return Err(StepFailure::Invalid(e));
    }
    let (iw, ih) = image.dimensions();
    if !dims_fit_check(iw / 4, ih / 4) {
        return Err(StepFailure::Transform(TransformFailure::DimensionsTooLarge));
    }
    Ok(watermark_image(img_clone(image), &p))
}

/// Executes one pipeline step on the image: registry lookup, parameter
/// parsing, validation, then the transform; the image itself is left
/// untouched on failure.
pub fn execute_single_operation(
    image: &ImageState,
    st: &PipelineOperationSpec,
    font: Option<&rusttype::Font<'static>>,
) -> (r: Result<ImageState, StepFailure>)
    ensures
        match r {
            Ok(out) => spec_step_can_succeed(*st, image.shape(), font is Some)
                && spec_step_success_shape(*st, image.shape(), out.shape()),
            Err(f) => spec_step_fails_with(*st, image.shape(), font is Some, f),
        },
        spec_step_must_fail(*st, image.shape(), font is Some) ==> r is Err,
{
    let op = match op_from_name(st.operation.as_str()) {
        Some(op) => op,
        None => {
            return Err(StepFailure::UnsupportedOperation);
        },
    };
    match op {
        SupportedOperation::Resize => step_resize(image, st, font),
        SupportedOperation::Rotate => step_rotate(image, st, font),
        SupportedOperation::Crop => step_crop(image, st, font),
        SupportedOperation::Grayscale => step_grayscale(image, st, font),
        SupportedOperation::Blur => step_blur(image, st, font),
        SupportedOperation::Flip => step_flip(image, st, font),
        SupportedOperation::Flop => step_flop(image, st, font),
        SupportedOperation::Convert => step_convert(image, st, font),
        SupportedOperation::AdjustBrightness => step_adjust_brightness(image, st, font),
        SupportedOperation::AdjustContrast => step_adjust_contrast(image, st, font),
        SupportedOperation::Sharpen => step_sharpen(image, st, font),
        SupportedOperation::Thumbnail => step_thumbnail(image, st, font),
        SupportedOperation::Enlarge => step_enlarge(image, st, font),
        SupportedOperation::Extract => step_extract(image, st, font),
        SupportedOperation::Autorotate => step_autorotate(image, st, font),
        SupportedOperation::Zoom => step_zoom(image, st, font),
        SupportedOperation::SmartCrop => step_smart_crop(image, st, font),
        SupportedOperation::Watermark => step_watermark(image, st, font),
        SupportedOperation::WatermarkImage => step_watermark_image(image, st, font),
    }
}

/// Executes a sequence of image operations on the given image.
///
/// An empty pipeline returns the input image unchanged. Each step's failure
/// is swallowed when the step asks for that — the pipeline continues with
/// the image from before the step — and aborts the pipeline otherwise,
/// returning only the terminal error with the failing step's index and
/// name. On success the final image's shape is one the shape model allows
/// for the whole list; when every step fails and swallows its failure, the
/// input image comes back unchanged.
pub fn execute_pipeline(
    image: ImageState,
    specs: &Vec<PipelineOperationSpec>,
    font: Option<&rusttype::Font<'static>>,
) -> (r: Result<ImageState, PipelineError>)
    ensures
        r matches Ok(out) ==> spec_pipeline_shape_ok(specs@, image.shape(), out.shape(), font is Some),
        r matches Ok(out) ==> spec_pipeline_value_ok(specs@, image, out, font is Some),
        r matches Err(e) ==> {
            &&& e.step < specs@.len()
            &&& !specs@[e.step as int].ignore_failure
            &&& e.operation@ == specs@[e.step as int].operation@
            &&& spec_abortable_at(specs@, e.step as int, image.shape(), font is Some, e.failure)
        },
        specs@.len() == 0 ==> r == Ok::<ImageState, PipelineError>(image),
        (forall|j: int| 0 <= j < specs@.len() ==> specs@[j].ignore_failure) ==> r is Ok,
        (forall|j: int|
            0 <= j < specs@.len() ==> !spec_step_can_succeed(specs@[j], image.shape(), font is Some)
                && specs@[j].ignore_failure) ==> r == Ok::<ImageState, PipelineError>(image),
{
    let ghost s0 = image.shape();
    let mut img = img_clone(&image);
    let ghost mut untouched = true;
    let ghost mut tr: Seq<ImageShape> = seq![s0];
    let ghost mut vtr: Seq<ImageState> = seq![image];
    let mut i: usize = 0;
    while i < specs.len()
        invariant
            0 <= i <= specs@.len(),
            tr.len() == i + 1,
            tr.first() == s0,
            tr.last() == img.shape(),
            spec_trace_ok(specs@.subrange(0, i as int), tr, font is Some),
            vtr.len() == i + 1,
            vtr.first() == image,
            vtr.last() == img,
            spec_value_trace_ok(specs@.subrange(0, i as int), vtr, font is Some),
            untouched ==> img == image,
            untouched ==> img.shape() == s0,
            image.shape() == s0,
            untouched || exists|j: int|
                0 <= j < i && spec_step_can_succeed(#[trigger] specs@[j], s0, font is Some),
        decreases specs@.len() - i,
    {
        let step = &specs[i];
        match execute_single_operation(&img, step, font) {
            Ok(next) => {
                proof {
                    let ghost prev = tr;
                    let ghost vprev = vtr;
                    tr = tr.push(next.shape());
                    vtr = vtr.push(next);
                    assert forall|j: int| 0 <= j < i + 1 implies spec_step_continues(
                        specs@.subrange(0, i as int + 1)[j],
                        tr[j],
                        #[trigger] tr[j + 1],
                        font is Some,
                    ) by {
                        if j < i {
                            assert(spec_step_continues(
                                specs@.subrange(0, i as int)[j],
                                prev[j],
                                prev[j + 1],
                                font is Some,
                            ));
                            assert(specs@.subrange(0, i as int)[j] == specs@.subrange(
                                0,
                                i as int + 1,
                            )[j]);
                        } else {
                            assert(tr[j] == img.shape());
                            assert(tr[j + 1] == next.shape());
                            assert(spec_step_continues(
                                specs@[i as int],
                                img.shape(),
                                next.shape(),
                                font is Some,
                            ));
                        }
                    }
                    assert forall|j: int| 0 <= j < i + 1 implies spec_step_continues_value(
                        #[trigger] specs@.subrange(0, i as int + 1)[j],
                        vtr[j],
                        vtr[j + 1],
                        font is Some,
                    ) by {
                        if j < i {
                            assert(spec_step_continues_value(
                                specs@.subrange(0, i as int)[j],
                                vprev[j],
                                vprev[j + 1],
                                font is Some,
                            ));
                            assert(specs@.subrange(0, i as int)[j] == specs@.subrange(
                                0,
                                i as int + 1,
                            )[j]);
                        } else {
                            assert(vtr[j] == img);
                            assert(vtr[j + 1] == next);
                            assert(spec_step_continues_value(
                                specs@[i as int],
                                img,
                                next,
                                font is Some,
                            ));
                        }
                    }
                    if untouched {
                        assert(spec_step_can_succeed(specs@[i as int], s0, font is Some));
                    }
                    untouched = false;
                }
                img = next;
            },
            Err(f) => {
                if step.ignore_failure {
                    proof {
                        let ghost prev = tr;
                        let ghost vprev = vtr;
                        tr = tr.push(img.shape());
                        vtr = vtr.push(img);
                        assert(spec_step_may_fail(specs@[i as int], img.shape(), font is Some));
                        assert forall|j: int| 0 <= j < i + 1 implies spec_step_continues(
                            specs@.subrange(0, i as int + 1)[j],
                            tr[j],
                            #[trigger] tr[j + 1],
                            font is Some,
                        ) by {
                            if j < i {
                                assert(spec_step_continues(
                                    specs@.subrange(0, i as int)[j],
                                    prev[j],
                                    prev[j + 1],
                                    font is Some,
                                ));
                                assert(specs@.subrange(0, i as int)[j] == specs@.subrange(
                                    0,
                                    i as int + 1,
                                )[j]);
                            } else {
                                assert(spec_step_continues(
                                    specs@[i as int],
                                    img.shape(),
                                    img.shape(),
                                    font is Some,
                                ));
                            }
                        }
                        assert forall|j: int| 0 <= j < i + 1 implies spec_step_continues_value(
                            #[trigger] specs@.subrange(0, i as int + 1)[j],
                            vtr[j],
                            vtr[j + 1],
                            font is Some,
                        ) by {
                            if j < i {
                                assert(spec_step_continues_value(
                                    specs@.subrange(0, i as int)[j],
                                    vprev[j],
                                    vprev[j + 1],
                                    font is Some,
                                ));
                                assert(specs@.subrange(0, i as int)[j] == specs@.subrange(
                                    0,
                                    i as int + 1,
                                )[j]);
                            } else {
                                assert(vtr[j] == img);
                                assert(vtr[j + 1] == img);
                                assert(spec_step_continues_value(
                                    specs@[i as int],
                                    img,
                                    img,
                                    font is Some,
                                ));
                            }
                        }
                    }
                } else {
                    let e = PipelineError { step: i, operation: step.operation.clone(), failure: f };
                    proof {
                        assert(e.step == i && e.failure == f);
                        assert(spec_step_fails_with(specs@[e.step as int], tr.last(), font is Some, e.failure));
                        assert(spec_abortable_at(specs@, e.step as int, s0, font is Some, e.failure));
                    }
                    return Err(e);
                }
            },
        }
        i = i + 1;
    }
    proof {
        assert(specs@.subrange(0, specs@.len() as int) =~= specs@);
        assert(spec_pipeline_shape_ok(specs@, s0, img.shape(), font is Some));
        assert(spec_pipeline_value_ok(specs@, image, img, font is Some));
    }
    Ok(img)
}

/// The isolation law of swallowed failures at value level: a step that
/// cannot succeed on the working image leaves it exactly the value it was
/// — not merely the shape — whatever the step is.
pub proof fn lemma_ignored_failure_keeps_image(
    st: PipelineOperationSpec,
    v: ImageState,
    v2: ImageState,
    font: bool,
)
    requires
        spec_step_continues_value(st, v, v2, font),
        !spec_step_can_succeed(st, v.shape(), font),
    ensures
        v2 == v,
{
}

/// The isolation law of swallowed failures: a step that cannot succeed on
/// an image of this shape leaves the shape exactly as it was, whatever the
/// step is.
pub proof fn lemma_ignored_failure_is_isolated(
    st: PipelineOperationSpec,
    s: ImageShape,
    s2: ImageShape,
    font: bool,
)
    requires
        spec_step_continues(st, s, s2, font),
        !spec_step_can_succeed(st, s, font),
    ensures
        s2 == s,
{
}

/// The abort law: when the first step is bound to fail on the input image
/// and does not swallow its failure, no successful pipeline outcome
/// exists — together with the executor's contract, such a pipeline returns
/// the terminal error and no image.
pub proof fn lemma_failing_first_step_aborts(
    specs: Seq<PipelineOperationSpec>,
    s0: ImageShape,
    s_end: ImageShape,
    font: bool,
)
    requires
        specs.len() >= 1,
        spec_step_must_fail(specs[0], s0, font),
        !specs[0].ignore_failure,
    ensures
        !spec_pipeline_shape_ok(specs, s0, s_end, font),
{
    if spec_pipeline_shape_ok(specs, s0, s_end, font) {
        let trace = choose|trace: Seq<ImageShape>|
            #[trigger] spec_trace_ok(specs, trace, font) && trace.first() == s0 && trace.last()
                == s_end;
        assert(spec_step_continues(specs[0], trace[0], trace[1], font));
    }
}

/// The sequential-composition law: on any input image, a pipeline of a
/// valid resize to `(W, H)` followed by a grayscale conversion can only
/// produce an image of exactly `(W, H)` in single-channel eight-bit
/// colour.
pub proof fn lemma_sequential_composition(
    specs: Seq<PipelineOperationSpec>,
    s0: ImageShape,
    s_end: ImageShape,
    font: bool,
    p: crate::params::ResizeParams,
)
    requires
        specs.len() == 2,
        spec_op_of_name(specs[0].operation@) == Some(SupportedOperation::Resize),
        spec_parse_resize(specs[0].params.fields@) == Ok::<crate::params::ResizeParams, ParamField>(p),
        p.valid(),
        dims_fit(p.width, p.height),
        spec_op_of_name(specs[1].operation@) == Some(SupportedOperation::Grayscale),
        spec_pipeline_shape_ok(specs, s0, s_end, font),
    ensures
        s_end == (ImageShape { width: p.width, height: p.height, color: ColorKind::L8 }),
{
    let trace = choose|trace: Seq<ImageShape>|
        #[trigger] spec_trace_ok(specs, trace, font) && trace.first() == s0 && trace.last() == s_end;
    assert(spec_step_continues(specs[0], trace[0], trace[1], font));
    assert(!spec_step_must_fail(specs[0], trace[0], font));
    assert(!spec_step_may_fail(specs[0], trace[0], font));
    assert(trace[1] == (ImageShape { width: p.width, height: p.height, color: trace[0].color }));
    assert(spec_step_continues(specs[1], trace[1], trace[2], font));
    assert(!spec_step_may_fail(specs[1], trace[1], font));
    assert(trace[2] == (ImageShape { width: trace[1].width, height: trace[1].height, color: ColorKind::L8 }));
    assert(s_end == trace[2]);
}

/// The other half of the sequential-composition law: such a pipeline
/// cannot abort at any step.
pub proof fn lemma_sequential_composition_completes(
    specs: Seq<PipelineOperationSpec>,
    s0: ImageShape,
    font: bool,
    p: crate::params::ResizeParams,
)
    requires
        specs.len() == 2,
        spec_op_of_name(specs[0].operation@) == Some(SupportedOperation::Resize),
        spec_parse_resize(specs[0].params.fields@) == Ok::<crate::params::ResizeParams, ParamField>(p),
        p.valid(),
        dims_fit(p.width, p.height),
        spec_op_of_name(specs[1].operation@) == Some(SupportedOperation::Grayscale),
    ensures
        forall|k: int, f: StepFailure| 0 <= k < 2 ==> !spec_abortable_at(specs, k, s0, font, f),
{
    assert forall|k: int, f: StepFailure| 0 <= k < 2 implies !spec_abortable_at(
        specs,
        k,
        s0,
        font,
        f,
    ) by {
        if spec_abortable_at(specs, k, s0, font, f) {
            let trace = choose|trace: Seq<ImageShape>|
                #[trigger] spec_trace_ok(specs.subrange(0, k), trace, font) && trace.first() == s0
                    && spec_step_fails_with(specs[k], trace.last(), font, f);
            if k == 0 {
                assert(!spec_step_may_fail(specs[0], trace.last(), font));
            } else {
                assert(!spec_step_may_fail(specs[1], trace.last(), font));
            }
        }
    }
}

} // verus!

