//! Running a whole pipeline over image bytes.
//!
//! [`render_pipeline`] is the byte-level composition: sniff the input's
//! encoding, decode, execute the steps, resolve the output encoding from
//! the original step list, and encode. [`process_image`] validates a typed
//! parameter structure on its own.

use vstd::prelude::*;

use crate::errors::{AppError, ImageError, PipelineError, StepFailure};
use crate::formats::{determine_output_format, spec_resolve_format, OutputFormat};
use crate::image_state::{
    decoded_image, img_decode, img_encode, img_sniff_format, sniffed_format,
    spec_decode_budget_fits, ColorKind, ImageShape,
};
use crate::params::Validate;
use crate::pipeline_executor::{execute_pipeline, spec_abortable_at, spec_pipeline_shape_ok};
use crate::pipeline_types::PipelineOperationSpec;

verus! {

/// Validates a typed parameter structure, surfacing its first violated
/// constraint.
pub fn process_image<T: Validate>(params: T) -> (r: Result<(), ImageError>)
    ensures
        r is Ok <==> params.valid(),
        !params.valid() ==> r == Err::<(), ImageError>(params.invalid_reason()),
{
    params.validate()
}

/// When the pipeline is guaranteed to render: the bytes sniff and decode,
/// every step swallows its own failure, the resolved output encoding is
/// PNG, and every image shape the step list can produce is an eight-bit
/// layout of positive dimensions within the decode budget — so the codecs
/// cannot refuse.
pub open spec fn spec_render_guaranteed(
    bytes: Seq<u8>,
    specs: Seq<PipelineOperationSpec>,
    font: bool,
) -> bool {
    &&& decoded_image(bytes) is Some
    &&& sniffed_format(bytes) is Some
    &&& forall|j: int| 0 <= j < specs.len() ==> specs[j].ignore_failure
    &&& spec_resolve_format(specs, sniffed_format(bytes)->0) == OutputFormat::Png
    &&& forall|mid: ImageShape|
        #[trigger] spec_pipeline_shape_ok(specs, decoded_image(bytes)->0, mid, font) ==> (
        mid.color != ColorKind::Other && mid.width > 0 && mid.height > 0
            && spec_decode_budget_fits(mid.width, mid.height))
}

/// Runs a pipeline over encoded image bytes: the bytes must sniff as a
/// recognized encoding and decode; the steps are executed under the
/// per-step failure policy; the output encoding is resolved from the
/// original step list — the last recognizable `convert` wins, the input's
/// own encoding otherwise — and the final image is encoded into it.
///
/// Errors are classified as the pipeline errors are: an unknown operation
/// name is an invalid operation, bad parameters are a bad request, and a
/// transform or codec refusal is an image processing error.
pub fn render_pipeline(
    bytes: &Vec<u8>,
    specs: &Vec<PipelineOperationSpec>,
    font: Option<&rusttype::Font<'static>>,
) -> (r: Result<(Vec<u8>, OutputFormat), AppError>)
    ensures
        sniffed_format(bytes@) is None <==> (r matches Err(e) && e is UnsupportedMediaType),
        r is Ok ==> decoded_image(bytes@) is Some,
        r matches Ok(out) ==> {
            &&& out.1 == spec_resolve_format(specs@, sniffed_format(bytes@)->0)
            &&& exists|mid: ImageShape|
                #[trigger] spec_pipeline_shape_ok(
                    specs@,
                    decoded_image(bytes@)->0,
                    mid,
                    font is Some,
                ) && ((mid.width > 0 && mid.height > 0 && spec_decode_budget_fits(
                    mid.width,
                    mid.height,
                )) ==> (decoded_image(out.0@) is Some && decoded_image(out.0@)->0.width == mid.width
                    && decoded_image(out.0@)->0.height == mid.height))
        },
        r matches Err(e) && e is InvalidOperation ==> exists|k: int|
            0 <= k < specs@.len() && #[trigger] spec_abortable_at(
                specs@,
                k,
                decoded_image(bytes@)->0,
                font is Some,
                StepFailure::UnsupportedOperation,
            ),
        r matches Err(e) && e is BadRequest ==> exists|k: int, f: StepFailure|
            0 <= k < specs@.len() && #[trigger] spec_abortable_at(
                specs@,
                k,
                decoded_image(bytes@)->0,
                font is Some,
                f,
            ) && (f is Parse || f is Invalid),
        spec_render_guaranteed(bytes@, specs@, font is Some) ==> r is Ok,
        ({
            &&& sniffed_format(bytes@) == Some(OutputFormat::Png)
            &&& decoded_image(bytes@) matches Some(s) && s.color != ColorKind::Other && s.width > 0
                && s.height > 0 && spec_decode_budget_fits(s.width, s.height)
            &&& specs@.len() == 0
        }) ==> r is Ok,
{
    let original = match img_sniff_format(bytes.as_slice()) {
        Some(f) => f,
        None => {
            return Err(AppError::UnsupportedMediaType("could not determine image format".to_owned()));
        },
    };
    let image = match img_decode(bytes.as_slice()) {
        Ok(img) => img,
        Err(()) => {
            return Err(AppError::ImageProcessingError("failed to load image".to_owned()));
        },
    };
    let ghost s0 = image.shape();
    let processed = match execute_pipeline(image, specs, font) {
        Ok(img) => img,
        Err(e) => {
            proof {
                assert(s0 == decoded_image(bytes@)->0);
                assert(spec_abortable_at(
                    specs@,
                    e.step as int,
                    decoded_image(bytes@)->0,
                    font is Some,
                    e.failure,
                ));
                assert((e.step as int) < specs@.len());
            }
            return Err(e.to_app_error());
        },
    };
    let output_format = determine_output_format(specs, original);
    proof {
        assert(spec_pipeline_shape_ok(specs@, s0, processed.shape(), font is Some));
        if spec_render_guaranteed(bytes@, specs@, font is Some) {
            assert(spec_pipeline_shape_ok(
                specs@,
                decoded_image(bytes@)->0,
                processed.shape(),
                font is Some,
            ));
        }
    }
    match img_encode(&processed, output_format) {
        Ok(out_bytes) => Ok((out_bytes, output_format)),
        Err(()) => Err(AppError::ImageProcessingError("failed to write processed image".to_owned())),
    }
}

} // verus!
