use imaginary::errors::{ImageError, ParamField, StepFailure};
use imaginary::formats::OutputFormat;
use imaginary::image_state::{solid_rgba, ColorKind, ImageState};
use imaginary::params::{ParamValue, Params};
use imaginary::pipeline::render_pipeline;
use imaginary::pipeline_executor::execute_pipeline;
use imaginary::pipeline_types::PipelineOperationSpec;
use imaginary::utils::save_image_to_bytes;

fn create_test_image(width: u32, height: u32) -> ImageState {
    solid_rgba(width, height, 20, 120, 220, 255)
}

fn step(operation: &str, ignore_failure: bool, fields: Vec<(&str, ParamValue)>) -> PipelineOperationSpec {
    let mut params = Params::new();
    for (name, value) in fields {
        params.set(name, value);
    }
    PipelineOperationSpec { operation: operation.to_string(), ignore_failure, params }
}

#[test]
fn empty_pipeline_is_the_identity() {
    let image = create_test_image(33, 47);
    let before = save_image_to_bytes(&image, OutputFormat::Png).unwrap();
    let result = execute_pipeline(image, &vec![], None).unwrap();
    assert_eq!(result.dimensions(), (33, 47));
    assert_eq!(result.color(), ColorKind::Rgba8);
    let after = save_image_to_bytes(&result, OutputFormat::Png).unwrap();
    assert_eq!(before, after, "the identity pipeline must not touch a pixel");
}

#[test]
fn resize_then_grayscale_composes() {
    let image = create_test_image(100, 100);
    let operations = vec![
        step(
            "resize",
            false,
            vec![("width", ParamValue::Int(40)), ("height", ParamValue::Int(30))],
        ),
        step("grayscale", false, vec![]),
    ];
    let result = execute_pipeline(image, &operations, None).unwrap();
    assert_eq!(result.dimensions(), (40, 30));
    assert_eq!(result.color(), ColorKind::L8);
}

#[test]
fn ignored_crop_failure_leaves_dimensions_untouched() {
    let image = create_test_image(100, 100);
    let operations = vec![
        step(
            "crop",
            true,
            vec![
                ("x", ParamValue::Int(0)),
                ("y", ParamValue::Int(0)),
                ("width", ParamValue::Int(0)),
                ("height", ParamValue::Int(50)),
            ],
        ),
        step("blur", false, vec![("sigma", ParamValue::Int(1))]),
    ];
    let result = execute_pipeline(image, &operations, None).unwrap();
    assert_eq!(result.dimensions(), (100, 100));
}

#[test]
fn negative_resize_aborts_with_a_terminal_error() {
    let image = create_test_image(100, 100);
    let operations = vec![
        step(
            "resize",
            false,
            vec![("width", ParamValue::Int(-50)), ("height", ParamValue::Int(50))],
        ),
    ];
    let err = execute_pipeline(image, &operations, None).err().unwrap();
    assert_eq!(err.step, 0);
    assert_eq!(err.operation, "resize".to_string());
    assert_eq!(err.failure, StepFailure::Parse(ParamField::Width));
}

#[test]
fn last_valid_convert_decides_the_rendered_format() {
    let image = create_test_image(64, 64);
    let bytes = save_image_to_bytes(&image, OutputFormat::Png).unwrap();
    let operations = vec![
        step("convert", false, vec![("format", ParamValue::Text("png".to_string()))]),
        step(
            "resize",
            false,
            vec![("width", ParamValue::Int(32)), ("height", ParamValue::Int(32))],
        ),
        step("convert", false, vec![("format", ParamValue::Text("webp".to_string()))]),
    ];
    let (out_bytes, format) = render_pipeline(&bytes, &operations, None).unwrap();
    assert_eq!(format, OutputFormat::WebP);
    assert_eq!(imaginary::utils::get_image_format(&out_bytes), Some(OutputFormat::WebP));
    assert_eq!(imaginary::utils::get_image_dimensions(&out_bytes), Some((32, 32)));
}

#[test]
fn quarter_turn_swaps_dimensions_and_wild_angles_are_rejected() {
    let image = create_test_image(80, 60);
    let turn = vec![step("rotate", false, vec![("degrees", ParamValue::Int(90))])];
    let rotated = execute_pipeline(image, &turn, None).unwrap();
    assert_eq!(rotated.dimensions(), (60, 80));

    let wild = vec![step("rotate", false, vec![("degrees", ParamValue::Int(400))])];
    let err = execute_pipeline(create_test_image(80, 60), &wild, None).err().unwrap();
    assert_eq!(err.failure, StepFailure::Invalid(ImageError::InvalidDegrees));
}

#[test]
fn png_conversion_round_trips_shape_and_channels() {
    let image = create_test_image(50, 40);
    let operations = vec![
        step("convert", false, vec![("format", ParamValue::Text("png".to_string()))]),
    ];
    let result = execute_pipeline(image, &operations, None).unwrap();
    assert_eq!(result.dimensions(), (50, 40));
    assert_eq!(result.color(), ColorKind::Rgba8);
}

#[test]
fn render_pipeline_rejects_undecodable_input() {
    let garbage: Vec<u8> = vec![0, 1, 2, 3];
    let result = render_pipeline(&garbage, &vec![], None);
    assert!(result.is_err());
}

#[test]
fn render_pipeline_keeps_input_format_without_convert() {
    let image = create_test_image(20, 20);
    let bytes = save_image_to_bytes(&image, OutputFormat::Png).unwrap();
    let operations = vec![
        step(
            "resize",
            false,
            vec![("width", ParamValue::Int(10)), ("height", ParamValue::Int(10))],
        ),
    ];
    let (out_bytes, format) = render_pipeline(&bytes, &operations, None).unwrap();
    assert_eq!(format, OutputFormat::Png);
    assert_eq!(imaginary::utils::get_image_format(&out_bytes), Some(OutputFormat::Png));
}

#[test]
fn render_pipeline_classifies_the_abort() {
    let image = create_test_image(20, 20);
    let bytes = save_image_to_bytes(&image, OutputFormat::Png).unwrap();

    // An unknown operation name is an invalid operation.
    let unknown = vec![step("sepia", false, vec![])];
    let err = render_pipeline(&bytes, &unknown, None).err().unwrap();
    assert!(matches!(err, imaginary::errors::AppError::InvalidOperation(_)));

    // Bad parameters are a bad request.
    let invalid = vec![step("rotate", false, vec![("degrees", ParamValue::Int(400))])];
    let err = render_pipeline(&bytes, &invalid, None).err().unwrap();
    assert!(matches!(err, imaginary::errors::AppError::BadRequest(_)));

    // A transform refusal is an image processing error.
    let no_font = vec![step(
        "watermark",
        false,
        vec![("text", ParamValue::Text("Test".to_string()))],
    )];
    let err = render_pipeline(&bytes, &no_font, None).err().unwrap();
    assert!(matches!(err, imaginary::errors::AppError::ImageProcessingError(_)));
}
