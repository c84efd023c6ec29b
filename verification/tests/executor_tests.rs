use imaginary::errors::{ImageError, ParamField, StepFailure, TransformFailure};
use imaginary::image_state::{solid_rgba, ColorKind, ImageState};
use imaginary::params::{ParamValue, Params, ResizeParams};
use imaginary::pipeline_executor::{execute_pipeline, execute_single_operation};
use imaginary::pipeline_types::PipelineOperationSpec;

fn create_test_image(width: u32, height: u32) -> ImageState {
    solid_rgba(width, height, 255, 0, 0, 255)
}

fn step(operation: &str, ignore_failure: bool, fields: Vec<(&str, ParamValue)>) -> PipelineOperationSpec {
    let mut params = Params::new();
    for (name, value) in fields {
        params.set(name, value);
    }
    PipelineOperationSpec { operation: operation.to_string(), ignore_failure, params }
}

#[test]
fn test_successful_pipeline() {
    let image = create_test_image(100, 100);
    let operations = vec![
        step(
            "resize",
            false,
            vec![("width", ParamValue::Int(50)), ("height", ParamValue::Int(50))],
        ),
        step(
            "blur",
            false,
            vec![("sigma", ParamValue::Int(1)), ("minampl", ParamValue::Milli(100))],
        ),
    ];
    let result = execute_pipeline(image, &operations, None);
    assert!(result.is_ok(), "Pipeline failed at resize or blur: {:?}", result.err());
    let processed = result.unwrap();
    assert_eq!(processed.dimensions(), (50, 50), "Resize did not produce expected dimensions");
}

#[test]
fn pipeline_executor_test_pipeline_with_ignored_failures() {
    let image = create_test_image(100, 100);
    let operations = vec![
        step(
            "resize",
            true,
            vec![("width", ParamValue::Int(-50)), ("height", ParamValue::Int(50))],
        ),
        step(
            "blur",
            false,
            vec![("sigma", ParamValue::Int(1)), ("minampl", ParamValue::Milli(100))],
        ),
    ];
    let result = execute_pipeline(image, &operations, None);
    assert!(result.is_ok(), "Pipeline with ignored failures failed: {:?}", result.err());
}

#[test]
fn pipeline_executor_test_pipeline_error_handling() {
    let image = create_test_image(100, 100);
    let operations = vec![
        step(
            "resize",
            false,
            vec![("width", ParamValue::Int(-50)), ("height", ParamValue::Int(50))],
        ),
    ];
    let result = execute_pipeline(image, &operations, None);
    assert!(result.is_err(), "Pipeline error handling did not catch error for invalid resize");
}

#[test]
fn test_watermark_invalid_params() {
    let image = create_test_image(100, 100);
    // Missing text
    let operations = vec![
        step(
            "watermark",
            false,
            vec![
                ("opacity", ParamValue::Milli(1000)),
                ("position", ParamValue::Text("TopLeft".to_string())),
                ("font_size", ParamValue::Int(16)),
                ("color", ParamValue::IntList(vec![0, 255, 0])),
                ("x", ParamValue::Int(5)),
                ("y", ParamValue::Int(5)),
            ],
        ),
    ];
    let result = execute_pipeline(create_test_image(100, 100), &operations, None);
    assert!(result.is_err(), "Watermark missing text should error");

    // Invalid color array (too short)
    let operations = vec![
        step(
            "watermark",
            false,
            vec![
                ("text", ParamValue::Text("BadColor".to_string())),
                ("opacity", ParamValue::Milli(1000)),
                ("position", ParamValue::Text("TopLeft".to_string())),
                ("font_size", ParamValue::Int(16)),
                ("color", ParamValue::IntList(vec![0, 255])),
                ("x", ParamValue::Int(5)),
                ("y", ParamValue::Int(5)),
            ],
        ),
    ];
    let result = execute_pipeline(create_test_image(100, 100), &operations, None);
    assert!(result.is_err(), "Watermark with invalid color should error");

    // Negative font size
    let operations = vec![
        step(
            "watermark",
            false,
            vec![
                ("text", ParamValue::Text("NegativeFont".to_string())),
                ("opacity", ParamValue::Milli(1000)),
                ("position", ParamValue::Text("TopLeft".to_string())),
                ("font_size", ParamValue::Int(-10)),
                ("color", ParamValue::IntList(vec![0, 255, 0])),
                ("x", ParamValue::Int(5)),
                ("y", ParamValue::Int(5)),
            ],
        ),
    ];
    let result = execute_pipeline(image, &operations, None);
    assert!(result.is_err(), "Watermark with negative font size should error");
}

#[test]
fn test_execute_single_operation_resize() {
    let image = create_test_image(100, 100);
    let spec = step(
        "resize",
        false,
        vec![("width", ParamValue::Int(50)), ("height", ParamValue::Int(75))],
    );
    let result = execute_single_operation(&image, &spec, None);
    assert!(result.is_ok());
    let processed = result.unwrap();
    assert_eq!(processed.dimensions(), (50, 75));
}

#[test]
fn test_execute_single_operation_invalid_resize() {
    let image = create_test_image(100, 100);
    let spec = step(
        "resize",
        false,
        vec![("width", ParamValue::Int(-10)), ("height", ParamValue::Int(50))],
    );
    let result = execute_single_operation(&image, &spec, None);
    assert!(result.is_err());
    assert_eq!(result.err().unwrap(), StepFailure::Parse(ParamField::Width));
}

#[test]
fn test_execute_single_operation_grayscale() {
    let image = create_test_image(100, 100);
    let spec = step("grayscale", false, vec![]);
    let result = execute_single_operation(&image, &spec, None);
    assert!(result.is_ok());
}

#[test]
fn test_execute_single_operation_blur() {
    let image = create_test_image(100, 100);
    let spec = step("blur", false, vec![("sigma", ParamValue::Int(2))]);
    let result = execute_single_operation(&image, &spec, None);
    assert!(result.is_ok());
}

#[test]
fn test_execute_single_operation_invalid_blur() {
    let image = create_test_image(100, 100);
    let spec = step("blur", false, vec![("sigma", ParamValue::Int(-1))]);
    let result = execute_single_operation(&image, &spec, None);
    assert!(result.is_err());
    assert_eq!(
        result.err().unwrap(),
        StepFailure::Invalid(ImageError::InvalidParameters(ParamField::Sigma)),
    );
}

#[test]
fn test_execute_single_operation_crop() {
    let image = create_test_image(100, 100);
    let spec = step(
        "crop",
        false,
        vec![
            ("x", ParamValue::Int(10)),
            ("y", ParamValue::Int(10)),
            ("width", ParamValue::Int(50)),
            ("height", ParamValue::Int(50)),
        ],
    );
    let result = execute_single_operation(&image, &spec, None);
    assert!(result.is_ok());
    let processed = result.unwrap();
    assert_eq!(processed.dimensions(), (50, 50));
}

#[test]
fn test_execute_single_operation_invalid_crop() {
    let image = create_test_image(100, 100);
    let spec = step(
        "crop",
        false,
        vec![
            ("x", ParamValue::Int(0)),
            ("y", ParamValue::Int(0)),
            ("width", ParamValue::Int(0)),
            ("height", ParamValue::Int(50)),
        ],
    );
    let result = execute_single_operation(&image, &spec, None);
    assert!(result.is_err());
    assert_eq!(
        result.err().unwrap(),
        StepFailure::Invalid(ImageError::InvalidDimensions(ParamField::Width)),
    );
}

#[test]
fn test_execute_single_operation_rotate() {
    let image = create_test_image(100, 100);
    let spec = step("rotate", false, vec![("degrees", ParamValue::Int(90))]);
    let result = execute_single_operation(&image, &spec, None);
    assert!(result.is_ok());
}

#[test]
fn test_execute_single_operation_flip() {
    let image = create_test_image(100, 100);
    let spec = step("flip", false, vec![]);
    let result = execute_single_operation(&image, &spec, None);
    assert!(result.is_ok());
}

#[test]
fn test_execute_single_operation_flop() {
    let image = create_test_image(100, 100);
    let spec = step("flop", false, vec![]);
    let result = execute_single_operation(&image, &spec, None);
    assert!(result.is_ok());
}

#[test]
fn test_execute_single_operation_adjust_brightness() {
    let image = create_test_image(100, 100);
    let spec = step("adjustBrightness", false, vec![("value", ParamValue::Int(20))]);
    let result = execute_single_operation(&image, &spec, None);
    assert!(result.is_ok());
}

#[test]
fn test_execute_single_operation_adjust_contrast() {
    let image = create_test_image(100, 100);
    let spec = step("adjustContrast", false, vec![("value", ParamValue::Milli(1200))]);
    let result = execute_single_operation(&image, &spec, None);
    assert!(result.is_ok());
}

#[test]
fn test_execute_single_operation_sharpen() {
    let image = create_test_image(100, 100);
    let spec = step("sharpen", false, vec![]);
    let result = execute_single_operation(&image, &spec, None);
    assert!(result.is_ok());
}

#[test]
fn test_execute_single_operation_convert() {
    let image = create_test_image(100, 100);
    let spec = step(
        "convert",
        false,
        vec![
            ("format", ParamValue::Text("jpeg".to_string())),
            ("quality", ParamValue::Int(85)),
        ],
    );
    let result = execute_single_operation(&image, &spec, None);
    assert!(result.is_ok());
}

#[test]
fn test_execute_single_operation_invalid_convert() {
    let image = create_test_image(100, 100);
    let spec = step(
        "convert",
        false,
        vec![("format", ParamValue::Text("invalid_format".to_string()))],
    );
    let result = execute_single_operation(&image, &spec, None);
    assert!(result.is_err());
    assert_eq!(
        result.err().unwrap(),
        StepFailure::Invalid(ImageError::InvalidParameters(ParamField::Format)),
    );
}

#[test]
fn unknown_operation_is_reported() {
    let image = create_test_image(10, 10);
    let spec = step("sepia", false, vec![]);
    let result = execute_single_operation(&image, &spec, None);
    assert_eq!(result.err().unwrap(), StepFailure::UnsupportedOperation);
}

#[test]
fn watermark_without_font_is_a_transform_failure() {
    let image = create_test_image(100, 100);
    let spec = step(
        "watermark",
        false,
        vec![("text", ParamValue::Text("Test".to_string()))],
    );
    let result = execute_single_operation(&image, &spec, None);
    assert_eq!(
        result.err().unwrap(),
        StepFailure::Transform(TransformFailure::FontUnavailable),
    );
}

#[test]
fn test_complex_pipeline_multiple_operations() {
    let image = create_test_image(200, 200);
    let operations = vec![
        step(
            "resize",
            false,
            vec![("width", ParamValue::Int(150)), ("height", ParamValue::Int(150))],
        ),
        step(
            "crop",
            false,
            vec![
                ("x", ParamValue::Int(25)),
                ("y", ParamValue::Int(25)),
                ("width", ParamValue::Int(100)),
                ("height", ParamValue::Int(100)),
            ],
        ),
        step("rotate", false, vec![("degrees", ParamValue::Int(45))]),
        step("blur", false, vec![("sigma", ParamValue::Milli(1500))]),
        step("grayscale", false, vec![]),
    ];
    let result = execute_pipeline(image, &operations, None);
    assert!(result.is_ok(), "Complex pipeline failed: {:?}", result.err());
}

#[test]
fn test_pipeline_mixed_success_and_ignored_failures() {
    let image = create_test_image(100, 100);
    let operations = vec![
        step(
            "resize",
            false,
            vec![("width", ParamValue::Int(80)), ("height", ParamValue::Int(80))],
        ),
        step(
            "crop",
            true,
            vec![
                ("x", ParamValue::Int(0)),
                ("y", ParamValue::Int(0)),
                ("width", ParamValue::Int(0)),
                ("height", ParamValue::Int(50)),
            ],
        ),
        step("blur", false, vec![("sigma", ParamValue::Int(1))]),
    ];
    let result = execute_pipeline(image, &operations, None);
    assert!(result.is_ok(), "Pipeline with mixed success/ignored failures failed: {:?}", result.err());
    let processed = result.unwrap();
    assert_eq!(processed.dimensions(), (80, 80));
}

#[test]
fn test_pipeline_all_operations_ignored() {
    let image = create_test_image(100, 100);
    let operations = vec![
        step(
            "crop",
            true,
            vec![
                ("x", ParamValue::Int(0)),
                ("y", ParamValue::Int(0)),
                ("width", ParamValue::Int(0)),
                ("height", ParamValue::Int(50)),
            ],
        ),
        step(
            "resize",
            true,
            vec![("width", ParamValue::Int(0)), ("height", ParamValue::Int(50))],
        ),
    ];
    let result = execute_pipeline(image, &operations, None);
    assert!(result.is_ok(), "Pipeline with all ignored failures should succeed");
    let processed = result.unwrap();
    assert_eq!(processed.dimensions(), (100, 100));
}

#[test]
fn test_parse_operation_params_valid() {
    let mut params = Params::new();
    params.set("width", ParamValue::Int(100));
    params.set("height", ParamValue::Int(200));
    let result: Result<ResizeParams, ParamField> = imaginary::params::parse_resize(&params);
    assert!(result.is_ok());
    let parsed = result.unwrap();
    assert_eq!(parsed.width, 100);
    assert_eq!(parsed.height, 200);
}

#[test]
fn test_parse_operation_params_invalid() {
    let mut params = Params::new();
    params.set("width", ParamValue::Text("not_a_number".to_string()));
    params.set("height", ParamValue::Int(200));
    let result: Result<ResizeParams, ParamField> = imaginary::params::parse_resize(&params);
    assert!(result.is_err());
}

#[test]
fn test_parse_operation_params_missing_fields() {
    let params = Params::new();
    let result: Result<ResizeParams, ParamField> = imaginary::params::parse_resize(&params);
    assert!(result.is_ok());
    let parsed = result.unwrap();
    assert_eq!(parsed.width, 100);
    assert_eq!(parsed.height, 100);
}

#[test]
fn test_pipeline_empty_operations() {
    let image = create_test_image(100, 100);
    let operations: Vec<PipelineOperationSpec> = vec![];
    let result = execute_pipeline(image, &operations, None);
    assert!(result.is_ok());
    let processed = result.unwrap();
    assert_eq!(processed.dimensions(), (100, 100));
}

#[test]
fn test_resize_pipeline() {
    let image = create_test_image(100, 100);
    let operations = vec![
        step(
            "resize",
            false,
            vec![("width", ParamValue::Int(50)), ("height", ParamValue::Int(50))],
        ),
    ];
    let result = execute_pipeline(image, &operations, None);
    assert!(result.is_ok());
    let processed = result.unwrap();
    assert_eq!(processed.dimensions(), (50, 50));
}

#[test]
fn test_blur_pipeline() {
    let image = create_test_image(100, 100);
    let operations = vec![step("blur", false, vec![("sigma", ParamValue::Int(1))])];
    let result = execute_pipeline(image, &operations, None);
    assert!(result.is_ok());
}

#[test]
fn image_pipeline_tests_test_pipeline_with_ignored_failures() {
    let image = create_test_image(100, 100);
    let operations = vec![
        step(
            "resize",
            true,
            vec![("width", ParamValue::Int(-50)), ("height", ParamValue::Int(50))],
        ),
        step("blur", false, vec![("sigma", ParamValue::Int(1))]),
    ];
    let result = execute_pipeline(image, &operations, None);
    assert!(result.is_ok());
}

#[test]
fn image_pipeline_tests_test_pipeline_error_handling() {
    let image = create_test_image(100, 100);
    let operations = vec![
        step(
            "resize",
            false,
            vec![("width", ParamValue::Int(-50)), ("height", ParamValue::Int(50))],
        ),
    ];
    let result = execute_pipeline(image, &operations, None);
    assert!(result.is_err());
}

#[test]
fn abort_reports_step_index_and_operation() {
    let image = create_test_image(100, 100);
    let operations = vec![
        step("grayscale", false, vec![]),
        step("rotate", false, vec![("degrees", ParamValue::Int(400))]),
    ];
    let err = execute_pipeline(image, &operations, None).err().unwrap();
    assert_eq!(err.step, 1);
    assert_eq!(err.operation, "rotate".to_string());
    assert_eq!(err.failure, StepFailure::Invalid(ImageError::InvalidDegrees));
}
