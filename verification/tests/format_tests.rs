use imaginary::formats::{determine_output_format, mime_type, parse_format, OutputFormat};
use imaginary::params::{ParamValue, Params};
use imaginary::pipeline_types::PipelineOperationSpec;

fn step(operation: &str, fields: Vec<(&str, ParamValue)>) -> PipelineOperationSpec {
    let mut params = Params::new();
    for (name, value) in fields {
        params.set(name, value);
    }
    PipelineOperationSpec { operation: operation.to_string(), ignore_failure: false, params }
}

#[test]
fn test_determine_output_format_with_convert() {
    let operations = vec![
        step(
            "resize",
            vec![("width", ParamValue::Int(100)), ("height", ParamValue::Int(100))],
        ),
        step(
            "convert",
            vec![
                ("format", ParamValue::Text("jpeg".to_string())),
                ("quality", ParamValue::Int(85)),
            ],
        ),
    ];
    let result = determine_output_format(&operations, OutputFormat::Png);
    assert_eq!(result, OutputFormat::Jpeg);
}

#[test]
fn test_determine_output_format_without_convert() {
    let operations = vec![
        step(
            "resize",
            vec![("width", ParamValue::Int(100)), ("height", ParamValue::Int(100))],
        ),
    ];
    let result = determine_output_format(&operations, OutputFormat::Png);
    assert_eq!(result, OutputFormat::Png);
}

#[test]
fn test_determine_output_format_multiple_converts() {
    let operations = vec![
        step("convert", vec![("format", ParamValue::Text("png".to_string()))]),
        step(
            "resize",
            vec![("width", ParamValue::Int(100)), ("height", ParamValue::Int(100))],
        ),
        step("convert", vec![("format", ParamValue::Text("webp".to_string()))]),
    ];
    // Should use the last convert operation
    let result = determine_output_format(&operations, OutputFormat::Jpeg);
    assert_eq!(result, OutputFormat::WebP);
}

#[test]
fn unrecognized_format_in_last_convert_falls_back_to_original() {
    let operations = vec![
        step("convert", vec![("format", ParamValue::Text("png".to_string()))]),
        step("convert", vec![("format", ParamValue::Text("heif".to_string()))]),
    ];
    let result = determine_output_format(&operations, OutputFormat::Gif);
    assert_eq!(result, OutputFormat::Gif);
}

#[test]
fn unparsable_convert_is_skipped_in_resolution() {
    let operations = vec![
        step("convert", vec![("format", ParamValue::Text("bmp".to_string()))]),
        step("convert", vec![("format", ParamValue::Int(7))]),
    ];
    let result = determine_output_format(&operations, OutputFormat::Png);
    assert_eq!(result, OutputFormat::Bmp);
}

#[test]
fn format_table_accepts_known_names_in_any_case() {
    assert_eq!(parse_format("png"), Some(OutputFormat::Png));
    assert_eq!(parse_format("PNG"), Some(OutputFormat::Png));
    assert_eq!(parse_format("jpeg"), Some(OutputFormat::Jpeg));
    assert_eq!(parse_format("jpg"), Some(OutputFormat::Jpeg));
    assert_eq!(parse_format("Gif"), Some(OutputFormat::Gif));
    assert_eq!(parse_format("webp"), Some(OutputFormat::WebP));
    assert_eq!(parse_format("bmp"), Some(OutputFormat::Bmp));
    assert_eq!(parse_format("tiff"), Some(OutputFormat::Tiff));
    assert_eq!(parse_format("tif"), Some(OutputFormat::Tiff));
    assert_eq!(parse_format("ico"), Some(OutputFormat::Ico));
    assert_eq!(parse_format("heif"), None);
    assert_eq!(parse_format(""), None);
}

#[test]
fn mime_types_match_encodings() {
    assert_eq!(mime_type(OutputFormat::Png), "image/png");
    assert_eq!(mime_type(OutputFormat::Jpeg), "image/jpeg");
    assert_eq!(mime_type(OutputFormat::WebP), "image/webp");
    assert_eq!(mime_type(OutputFormat::Ico), "image/x-icon");
}
