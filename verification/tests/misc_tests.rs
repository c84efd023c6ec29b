use imaginary::config::{Config, ServerConfig};
use imaginary::errors::{ImageError, ParamField};
use imaginary::health::{increment_error_count, increment_request_count, init_health_metrics};
use imaginary::image_state::solid_rgba;
use imaginary::info::{AppInfo, ImageInfo};
use imaginary::formats::OutputFormat;
use imaginary::params::{
    BlurParams, ParamValue, Params, ResizeParams, RotateParams, Validate, WatermarkImageParams,
    WatermarkParams, WatermarkPosition, Rgb, ZoomParams,
};
use imaginary::pipeline::process_image;
use imaginary::storage::{
    cache_result, check_cached_metadata, generate_operation_hash, get_cached_result, get_result,
    MetadataCache, ResultCache, StorageConfig,
};
use imaginary::utils::{
    get_image_dimensions, get_image_format, load_image_from_bytes, save_image_to_bytes,
    validate_params,
};
use imaginary::watermark::{watermark_image, watermark_position};

fn create_test_image_bytes() -> Vec<u8> {
    let img = solid_rgba(100, 100, 255, 0, 0, 255);
    save_image_to_bytes(&img, OutputFormat::Png).unwrap()
}

#[test]
fn test_get_image_dimensions() {
    let image_bytes = create_test_image_bytes();
    let dimensions = get_image_dimensions(&image_bytes);
    assert_eq!(dimensions, Some((100, 100)));
}

#[test]
fn test_get_image_format() {
    let image_bytes = create_test_image_bytes();
    let format = get_image_format(&image_bytes);
    assert_eq!(format, Some(OutputFormat::Png));
}

#[test]
fn test_load_image_from_bytes() {
    let image_bytes = create_test_image_bytes();
    let result = load_image_from_bytes(&image_bytes);
    assert!(result.is_ok());
    let image = result.unwrap();
    assert_eq!(image.dimensions(), (100, 100));
}

#[test]
fn test_save_image_to_bytes() {
    let image = solid_rgba(100, 100, 255, 0, 0, 255);
    let result = save_image_to_bytes(&image, OutputFormat::Png);
    assert!(result.is_ok());
    let bytes = result.unwrap();
    assert!(!bytes.is_empty());
}

#[test]
fn garbage_bytes_do_not_decode() {
    let garbage: Vec<u8> = vec![1, 2, 3, 4, 5];
    assert_eq!(get_image_dimensions(&garbage), None);
    assert!(load_image_from_bytes(&garbage).is_err());
}

#[test]
fn validate_params_reports_each_constraint() {
    assert!(validate_params(&ResizeParams { width: 10, height: 10 }).is_ok());
    assert_eq!(
        validate_params(&ResizeParams { width: 0, height: 10 }),
        Err(ImageError::InvalidDimensions(ParamField::Width)),
    );
    assert_eq!(
        validate_params(&RotateParams { degrees_milli: 400_000 }),
        Err(ImageError::InvalidDegrees),
    );
    assert_eq!(
        validate_params(&RotateParams { degrees_milli: -1 }),
        Err(ImageError::InvalidDegrees),
    );
    assert_eq!(
        validate_params(&BlurParams { sigma_milli: 0, minampl_milli: None }),
        Err(ImageError::InvalidParameters(ParamField::Sigma)),
    );
    assert_eq!(
        validate_params(&BlurParams { sigma_milli: 1000, minampl_milli: Some(-1) }),
        Err(ImageError::InvalidParameters(ParamField::Minampl)),
    );
    assert_eq!(
        validate_params(&ZoomParams { factor_milli: 0 }),
        Err(ImageError::InvalidParameters(ParamField::Factor)),
    );
    assert_eq!(
        validate_params(&WatermarkImageParams { opacity_milli: 2000, position: WatermarkPosition::Center }),
        Err(ImageError::InvalidOpacity),
    );
}

#[test]
fn watermark_validation_checks_each_field() {
    let valid = WatermarkParams {
        text: "Sample".to_string(),
        opacity_milli: 500,
        position: WatermarkPosition::Center,
        font_size: 24,
        color: Rgb { r: 255, g: 255, b: 255 },
        x: None,
        y: None,
    };
    assert!(valid.validate().is_ok());

    let mut p = valid.clone();
    p.opacity_milli = 1500;
    assert_eq!(p.validate(), Err(ImageError::InvalidOpacity));

    let mut p = valid.clone();
    p.text = String::new();
    assert_eq!(p.validate(), Err(ImageError::InvalidParameters(ParamField::Text)));

    let mut p = valid.clone();
    p.font_size = 0;
    assert_eq!(p.validate(), Err(ImageError::InvalidParameters(ParamField::FontSize)));

    let mut p = valid.clone();
    p.x = Some(0);
    p.y = Some(0);
    assert_eq!(p.validate(), Err(ImageError::InvalidParameters(ParamField::X)));

    let mut p = valid;
    p.x = Some(5);
    p.y = Some(0);
    assert!(p.validate().is_ok());
}

#[test]
fn process_image_validates() {
    assert!(process_image(ResizeParams { width: 1, height: 1 }).is_ok());
    assert!(process_image(ResizeParams { width: 0, height: 1 }).is_err());
}

#[test]
fn params_document_first_binding_wins() {
    let mut p = Params::new();
    p.set("width", ParamValue::Int(5));
    p.set("width", ParamValue::Int(9));
    let parsed = imaginary::params::parse_resize(&p).unwrap();
    assert_eq!(parsed.width, 5);
}

#[test]
fn fractional_input_is_rejected_for_whole_fields() {
    let mut p = Params::new();
    p.set("width", ParamValue::Milli(50_500));
    p.set("height", ParamValue::Int(50));
    assert_eq!(imaginary::params::parse_resize(&p), Err(ParamField::Width));
}

#[test]
fn server_config_defaults() {
    let c = ServerConfig::default();
    assert_eq!(c.port, 8080);
    assert_eq!(c.host, "127.0.0.1");
    assert_eq!(c.read_timeout, 30);
    assert_eq!(c.write_timeout, 30);
    assert_eq!(c.concurrency, 4);
    assert_eq!(c.max_body_size, 10 * 1024 * 1024);
}

#[test]
fn config_defaults() {
    let c = Config::default();
    assert_eq!(c.server.port, 8080);
    assert!(c.security.key().is_none());
    assert_eq!(c.storage.temp_dir, "temp");
    assert_eq!(c.data, b"example data".to_vec());
}

#[test]
fn storage_config_defaults() {
    let c = StorageConfig::default();
    assert_eq!(c.temp_dir, "temp");
    assert_eq!(c.max_cache_size, 1024 * 1024 * 1024);
}

#[test]
fn result_cache_round_trip() {
    let mut cache = ResultCache::new();
    assert!(get_cached_result(&cache, "a.png", "resize", "50x50").is_none());
    cache_result(&mut cache, "a.png", "resize", "50x50", "temp/out1.png");
    assert_eq!(
        get_cached_result(&cache, "a.png", "resize", "50x50"),
        Some(&"temp/out1.png".to_string()),
    );
    assert_eq!(get_result(&cache, "a.png", "resize", "50x50"), Some(&"temp/out1.png".to_string()));
    assert!(get_result(&cache, "a.png", "resize", "60x60").is_none());
    // A fresh entry shadows the old one
    cache_result(&mut cache, "a.png", "resize", "50x50", "temp/out2.png");
    assert_eq!(
        get_result(&cache, "a.png", "resize", "50x50"),
        Some(&"temp/out2.png".to_string()),
    );
}

#[test]
fn metadata_cache_names_the_processed_file() {
    let mut cache = MetadataCache::new();
    assert!(check_cached_metadata(&cache, "photo.png", 123, "image/png").is_none());
    cache.put("photo.png", 123, "image/png", "somehash");
    assert_eq!(
        check_cached_metadata(&cache, "photo.png", 123, "image/png"),
        Some("temp/processed_photo.png".to_string()),
    );
    assert!(check_cached_metadata(&cache, "photo.png", 124, "image/png").is_none());
}

#[test]
fn operation_hash_matches_known_digest() {
    // SHA-256 of the empty input.
    assert_eq!(
        generate_operation_hash(b"", "", ""),
        "e3b0c44298fc1c149afbf4c8996fb92427ae41e4649b934ca495991b7852b855".to_string(),
    );
    // Hashing the operation name must change the digest.
    assert_ne!(generate_operation_hash(b"", "resize", ""), generate_operation_hash(b"", "", ""));
}

#[test]
fn health_metrics_count() {
    let mut m = init_health_metrics();
    assert_eq!(m.request_count, 0);
    assert_eq!(m.error_count, 0);
    increment_request_count(&mut m);
    increment_request_count(&mut m);
    increment_error_count(&mut m);
    assert_eq!(m.request_count, 2);
    assert_eq!(m.error_count, 1);
}

#[test]
fn info_messages_name_their_subject() {
    assert_eq!(
        AppInfo::OriginAllowed("http://a".to_string()).message(),
        "Origin http://a is allowed.".to_string(),
    );
    assert_eq!(
        AppInfo::ValidatedSignature(true).message(),
        "Signature is valid: true".to_string(),
    );
    assert_eq!(
        ImageInfo::ImageProcessedSuccessfully("out.png".to_string()).message(),
        "Image processed successfully: out.png".to_string(),
    );
}

#[test]
fn test_watermark_image_center() {
    let img = solid_rgba(200, 100, 0, 0, 0, 255);
    let params = WatermarkImageParams { opacity_milli: 500, position: WatermarkPosition::Center };
    let result = watermark_image(img, &params);
    assert_eq!(result.dimensions(), (200, 100));
}

#[test]
fn test_watermark_image_top_left() {
    let img = solid_rgba(200, 100, 0, 0, 0, 255);
    let params = WatermarkImageParams { opacity_milli: 800, position: WatermarkPosition::TopLeft };
    let result = watermark_image(img, &params);
    assert_eq!(result.dimensions(), (200, 100));
}

#[test]
fn watermark_placement_follows_the_rule() {
    // Explicit coordinates win.
    assert_eq!(
        watermark_position(WatermarkPosition::Center, Some(5), Some(7), 100, 100, 30, 24),
        (5, 7),
    );
    // Corners keep the margin; the text height offsets the baseline.
    assert_eq!(
        watermark_position(WatermarkPosition::TopLeft, None, None, 100, 100, 30, 24),
        (10, 34),
    );
    assert_eq!(
        watermark_position(WatermarkPosition::TopRight, None, None, 100, 100, 30, 24),
        (60, 34),
    );
    assert_eq!(
        watermark_position(WatermarkPosition::BottomLeft, None, None, 100, 100, 30, 24),
        (10, 90),
    );
    assert_eq!(
        watermark_position(WatermarkPosition::BottomRight, None, None, 100, 100, 30, 24),
        (60, 90),
    );
    // Centre: horizontally centred, baseline one line below the centre.
    assert_eq!(
        watermark_position(WatermarkPosition::Center, None, None, 100, 100, 30, 24),
        (35, 62),
    );
    // Saturation at the borders instead of wrapping.
    assert_eq!(
        watermark_position(WatermarkPosition::TopRight, None, None, 20, 20, 30, 24),
        (0, 34),
    );
}
