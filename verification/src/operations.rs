//! The image operations, each verified against the shape model.
//!
//! Every function takes an owned [`ImageState`], applies one transformation
//! through the trusted wrappers, and says exactly what happens to the
//! image's shape. Validation of the parameters is the caller's duty and is
//! stated as a precondition; the pipeline executor performs it before
//! calling in here.

use vstd::prelude::*;

use crate::errors::AppError;
use crate::formats::{parse_format, spec_format_of, OutputFormat};
use crate::image_state::{
    dims_fit, fit_dimensions, img_blur, img_brighten, img_adjust_contrast, img_copy_from,
    img_crop, img_decode, img_draw_text, img_encode, img_fliph, img_filter3x3, img_flipv,
    img_grayscale, img_resize_exact, img_resize_fit, img_rotate180, img_rotate270, img_rotate90,
    img_thumbnail, spec_crop_size, spec_decode_budget_fits, ColorKind, ImageShape, ImageState,
};
use crate::params::{
    BlurParams, CropParams, ExtractParams, FormatConversionParams, ResizeParams, RotateParams,
    SmartCropParams, ThumbnailParams, Validate, ZoomParams,
};

verus! {

/// Resize the image to the exact target dimensions.
pub fn resize(image: ImageState, params: &ResizeParams) -> (r: ImageState)
    requires
        params.valid(),
        dims_fit(params.width, params.height),
    ensures
        r.shape() == (ImageShape {
            width: params.width,
            height: params.height,
            color: image.spec_color(),
        }),
{
    img_resize_exact(&image, params.width, params.height)
}

/// The shape after a rotation: quarter turns swap the dimensions, a half
/// turn keeps them, and any angle that is not a multiple of ninety degrees
/// falls back to a single quarter turn — a documented quirk, kept as it is.
pub open spec fn spec_rotated_shape(degrees_milli: i64, s: ImageShape) -> ImageShape {
    if degrees_milli == 180_000 {
        s
    } else {
        ImageShape { width: s.height, height: s.width, color: s.color }
    }
}

/// Rotate the image by the given angle.
pub fn rotate(image: ImageState, params: &RotateParams) -> (r: ImageState)
    requires
        params.valid(),
    ensures
        r.shape() == spec_rotated_shape(params.degrees_milli, image.shape()),
{
    if params.degrees_milli == 90_000 {
        img_rotate90(&image)
    } else if params.degrees_milli == 180_000 {
        img_rotate180(&image)
    } else if params.degrees_milli == 270_000 {
        img_rotate270(&image)
    } else {
        img_rotate90(&image)
    }
}

/// Crop the image to the given rectangle, clamped to the image bounds.
pub fn crop(image: ImageState, params: &CropParams) -> (r: ImageState)
    requires
        params.valid(),
    ensures
        r.spec_color() == image.spec_color(),
        (r.spec_width(), r.spec_height()) == spec_crop_size(
            image.spec_width(),
            image.spec_height(),
            params.x,
            params.y,
            params.width,
            params.height,
        ),
{
    img_crop(&image, params.x, params.y, params.width, params.height)
}

/// Mirror the image left-right.
pub fn flip_horizontal(image: ImageState) -> (r: ImageState)
    ensures
        r.shape() == image.shape(),
{
    img_fliph(&image)
}

/// Mirror the image top-bottom.
pub fn flip_vertical(image: ImageState) -> (r: ImageState)
    ensures
        r.shape() == image.shape(),
{
    img_flipv(&image)
}

/// Convert the image to eight-bit grayscale.
pub fn grayscale(image: ImageState) -> (r: ImageState)
    ensures
        r.shape() == (ImageShape {
            width: image.spec_width(),
            height: image.spec_height(),
            color: ColorKind::L8,
        }),
{
    img_grayscale(&image)
}

/// Brighten or darken the image by the given amount.
pub fn adjust_brightness(image: ImageState, value: i32) -> (r: ImageState)
    ensures
        r.shape() == image.shape(),
{
    img_brighten(&image, value)
}

/// Adjust the contrast by the given amount, in thousandths; the underlying
/// call takes whole numbers, so the amount is rounded toward zero and
/// clamped to the sixteen-bit range.
pub fn adjust_contrast(image: ImageState, value_milli: i64) -> (r: ImageState)
    ensures
        r.shape() == image.shape(),
{
    let whole: i64 = value_milli / 1000;
    let clamped: i16 = if whole > i16::MAX as i64 {
        i16::MAX
    } else if whole < i16::MIN as i64 {
        i16::MIN
    } else {
        whole as i16
    };
    img_adjust_contrast(&image, clamped)
}

/// Sharpen the image with the fixed three-by-three kernel.
pub fn sharpen(image: ImageState) -> (r: ImageState)
    ensures
        r.shape() == image.shape(),
{
    let kernel: Vec<i8> = vec![-1, -1, -1, -1, 9, -1, -1, -1, -1];
    img_filter3x3(&image, &kernel)
}

/// Blur the image with the given Gaussian sigma, in thousandths; the
/// underlying call receives the nearest whole-pixel sigma, never below one.
/// The optional minimum amplitude is validated but, as in the underlying
/// library, has no effect on the blur itself.
pub fn blur(image: ImageState, params: &BlurParams) -> (r: ImageState)
    requires
        params.valid(),
    ensures
        r.shape() == image.shape(),
{
    let sigma: u16 = if params.sigma_milli > 65_535_000 {
        65535
    } else if params.sigma_milli < 500 {
        1
    } else {
        ((params.sigma_milli + 500) / 1000) as u16
    };
    img_blur(&image, sigma)
}

/// Overlay another image at the given position; the overlay must fit
/// entirely within the base image.
pub fn overlay(image: ImageState, overlay_image: ImageState, x: u32, y: u32) -> (r: Result<
    ImageState,
    AppError,
>)
    ensures
        (x + overlay_image.spec_width() <= image.spec_width() && y + overlay_image.spec_height()
            <= image.spec_height()) <==> r is Ok,
        r matches Ok(img) ==> img.shape() == image.shape(),
        r matches Err(e) ==> e is ImageProcessingError,
{
    let (bw, bh) = image.dimensions();
    let (ow, oh) = overlay_image.dimensions();
    if (x as u64) + (ow as u64) <= (bw as u64) && (y as u64) + (oh as u64) <= (bh as u64) {
        Ok(img_copy_from(&image, &overlay_image, x, y))
    } else {
        Err(AppError::ImageProcessingError("overlay does not fit at the given position".to_owned()))
    }
}

/// Draw text onto the image in white at the given position and font size.
/// The vertical position is offset by one line height, approximated by the
/// font size.
pub fn draw_text(
    image: ImageState,
    text: &str,
    x: u32,
    y: u32,
    font_size: u32,
    font: &rusttype::Font<'static>,
) -> (r: ImageState)
    ensures
        r.shape() == (ImageShape {
            width: image.spec_width(),
            height: image.spec_height(),
            color: ColorKind::Rgba8,
        }),
{
    let px: u16 = if font_size > 65535 {
        65535
    } else {
        font_size as u16
    };
    let xi: i32 = if x > i32::MAX as u32 {
        i32::MAX
    } else {
        x as i32
    };
    let baseline: u64 = (y as u64) + (px as u64);
    let yi: i32 = if baseline > i32::MAX as u64 {
        i32::MAX
    } else {
        baseline as i32
    };
    img_draw_text(&image, 255, 255, 255, 255, xi, yi, px, font, text)
}

/// Convert the image to the encoding the parameters name, by encoding and
/// decoding it in memory. Validation has already pinned the name to the
/// fixed table. For an image of positive dimensions within the decode
/// budget: a PNG conversion of an eight-bit image succeeds and keeps the
/// image's shape, and any successful conversion keeps the dimensions. The
/// encoders refuse zero-size images and the decoder's allocation limit
/// refuses very large ones, so nothing is promised outside those bounds.
pub fn convert_format(image: ImageState, params: &FormatConversionParams) -> (r: Result<
    ImageState,
    AppError,
>)
    requires
        params.valid(),
    ensures
        r matches Ok(img) ==> ((image.spec_width() > 0 && image.spec_height() > 0
            && spec_decode_budget_fits(image.spec_width(), image.spec_height())) ==> {
            &&& img.spec_width() == image.spec_width()
            &&& img.spec_height() == image.spec_height()
        }),
        (spec_format_of(params.format@) == Some(OutputFormat::Png) && image.spec_color()
            != ColorKind::Other && image.spec_width() > 0 && image.spec_height() > 0
            && spec_decode_budget_fits(image.spec_width(), image.spec_height())) ==> (
        r matches Ok(img) && img.shape() == image.shape()),
{
    let fmt = match parse_format(params.format.as_str()) {
        Some(f) => f,
        None => {
            return Err(
                AppError::UnsupportedMediaType("unrecognized target image format".to_owned()),
            );
        },
    };
    let bytes = match img_encode(&image, fmt) {
        Ok(b) => b,
        Err(()) => {
            return Err(AppError::ImageProcessingError("the encoder refused the image".to_owned()));
        },
    };
    match img_decode(bytes.as_slice()) {
        Ok(img) => Ok(img),
        Err(()) => Err(AppError::ImageProcessingError("the encoded image did not decode".to_owned())),
    }
}

/// Autorotate the image based on its orientation metadata. No orientation
/// is read, so this returns the image unchanged.
pub fn autorotate(image: ImageState) -> (r: ImageState)
    ensures
        r == image,
{
    image
}

/// Enlarge the image to the given dimensions, preserving aspect ratio;
/// an image at least as large as the target is returned unchanged.
pub fn enlarge(image: ImageState, params: &ResizeParams) -> (r: ImageState)
    requires
        params.valid(),
        dims_fit(params.width, params.height),
    ensures
        r.spec_color() == image.spec_color(),
        (params.width <= image.spec_width() && params.height <= image.spec_height()) ==> r == image,
        (params.width > image.spec_width() || params.height > image.spec_height()) ==> {
            &&& (r.spec_width(), r.spec_height()) == fit_dimensions(
                image.spec_width(),
                image.spec_height(),
                params.width,
                params.height,
            )
            &&& 1 <= r.spec_width() <= params.width
            &&& 1 <= r.spec_height() <= params.height
        },
{
    let (w, h) = image.dimensions();
    if params.width > w || params.height > h {
        img_resize_fit(&image, params.width, params.height)
    } else {
        image
    }
}

/// The rectangle an extract request is clamped to: the origin is clamped
/// into the image, the size to what remains.
pub open spec fn spec_extract_rect(iw: u32, ih: u32, p: ExtractParams) -> (u32, u32, u32, u32) {
    let x = if p.x < iw {
        p.x
    } else {
        iw
    };
    let y = if p.y < ih {
        p.y
    } else {
        ih
    };
    let w = if p.width < iw - x {
        p.width
    } else {
        (iw - x) as u32
    };
    let h = if p.height < ih - y {
        p.height
    } else {
        (ih - y) as u32
    };
    (x, y, w, h)
}

/// Extract a subregion, clamping the requested rectangle to the image.
pub fn extract(image: ImageState, params: &ExtractParams) -> (r: ImageState)
    requires
        params.valid(),
    ensures
        r.spec_color() == image.spec_color(),
        (r.spec_width(), r.spec_height()) == {
            let rect = spec_extract_rect(image.spec_width(), image.spec_height(), *params);
            (rect.2, rect.3)
        },
{
    let (iw, ih) = image.dimensions();
    let x: u32 = if params.x < iw {
        params.x
    } else {
        iw
    };
    let y: u32 = if params.y < ih {
        params.y
    } else {
        ih
    };
    let w: u32 = if params.width < iw - x {
        params.width
    } else {
        iw - x
    };
    let h: u32 = if params.height < ih - y {
        params.height
    } else {
        ih - y
    };
    img_crop(&image, x, y, w, h)
}

/// One zoomed dimension: the original scaled by the factor in thousandths,
/// rounded to the nearest whole pixel, at least one, clamped to the
/// dimension range.
pub open spec fn spec_zoom_dim(d: u32, factor_milli: i64) -> u32 {
    let scaled = (d * factor_milli + 500) / 1000;
    if scaled > u32::MAX {
        u32::MAX
    } else if scaled < 1 {
        1u32
    } else {
        scaled as u32
    }
}

/// Computes [`spec_zoom_dim`].
pub fn zoom_dim(d: u32, factor_milli: i64) -> (r: u32)
    requires
        factor_milli > 0,
    ensures
        r == spec_zoom_dim(d, factor_milli),
{
    proof {
        vstd::arithmetic::mul::lemma_mul_upper_bound(
            d as int,
            u32::MAX as int,
            factor_milli as int,
            i64::MAX as int,
        );
    }
    let scaled: u128 = ((d as u128) * (factor_milli as u128) + 500) / 1000;
    if scaled > u32::MAX as u128 {
        u32::MAX
    } else if scaled < 1 {
        1
    } else {
        scaled as u32
    }
}

/// Zoom into the image by the given factor, in thousandths: the image is
/// scaled to the zoomed target size, preserving aspect ratio.
pub fn zoom(image: ImageState, params: &ZoomParams) -> (r: ImageState)
    requires
        params.valid(),
        dims_fit(
            spec_zoom_dim(image.spec_width(), params.factor_milli),
            spec_zoom_dim(image.spec_height(), params.factor_milli),
        ),
    ensures
        r.spec_color() == image.spec_color(),
        ({
            let zw = spec_zoom_dim(image.spec_width(), params.factor_milli);
            let zh = spec_zoom_dim(image.spec_height(), params.factor_milli);
            (r.spec_width(), r.spec_height()) == if (zw, zh) == (
                image.spec_width(),
                image.spec_height(),
            ) {
                (zw, zh)
            } else {
                fit_dimensions(image.spec_width(), image.spec_height(), zw, zh)
            } && 1 <= r.spec_width() <= zw && 1 <= r.spec_height() <= zh
        }),
{
    let (iw, ih) = image.dimensions();
    let zw = zoom_dim(iw, params.factor_milli);
    let zh = zoom_dim(ih, params.factor_milli);
    img_resize_fit(&image, zw, zh)
}

/// Crop the centered rectangle of the given size, clamped to the image.
pub fn smart_crop(image: ImageState, params: &SmartCropParams) -> (r: ImageState)
    requires
        params.valid(),
    ensures
        r.spec_color() == image.spec_color(),
        r.spec_width() == if params.width < image.spec_width() {
            params.width
        } else {
            image.spec_width()
        },
        r.spec_height() == if params.height < image.spec_height() {
            params.height
        } else {
            image.spec_height()
        },
{
    let (iw, ih) = image.dimensions();
    let cw: u32 = if params.width < iw {
        params.width
    } else {
        iw
    };
    let ch: u32 = if params.height < ih {
        params.height
    } else {
        ih
    };
    let x: u32 = (iw - cw) / 2;
    let y: u32 = (ih - ch) / 2;
    img_crop(&image, x, y, cw, ch)
}

/// Create a thumbnail fitting within the given dimensions, preserving
/// aspect ratio.
pub fn thumbnail(image: ImageState, params: &ThumbnailParams) -> (r: ImageState)
    requires
        params.valid(),
        dims_fit(params.width, params.height),
    ensures
        r.spec_color() == image.spec_color(),
        (r.spec_width(), r.spec_height()) == fit_dimensions(
            image.spec_width(),
            image.spec_height(),
            params.width,
            params.height,
        ),
        1 <= r.spec_width() <= params.width,
        1 <= r.spec_height() <= params.height,
{
    img_thumbnail(&image, params.width, params.height)
}

} // verus!
