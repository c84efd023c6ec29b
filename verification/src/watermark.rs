//! Text and image watermarks.
//!
//! The placement arithmetic is verified exactly; the measurement of the
//! text and the actual drawing go through trusted wrappers. Where the text
//! metrics would need font arithmetic, the line height is approximated by
//! the font size.

use vstd::prelude::*;

use crate::image_state::{
    dims_fit, img_draw_text, img_overlay_at, solid_rgba, text_inked_width, ColorKind, ImageShape,
    ImageState,
};
use crate::params::{Validate, WatermarkImageParams, WatermarkParams, WatermarkPosition};

verus! {

/// The margin, in pixels, kept between an automatically placed watermark
/// and the image border.
pub const WATERMARK_MARGIN: u32 = 10;

/// Where a text watermark goes: explicit coordinates win; otherwise the
/// named corner or the centre, offset by the margin and by the text's
/// measured size, with saturation at the borders.
pub open spec fn spec_watermark_position(
    pos: WatermarkPosition,
    x: Option<u32>,
    y: Option<u32>,
    iw: u32,
    ih: u32,
    text_w: u32,
    text_h: u32,
) -> (u32, u32) {
    if x is Some && y is Some {
        (x->0, y->0)
    } else {
        let margin = WATERMARK_MARGIN;
        match pos {
            WatermarkPosition::TopLeft => (margin, sat_add_u32(margin, text_h)),
            WatermarkPosition::TopRight => (
                sat_sub_u32(iw, sat_add_u32(text_w, margin)),
                sat_add_u32(margin, text_h),
            ),
            WatermarkPosition::BottomLeft => (margin, sat_sub_u32(ih, margin)),
            WatermarkPosition::BottomRight => (
                sat_sub_u32(iw, sat_add_u32(text_w, margin)),
                sat_sub_u32(ih, margin),
            ),
            WatermarkPosition::Center => (
                (sat_sub_u32(iw, text_w) / 2) as u32,
                sat_add_u32((sat_sub_u32(ih, text_h) / 2) as u32, text_h),
            ),
        }
    }
}

pub open spec fn sat_add_u32(a: u32, b: u32) -> u32 {
    if a + b > u32::MAX {
        u32::MAX
    } else {
        (a + b) as u32
    }
}

pub open spec fn sat_sub_u32(a: u32, b: u32) -> u32 {
    if a >= b {
        (a - b) as u32
    } else {
        0u32
    }
}

fn exec_sat_add_u32(a: u32, b: u32) -> (r: u32)
    ensures
        r == sat_add_u32(a, b),
{
    if a <= u32::MAX - b {
        a + b
    } else {
        u32::MAX
    }
}

fn exec_sat_sub_u32(a: u32, b: u32) -> (r: u32)
    ensures
        r == sat_sub_u32(a, b),
{
    if a >= b {
        a - b
    } else {
        0
    }
}

/// Computes [`spec_watermark_position`].
pub fn watermark_position(
    pos: WatermarkPosition,
    x: Option<u32>,
    y: Option<u32>,
    iw: u32,
    ih: u32,
    text_w: u32,
    text_h: u32,
) -> (r: (u32, u32))
    ensures
        r == spec_watermark_position(pos, x, y, iw, ih, text_w, text_h),
{
    if let (Some(xv), Some(yv)) = (x, y) {
        return (xv, yv);
    }
    let margin = WATERMARK_MARGIN;
    match pos {
        WatermarkPosition::TopLeft => (margin, exec_sat_add_u32(margin, text_h)),
        WatermarkPosition::TopRight => (
            exec_sat_sub_u32(iw, exec_sat_add_u32(text_w, margin)),
            exec_sat_add_u32(margin, text_h),
        ),
        WatermarkPosition::BottomLeft => (margin, exec_sat_sub_u32(ih, margin)),
        WatermarkPosition::BottomRight => (
            exec_sat_sub_u32(iw, exec_sat_add_u32(text_w, margin)),
            exec_sat_sub_u32(ih, margin),
        ),
        WatermarkPosition::Center => (
            exec_sat_sub_u32(iw, text_w) / 2,
            exec_sat_add_u32(exec_sat_sub_u32(ih, text_h) / 2, text_h),
        ),
    }
}

/// Apply a text watermark: the text is drawn in the parameters' colour and
/// opacity at the position the placement rule chooses, and the result is
/// an eight-bit RGBA image of the same dimensions.
pub fn watermark(image: &ImageState, params: &WatermarkParams, font: &rusttype::Font<'static>) -> (r:
    ImageState)
    requires
        params.valid(),
    ensures
        r.shape() == (ImageShape {
            width: image.spec_width(),
            height: image.spec_height(),
            color: ColorKind::Rgba8,
        }),
{
    let px: u16 = if params.font_size > 65535 {
        65535
    } else {
        params.font_size as u16
    };
    let alpha: u8 = ((params.opacity_milli * 255) / 1000) as u8;
    let inked: i32 = text_inked_width(font, px, params.text.as_str());
    let text_w: u32 = if inked < 0 {
        0
    } else {
        inked as u32
    };
    let text_h: u32 = px as u32;
    let (iw, ih) = image.dimensions();
    let (x, y) = watermark_position(params.position, params.x, params.y, iw, ih, text_w, text_h);
    let xi: i32 = if x > i32::MAX as u32 {
        i32::MAX
    } else {
        x as i32
    };
    let yi: i32 = if y > i32::MAX as u32 {
        i32::MAX
    } else {
        y as i32
    };
    img_draw_text(
        image,
        params.color.r,
        params.color.g,
        params.color.b,
        alpha,
        xi,
        yi,
        px,
        font,
        params.text.as_str(),
    )
}

/// Overlay a translucent white placeholder watermark, a quarter of the
/// image in each dimension, at the parameters' position; the image keeps
/// its shape.
pub fn watermark_image(image: ImageState, params: &WatermarkImageParams) -> (r: ImageState)
    requires
        params.valid(),
        dims_fit(image.spec_width() / 4, image.spec_height() / 4),
    ensures
        r.shape() == image.shape(),
{
    let (iw, ih) = image.dimensions();
    let ww: u32 = iw / 4;
    let wh: u32 = ih / 4;
    let alpha: u8 = ((params.opacity_milli * 255) / 1000) as u8;
    let wm = solid_rgba(ww, wh, 255, 255, 255, alpha);
    let (x, y): (u32, u32) = match params.position {
        WatermarkPosition::TopLeft => (0, 0),
        WatermarkPosition::TopRight => (iw - ww, 0),
        WatermarkPosition::BottomLeft => (0, ih - wh),
        WatermarkPosition::BottomRight => (iw - ww, ih - wh),
        WatermarkPosition::Center => ((iw - ww) / 2, (ih - wh) / 2),
    };
    img_overlay_at(&image, &wm, x as i64, y as i64)
}

} // verus!
