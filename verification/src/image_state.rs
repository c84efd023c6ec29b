//! The working image value threaded through a pipeline.
//!
//! An [`ImageState`] owns a decoded raster image together with the plain
//! facts the pipeline logic reads from it: its dimensions and its pixel
//! layout. The raster itself is opaque to verification; every pixel
//! operation goes through a trusted wrapper whose contract records what the
//! `image` ecosystem documents about the call. Fractional arguments reach
//! those wrappers as whole numbers, already rounded by verified code.

use vstd::prelude::*;

use image::GenericImage;

use crate::formats::OutputFormat;

verus! {

#[verifier::external_type_specification]
#[verifier::external_body]
pub struct ExDynamicImage(image::DynamicImage);

#[verifier::external_type_specification]
#[verifier::external_body]
pub struct ExFont<'a>(rusttype::Font<'a>);

/// The pixel layout of an image, as far as the pipeline logic cares.
#[derive(Clone, Copy, Debug, PartialEq, Eq, Structural)]
pub enum ColorKind {
    L8,
    La8,
    Rgb8,
    Rgba8,
    Other,
}

/// The plain shape of an image: dimensions and pixel layout.
#[derive(Clone, Copy, Debug, PartialEq, Eq, Structural)]
pub struct ImageShape {
    pub width: u32,
    pub height: u32,
    pub color: ColorKind,
}

/// An owned image together with its shape.
pub struct ImageState {
    inner: image::DynamicImage,
    width: u32,
    height: u32,
    color: ColorKind,
}

/// Whether a buffer of the given dimensions fits in memory at sixteen bytes
/// per pixel, the widest layout the library handles.
pub open spec fn dims_fit(w: u32, h: u32) -> bool {
    w * h * 16 <= usize::MAX
}

/// Whether an image of these dimensions surely fits the decoder's default
/// allocation budget of half a gibibyte, reckoned at sixteen bytes per
/// pixel — the widest layout — so that the codec's own scratch space has
/// ample headroom too. Round trips through the codecs are only claimed
/// under this bound.
pub open spec fn spec_decode_budget_fits(w: u32, h: u32) -> bool {
    w * h * 16 <= 536_870_912
}

/// Decides [`dims_fit`] without overflowing.
pub fn dims_fit_check(w: u32, h: u32) -> (b: bool)
    ensures
        b == dims_fit(w, h),
{
    proof {
        vstd::arithmetic::mul::lemma_mul_upper_bound(w as int, u32::MAX as int, h as int, u32::MAX as int);
    }
    let wh: u64 = (w as u64) * (h as u64);
    wh <= (usize::MAX as u64) / 16
}

impl ImageState {
    pub closed spec fn spec_width(&self) -> u32 {
        self.width
    }

    pub closed spec fn spec_height(&self) -> u32 {
        self.height
    }

    pub closed spec fn spec_color(&self) -> ColorKind {
        self.color
    }

    pub open spec fn shape(&self) -> ImageShape {
        ImageShape { width: self.spec_width(), height: self.spec_height(), color: self.spec_color() }
    }

    pub fn width(&self) -> (w: u32)
        ensures
            w == self.spec_width(),
    {
        self.width
    }

    pub fn height(&self) -> (h: u32)
        ensures
            h == self.spec_height(),
    {
        self.height
    }

    pub fn color(&self) -> (c: ColorKind)
        ensures
            c == self.spec_color(),
    {
        self.color
    }

    pub fn dimensions(&self) -> (d: (u32, u32))
        ensures
            d == (self.spec_width(), self.spec_height()),
    {
        (self.width, self.height)
    }
}

/// The dimensions `image`'s aspect-preserving scaling chooses for an image
/// of size `(w, h)` scaled to fit within `(bw, bh)`: the result of its
/// `resize_dimensions` routine, shared by `resize` and `thumbnail`.
pub uninterp spec fn fit_dimensions(w: u32, h: u32, bw: u32, bh: u32) -> (u32, u32);

/// The shape `image::load_from_memory` decodes the given bytes to, or
/// nothing when they are not a decodable image.
pub uninterp spec fn decoded_image(bytes: Seq<u8>) -> Option<ImageShape>;

/// The encoding `image::guess_format` sniffs from the given bytes,
/// restricted to the seven encodings the library recognizes.
pub uninterp spec fn sniffed_format(bytes: Seq<u8>) -> Option<OutputFormat>;

#[verifier::external_type_specification]
#[verifier::external_body]
pub struct ExColorType(image::ColorType);

/// Tells the four eight-bit layouts of `image::ColorType` apart from the
/// rest; nothing is assumed about the answer.
#[verifier::external_body]
fn color_kind_of(c: image::ColorType) -> ColorKind {
    match c {
        image::ColorType::L8 => ColorKind::L8,
        image::ColorType::La8 => ColorKind::La8,
        image::ColorType::Rgb8 => ColorKind::Rgb8,
        image::ColorType::Rgba8 => ColorKind::Rgba8,
        _ => ColorKind::Other,
    }
}

/// Clones the image.
///
/// Relies on `image::DynamicImage::clone`: the copy equals the original.
#[verifier::external_body]
pub fn img_clone(img: &ImageState) -> (out: ImageState)
    ensures
        out == *img,
{
    ImageState {
        inner: img.inner.clone(),
        width: img.width,
        height: img.height,
        color: img.color,
    }
}

/// Builds a solid-colour RGBA image.
///
/// Relies on `image::ImageBuffer::from_pixel`: the buffer has exactly the
/// given dimensions and every pixel is the given RGBA value.
#[verifier::external_body]
pub fn solid_rgba(width: u32, height: u32, r: u8, g: u8, b: u8, a: u8) -> (img: ImageState)
    requires
        dims_fit(width, height),
    ensures
        img.shape() == (ImageShape { width, height, color: ColorKind::Rgba8 }),
{
    let buffer = image::ImageBuffer::from_pixel(width, height, image::Rgba([r, g, b, a]));
    ImageState {
        inner: image::DynamicImage::ImageRgba8(buffer),
        width,
        height,
        color: ColorKind::Rgba8,
    }
}

/// Resizes to the exact target dimensions.
///
/// Relies on `image::DynamicImage::resize_exact`: the result has exactly the
/// requested dimensions and keeps the pixel layout of the input.
#[verifier::external_body]
pub(crate) fn img_resize_exact(img: &ImageState, w: u32, h: u32) -> (out: ImageState)
    requires
        w > 0,
        h > 0,
        dims_fit(w, h),
    ensures
        out.shape() == (ImageShape { width: w, height: h, color: img.spec_color() }),
{
    let inner = img.inner.resize_exact(w, h, image::imageops::FilterType::Lanczos3);
    ImageState { inner, width: w, height: h, color: img.color }
}

/// Resizes to fit within the given bounds, preserving aspect ratio.
///
/// Relies on `image::DynamicImage::resize`: when the bounds equal the
/// current dimensions the image is returned unscaled; otherwise the result
/// has the dimensions `resize_dimensions` chooses, which lie between one and
/// the respective bound. The pixel layout is kept.
#[verifier::external_body]
pub(crate) fn img_resize_fit(img: &ImageState, bw: u32, bh: u32) -> (out: ImageState)
    requires
        bw > 0,
        bh > 0,
        dims_fit(bw, bh),
    ensures
        out.spec_color() == img.spec_color(),
        (out.spec_width(), out.spec_height()) == if (bw, bh) == (
            img.spec_width(),
            img.spec_height(),
        ) {
            (bw, bh)
        } else {
            fit_dimensions(img.spec_width(), img.spec_height(), bw, bh)
        },
        1 <= out.spec_width() <= bw,
        1 <= out.spec_height() <= bh,
{
    let inner = img.inner.resize(bw, bh, image::imageops::FilterType::Lanczos3);
    let width = inner.width();
    let height = inner.height();
    ImageState { inner, width, height, color: img.color }
}

/// Scales down to a thumbnail fitting within the given bounds.
///
/// Relies on `image::DynamicImage::thumbnail`: the result has the dimensions
/// `resize_dimensions` chooses — the same sizing as `resize` — between one
/// and the respective bound, and keeps the pixel layout.
#[verifier::external_body]
pub(crate) fn img_thumbnail(img: &ImageState, bw: u32, bh: u32) -> (out: ImageState)
    requires
        bw > 0,
        bh > 0,
        dims_fit(bw, bh),
    ensures
        out.spec_color() == img.spec_color(),
        (out.spec_width(), out.spec_height()) == fit_dimensions(
            img.spec_width(),
            img.spec_height(),
            bw,
            bh,
        ),
        1 <= out.spec_width() <= bw,
        1 <= out.spec_height() <= bh,
{
    let inner = img.inner.thumbnail(bw, bh);
    let width = inner.width();
    let height = inner.height();
    ImageState { inner, width, height, color: img.color }
}

/// The rectangle `image`'s crop clamps a request to: the origin is clamped
/// into the image, then the size is clamped to what remains.
pub open spec fn spec_crop_size(iw: u32, ih: u32, x: u32, y: u32, w: u32, h: u32) -> (u32, u32) {
    let cx = if x < iw {
        x
    } else {
        iw
    };
    let cy = if y < ih {
        y
    } else {
        ih
    };
    let cw = if w < iw - cx {
        w
    } else {
        (iw - cx) as u32
    };
    let ch = if h < ih - cy {
        h
    } else {
        (ih - cy) as u32
    };
    (cw, ch)
}

/// Cuts out the given rectangle, clamped to the image bounds.
///
/// Relies on `image::DynamicImage::crop_imm`: the requested rectangle is
/// clamped as [`spec_crop_size`] says, and the cut-out keeps the pixel
/// layout.
#[verifier::external_body]
pub(crate) fn img_crop(img: &ImageState, x: u32, y: u32, w: u32, h: u32) -> (out: ImageState)
    ensures
        out.spec_color() == img.spec_color(),
        (out.spec_width(), out.spec_height()) == spec_crop_size(
            img.spec_width(),
            img.spec_height(),
            x,
            y,
            w,
            h,
        ),
{
    let inner = img.inner.crop_imm(x, y, w, h);
    let width = inner.width();
    let height = inner.height();
    ImageState { inner, width, height, color: img.color }
}

/// Rotates a quarter turn clockwise.
///
/// Relies on `image::DynamicImage::rotate90`: the dimensions swap and the
/// pixel layout is kept.
#[verifier::external_body]
pub(crate) fn img_rotate90(img: &ImageState) -> (out: ImageState)
    ensures
        out.shape() == (ImageShape {
            width: img.spec_height(),
            height: img.spec_width(),
            color: img.spec_color(),
        }),
{
    let inner = img.inner.rotate90();
    ImageState { inner, width: img.height, height: img.width, color: img.color }
}

/// Rotates a half turn.
///
/// Relies on `image::DynamicImage::rotate180`: the shape is kept.
#[verifier::external_body]
pub(crate) fn img_rotate180(img: &ImageState) -> (out: ImageState)
    ensures
        out.shape() == img.shape(),
{
    let inner = img.inner.rotate180();
    ImageState { inner, width: img.width, height: img.height, color: img.color }
}

/// Rotates three quarter turns clockwise.
///
/// Relies on `image::DynamicImage::rotate270`: the dimensions swap and the
/// pixel layout is kept.
#[verifier::external_body]
pub(crate) fn img_rotate270(img: &ImageState) -> (out: ImageState)
    ensures
        out.shape() == (ImageShape {
            width: img.spec_height(),
            height: img.spec_width(),
            color: img.spec_color(),
        }),
{
    let inner = img.inner.rotate270();
    ImageState { inner, width: img.height, height: img.width, color: img.color }
}

/// Mirrors left-right.
///
/// Relies on `image::DynamicImage::fliph`: the shape is kept.
#[verifier::external_body]
pub(crate) fn img_fliph(img: &ImageState) -> (out: ImageState)
    ensures
        out.shape() == img.shape(),
{
    let inner = img.inner.fliph();
    ImageState { inner, width: img.width, height: img.height, color: img.color }
}

/// Mirrors top-bottom.
///
/// Relies on `image::DynamicImage::flipv`: the shape is kept.
#[verifier::external_body]
pub(crate) fn img_flipv(img: &ImageState) -> (out: ImageState)
    ensures
        out.shape() == img.shape(),
{
    let inner = img.inner.flipv();
    ImageState { inner, width: img.width, height: img.height, color: img.color }
}

/// Converts to eight-bit grayscale.
///
/// Relies on `image::DynamicImage::to_luma8`: the dimensions are kept and
/// the result is single-channel eight-bit.
#[verifier::external_body]
pub(crate) fn img_grayscale(img: &ImageState) -> (out: ImageState)
    ensures
        out.shape() == (ImageShape {
            width: img.spec_width(),
            height: img.spec_height(),
            color: ColorKind::L8,
        }),
{
    let inner: image::DynamicImage = img.inner.to_luma8().into();
    ImageState { inner, width: img.width, height: img.height, color: ColorKind::L8 }
}

/// Brightens every pixel by the given amount.
///
/// Relies on `image::DynamicImage::brighten`: the shape is kept.
#[verifier::external_body]
pub(crate) fn img_brighten(img: &ImageState, value: i32) -> (out: ImageState)
    ensures
        out.shape() == img.shape(),
{
    let inner = img.inner.brighten(value);
    ImageState { inner, width: img.width, height: img.height, color: img.color }
}

/// Adjusts the contrast by a whole-number amount.
///
/// Relies on `image::DynamicImage::adjust_contrast`: the shape is kept.
#[verifier::external_body]
pub(crate) fn img_adjust_contrast(img: &ImageState, value: i16) -> (out: ImageState)
    ensures
        out.shape() == img.shape(),
{
    let inner = img.inner.adjust_contrast(value.into());
    ImageState { inner, width: img.width, height: img.height, color: img.color }
}

/// Gaussian-blurs the image with a whole-pixel sigma.
///
/// Relies on `image::DynamicImage::blur`: the shape is kept.
#[verifier::external_body]
pub(crate) fn img_blur(img: &ImageState, sigma: u16) -> (out: ImageState)
    ensures
        out.shape() == img.shape(),
{
    let inner = img.inner.blur(sigma.into());
    ImageState { inner, width: img.width, height: img.height, color: img.color }
}

/// Convolves with a three-by-three kernel of whole numbers.
///
/// Relies on `image::DynamicImage::filter3x3`: with a nine-element kernel
/// the shape is kept.
#[verifier::external_body]
pub(crate) fn img_filter3x3(img: &ImageState, kernel: &Vec<i8>) -> (out: ImageState)
    requires
        kernel@.len() == 9,
    ensures
        out.shape() == img.shape(),
{
    let k: Vec<_> = kernel.iter().map(|v| (*v).into()).collect();
    let inner = img.inner.filter3x3(&k);
    ImageState { inner, width: img.width, height: img.height, color: img.color }
}

/// Copies another image into this one at the given position.
///
/// Relies on `GenericImage::copy_from` for `image::DynamicImage`: when the
/// other image fits at that position, every one of its pixels is copied and
/// the base image's shape is kept.
#[verifier::external_body]
pub(crate) fn img_copy_from(base: &ImageState, top: &ImageState, x: u32, y: u32) -> (out: ImageState)
    requires
        x + top.spec_width() <= base.spec_width(),
        y + top.spec_height() <= base.spec_height(),
    ensures
        out.shape() == base.shape(),
{
    let mut inner = base.inner.clone();
    let _ = inner.copy_from(&top.inner, x, y);
    ImageState { inner, width: base.width, height: base.height, color: base.color }
}

/// Alpha-blends another image over this one at the given position,
/// clipping whatever falls outside.
///
/// Relies on `image::imageops::overlay`: the base image's shape is kept.
#[verifier::external_body]
pub(crate) fn img_overlay_at(base: &ImageState, top: &ImageState, x: i64, y: i64) -> (out: ImageState)
    ensures
        out.shape() == base.shape(),
{
    let mut inner = base.inner.clone();
    image::imageops::overlay(&mut inner, &top.inner, x, y);
    ImageState { inner, width: base.width, height: base.height, color: base.color }
}

/// Draws text onto the image in the given colour and pixel size.
///
/// Relies on `imageproc::drawing::draw_text_mut` over an RGBA copy of the
/// image: the dimensions are kept and the result is eight-bit RGBA.
#[verifier::external_body]
pub(crate) fn img_draw_text(
    img: &ImageState,
    r: u8,
    g: u8,
    b: u8,
    alpha: u8,
    x: i32,
    y: i32,
    font_px: u16,
    font: &rusttype::Font<'static>,
    text: &str,
) -> (out: ImageState)
    ensures
        out.shape() == (ImageShape {
            width: img.spec_width(),
            height: img.spec_height(),
            color: ColorKind::Rgba8,
        }),
{
    let mut rgba = img.inner.to_rgba8();
    let scale = rusttype::Scale { x: font_px.into(), y: font_px.into() };
    imageproc::drawing::draw_text_mut(&mut rgba, image::Rgba([r, g, b, alpha]), x, y, scale, font, text);
    ImageState {
        inner: image::DynamicImage::ImageRgba8(rgba),
        width: img.width,
        height: img.height,
        color: ColorKind::Rgba8,
    }
}

/// The horizontal extent of the text's last inked glyph, in pixels, at the
/// given font size; zero when nothing is inked.
///
/// Relies on `rusttype::Font::layout` and the glyphs' pixel bounding boxes;
/// nothing is assumed about the value.
#[verifier::external_body]
pub(crate) fn text_inked_width(font: &rusttype::Font<'static>, font_px: u16, text: &str) -> i32 {
    let scale = rusttype::Scale { x: font_px.into(), y: font_px.into() };
    let start = rusttype::point(0u16.into(), 0u16.into());
    font.layout(text, scale, start).filter_map(|g| g.pixel_bounding_box()).last().map(
        |bb| bb.max.x,
    ).unwrap_or(0)
}

#[verifier::external_type_specification]
#[verifier::external_body]
pub struct ExImageFormat(image::ImageFormat);

/// Maps an encoding of the library onto the `image` crate's own name for
/// it; nothing is assumed about the value.
#[verifier::external_body]
fn to_image_format(fmt: OutputFormat) -> image::ImageFormat {
    match fmt {
        OutputFormat::Png => image::ImageFormat::Png,
        OutputFormat::Jpeg => image::ImageFormat::Jpeg,
        OutputFormat::Gif => image::ImageFormat::Gif,
        OutputFormat::WebP => image::ImageFormat::WebP,
        OutputFormat::Bmp => image::ImageFormat::Bmp,
        OutputFormat::Tiff => image::ImageFormat::Tiff,
        OutputFormat::Ico => image::ImageFormat::Ico,
    }
}

/// Encodes the image into the given format.
///
/// Relies on `image::DynamicImage::write_to` into an in-memory buffer, and
/// on `image::load_from_memory` for the round-trip claims: for an image
/// with positive dimensions within the decode budget, success means the
/// bytes decode back to an image of the same dimensions, and a PNG
/// encoding of an eight-bit layout decodes back to the same shape. The
/// encoders refuse a zero-width or zero-height image, and the decoder's
/// default half-gibibyte allocation limit refuses very large ones, so
/// nothing is claimed outside those bounds. A PNG encoding itself — apart
/// from any decoding — succeeds for every eight-bit layout of positive
/// dimensions, and a JPEG encoding for every eight-bit layout whose
/// dimensions fit in sixteen bits.
#[verifier::external_body]
pub(crate) fn img_encode(img: &ImageState, fmt: OutputFormat) -> (r: Result<Vec<u8>, ()>)
    ensures
        (img.spec_width() > 0 && img.spec_height() > 0 && spec_decode_budget_fits(
            img.spec_width(),
            img.spec_height(),
        )) ==> match r {
            Ok(bytes) => {
                &&& decoded_image(bytes@) is Some
                &&& decoded_image(bytes@)->0.width == img.spec_width()
                &&& decoded_image(bytes@)->0.height == img.spec_height()
                &&& fmt == OutputFormat::Png && img.spec_color() != ColorKind::Other
                    ==> decoded_image(bytes@) == Some(img.shape())
            },
            Err(()) => true,
        },
        (fmt == OutputFormat::Png && img.spec_color() != ColorKind::Other && img.spec_width() > 0
            && img.spec_height() > 0) ==> r is Ok,
        (fmt == OutputFormat::Jpeg && img.spec_color() != ColorKind::Other && 1 <= img.spec_width()
            <= 65535 && 1 <= img.spec_height() <= 65535) ==> r is Ok,
{
    let mut buffer: Vec<u8> = Vec::new();
    let mut cursor = std::io::Cursor::new(&mut buffer);
    match img.inner.write_to(&mut cursor, to_image_format(fmt)) {
        Ok(()) => Ok(buffer),
        Err(_) => Err(()),
    }
}

/// Decodes image bytes.
///
/// Relies on `image::load_from_memory`: it succeeds exactly on decodable
/// bytes, and the decoded image's shape is a function of the bytes alone.
#[verifier::external_body]
pub(crate) fn img_decode(bytes: &[u8]) -> (r: Result<ImageState, ()>)
    ensures
        r is Ok <==> decoded_image(bytes@) is Some,
        r matches Ok(img) ==> Some(img.shape()) == decoded_image(bytes@),
{
    match image::load_from_memory(bytes) {
        Ok(inner) => {
            let width = inner.width();
            let height = inner.height();
            let color = color_kind_of(inner.color());
            Ok(ImageState { inner, width, height, color })
        },
        Err(_) => Err(()),
    }
}

/// Sniffs the encoding of image bytes from their magic numbers.
///
/// Relies on `image::guess_format`, restricted to the seven encodings the
/// library recognizes: the answer is a function of the bytes alone.
#[verifier::external_body]
pub(crate) fn img_sniff_format(bytes: &[u8]) -> (r: Option<OutputFormat>)
    ensures
        r == sniffed_format(bytes@),
{
    match image::guess_format(bytes) {
        Ok(image::ImageFormat::Png) => Some(OutputFormat::Png),
        Ok(image::ImageFormat::Jpeg) => Some(OutputFormat::Jpeg),
        Ok(image::ImageFormat::Gif) => Some(OutputFormat::Gif),
        Ok(image::ImageFormat::WebP) => Some(OutputFormat::WebP),
        Ok(image::ImageFormat::Bmp) => Some(OutputFormat::Bmp),
        Ok(image::ImageFormat::Tiff) => Some(OutputFormat::Tiff),
        Ok(image::ImageFormat::Ico) => Some(OutputFormat::Ico),
        _ => None,
    }
}

} // verus!
