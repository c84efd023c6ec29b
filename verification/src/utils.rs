//! Byte-level image helpers.

use vstd::prelude::*;

use crate::errors::ImageError;
use crate::formats::OutputFormat;
use crate::image_state::{
    decoded_image, img_decode, img_encode, img_sniff_format, sniffed_format, spec_decode_budget_fits,
    ColorKind, ImageShape, ImageState,
};
use crate::params::Validate;

verus! {

/// The dimensions the given bytes decode to, if they decode at all.
pub fn get_image_dimensions(image_bytes: &[u8]) -> (r: Option<(u32, u32)>)
    ensures
        r == match decoded_image(image_bytes@) {
            Some(s) => Some((s.width, s.height)),
            None => None::<(u32, u32)>,
        },
{
    match img_decode(image_bytes) {
        Ok(img) => Some(img.dimensions()),
        Err(()) => None,
    }
}

/// The encoding sniffed from the given bytes, if it is one the library
/// recognizes.
pub fn get_image_format(image_bytes: &[u8]) -> (r: Option<OutputFormat>)
    ensures
        r == sniffed_format(image_bytes@),
{
    img_sniff_format(image_bytes)
}

/// Decodes image bytes into a working image.
pub fn load_image_from_bytes(image_bytes: &[u8]) -> (r: Result<ImageState, String>)
    ensures
        r is Ok <==> decoded_image(image_bytes@) is Some,
        r matches Ok(img) ==> Some(img.shape()) == decoded_image(image_bytes@),
{
    match img_decode(image_bytes) {
        Ok(img) => Ok(img),
        Err(()) => Err("Failed to load image".to_owned()),
    }
}

/// Encodes a working image into the given format. For an image of positive
/// dimensions within the decode budget: any successful encoding decodes
/// back to the same dimensions, and a PNG encoding of an eight-bit image
/// always succeeds and decodes back to the same shape. The encoders refuse
/// zero-size images and the decoder's allocation limit refuses very large
/// ones, so nothing is promised outside those bounds.
pub fn save_image_to_bytes(image: &ImageState, format: OutputFormat) -> (r: Result<Vec<u8>, String>)
    ensures
        r matches Ok(bytes) ==> ((image.spec_width() > 0 && image.spec_height() > 0
            && spec_decode_budget_fits(image.spec_width(), image.spec_height())) ==> {
            &&& decoded_image(bytes@) is Some
            &&& decoded_image(bytes@)->0.width == image.spec_width()
            &&& decoded_image(bytes@)->0.height == image.spec_height()
            &&& format == OutputFormat::Png && image.spec_color() != ColorKind::Other
                ==> decoded_image(bytes@) == Some(image.shape())
        }),
        (format == OutputFormat::Png && image.spec_color() != ColorKind::Other && image.spec_width()
            > 0 && image.spec_height() > 0) ==> r is Ok,
{
    match img_encode(image, format) {
        Ok(bytes) => Ok(bytes),
        Err(()) => Err("Failed to save image".to_owned()),
    }
}

/// Validates a typed parameter structure.
pub fn validate_params<T: Validate>(params: &T) -> (r: Result<(), ImageError>)
    ensures
        r is Ok <==> params.valid(),
        !params.valid() ==> r == Err::<(), ImageError>(params.invalid_reason()),
{
    params.validate()
}

} // verus!
