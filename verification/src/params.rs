//! Parameter schemas and validators.
//!
//! A pipeline step carries an untyped, map-like parameter document
//! ([`Params`]). Before anything is done with a step, that document is parsed
//! into the typed structure of its operation kind and checked against the
//! kind's semantic constraints; nothing downstream ever touches the untyped
//! form.
//!
//! Fractional numbers are carried in thousandths (`*_milli` fields), so an
//! opacity of one half is `500` and a blur sigma of `1.5` is `1500`.

use vstd::prelude::*;

use crate::errors::{ImageError, ParamField};
use crate::text::str_eq;

verus! {

/// One value of the untyped parameter document.
///
/// `Int` holds a number written without a fractional part; `Milli` holds any
/// other number, in thousandths. The distinction matters because integer
/// fields reject fractional input.
#[derive(Debug, Clone, PartialEq, Eq)]
pub enum ParamValue {
    Null,
    Bool(bool),
    Int(i64),
    Milli(i64),
    Text(String),
    IntList(Vec<i64>),
}

/// The untyped parameter document of one pipeline step: named values in
/// input order. Lookup takes the first binding of a name.
#[derive(Debug, Clone)]
pub struct Params {
    pub fields: Vec<(String, ParamValue)>,
}

/// First binding of `name` in `fields` at or after position `i`.
pub open spec fn spec_lookup_from(fields: Seq<(String, ParamValue)>, i: int, name: Seq<char>) -> Option<ParamValue>
    decreases fields.len() - i,
{
    if i < 0 || i >= fields.len() {
        None
    } else if fields[i].0@ == name {
        Some(fields[i].1)
    } else {
        spec_lookup_from(fields, i + 1, name)
    }
}

/// First binding of `name` in `fields`.
pub open spec fn spec_lookup(fields: Seq<(String, ParamValue)>, name: Seq<char>) -> Option<ParamValue> {
    spec_lookup_from(fields, 0, name)
}

impl Params {
    pub fn new() -> (p: Params)
        ensures
            p.fields@.len() == 0,
    {
        Params { fields: Vec::new() }
    }

    /// Appends a binding. Existing bindings of the same name keep priority.
    pub fn set(&mut self, name: &str, value: ParamValue)
        ensures
            final(self).fields@.len() == old(self).fields@.len() + 1,
            final(self).fields@.subrange(0, old(self).fields@.len() as int) == old(self).fields@,
            final(self).fields@.last().0@ == name@,
            final(self).fields@.last().1 == value,
    {
        self.fields.push((name.to_owned(), value));
        proof {
            assert(self.fields@.subrange(0, old(self).fields@.len() as int) =~= old(
                self,
            ).fields@);
        }
    }

    /// Looks a name up in the document.
    pub fn get(&self, name: &str) -> (r: Option<&ParamValue>)
        ensures
            match r {
                Some(v) => spec_lookup(self.fields@, name@) == Some(*v),
                None => spec_lookup(self.fields@, name@) is None,
            },
    {
        let mut i: usize = 0;
        while i < self.fields.len()
            invariant
                0 <= i <= self.fields@.len(),
                spec_lookup(self.fields@, name@) == spec_lookup_from(self.fields@, i as int, name@),
            decreases self.fields@.len() - i,
        {
            if str_eq(self.fields[i].0.as_str(), name) {
                return Some(&self.fields[i].1);
            }
            i = i + 1;
        }
        None
    }
}

/// An integer parameter scaled to thousandths, saturating at the extremes.
pub open spec fn spec_milli_of_int(v: i64) -> i64 {
    if v > 9_223_372_036_854_775 {
        i64::MAX
    } else if v < -9_223_372_036_854_775 {
        i64::MIN
    } else {
        (v * 1000) as i64
    }
}

fn milli_of_int(v: i64) -> (m: i64)
    ensures
        m == spec_milli_of_int(v),
{
    if v > 9_223_372_036_854_775 {
        i64::MAX
    } else if v < -9_223_372_036_854_775 {
        i64::MIN
    } else {
        v * 1000
    }
}

/// An unsigned integer field: absent means `default`; a non-negative whole
/// number in range is accepted; anything else is a parse failure.
pub open spec fn spec_get_u32(
    fields: Seq<(String, ParamValue)>,
    name: Seq<char>,
    default: u32,
    field: ParamField,
) -> Result<u32, ParamField> {
    match spec_lookup(fields, name) {
        None => Ok(default),
        Some(ParamValue::Int(v)) => if 0 <= v <= u32::MAX {
            Ok(v as u32)
        } else {
            Err(field)
        },
        Some(_) => Err(field),
    }
}

pub fn get_u32(p: &Params, name: &str, default: u32, field: ParamField) -> (r: Result<u32, ParamField>)
    ensures
        r == spec_get_u32(p.fields@, name@, default, field),
{
    match p.get(name) {
        None => Ok(default),
        Some(ParamValue::Int(v)) => {
            let v: i64 = *v;
            if 0 <= v && v <= u32::MAX as i64 {
                Ok(v as u32)
            } else {
                Err(field)
            }
        },
        Some(_) => Err(field),
    }
}

/// A signed 32-bit integer field with a default.
pub open spec fn spec_get_i32(
    fields: Seq<(String, ParamValue)>,
    name: Seq<char>,
    default: i32,
    field: ParamField,
) -> Result<i32, ParamField> {
    match spec_lookup(fields, name) {
        None => Ok(default),
        Some(ParamValue::Int(v)) => if i32::MIN <= v <= i32::MAX {
            Ok(v as i32)
        } else {
            Err(field)
        },
        Some(_) => Err(field),
    }
}

pub fn get_i32(p: &Params, name: &str, default: i32, field: ParamField) -> (r: Result<i32, ParamField>)
    ensures
        r == spec_get_i32(p.fields@, name@, default, field),
{
    match p.get(name) {
        None => Ok(default),
        Some(ParamValue::Int(v)) => {
            let v: i64 = *v;
            if i32::MIN as i64 <= v && v <= i32::MAX as i64 {
                Ok(v as i32)
            } else {
                Err(field)
            }
        },
        Some(_) => Err(field),
    }
}

/// A fractional field in thousandths: whole numbers are scaled, fractional
/// input is taken as given; absent means `default_milli`.
pub open spec fn spec_get_milli(
    fields: Seq<(String, ParamValue)>,
    name: Seq<char>,
    default_milli: i64,
    field: ParamField,
) -> Result<i64, ParamField> {
    match spec_lookup(fields, name) {
        None => Ok(default_milli),
        Some(ParamValue::Int(v)) => Ok(spec_milli_of_int(v)),
        Some(ParamValue::Milli(m)) => Ok(m),
        Some(_) => Err(field),
    }
}

pub fn get_milli(p: &Params, name: &str, default_milli: i64, field: ParamField) -> (r: Result<
    i64,
    ParamField,
>)
    ensures
        r == spec_get_milli(p.fields@, name@, default_milli, field),
{
    match p.get(name) {
        None => Ok(default_milli),
        Some(ParamValue::Int(v)) => Ok(milli_of_int(*v)),
        Some(ParamValue::Milli(m)) => Ok(*m),
        Some(_) => Err(field),
    }
}

/// An optional fractional field: absent or null means none.
pub open spec fn spec_get_opt_milli(
    fields: Seq<(String, ParamValue)>,
    name: Seq<char>,
    field: ParamField,
) -> Result<Option<i64>, ParamField> {
    match spec_lookup(fields, name) {
        None => Ok(None),
        Some(ParamValue::Null) => Ok(None),
        Some(ParamValue::Int(v)) => Ok(Some(spec_milli_of_int(v))),
        Some(ParamValue::Milli(m)) => Ok(Some(m)),
        Some(_) => Err(field),
    }
}

pub fn get_opt_milli(p: &Params, name: &str, field: ParamField) -> (r: Result<Option<i64>, ParamField>)
    ensures
        r == spec_get_opt_milli(p.fields@, name@, field),
{
    match p.get(name) {
        None => Ok(None),
        Some(ParamValue::Null) => Ok(None),
        Some(ParamValue::Int(v)) => Ok(Some(milli_of_int(*v))),
        Some(ParamValue::Milli(m)) => Ok(Some(*m)),
        Some(_) => Err(field),
    }
}

/// An optional unsigned integer field: absent or null means none.
pub open spec fn spec_get_opt_u32(
    fields: Seq<(String, ParamValue)>,
    name: Seq<char>,
    field: ParamField,
) -> Result<Option<u32>, ParamField> {
    match spec_lookup(fields, name) {
        None => Ok(None),
        Some(ParamValue::Null) => Ok(None),
        Some(ParamValue::Int(v)) => if 0 <= v <= u32::MAX {
            Ok(Some(v as u32))
        } else {
            Err(field)
        },
        Some(_) => Err(field),
    }
}

pub fn get_opt_u32(p: &Params, name: &str, field: ParamField) -> (r: Result<Option<u32>, ParamField>)
    ensures
        r == spec_get_opt_u32(p.fields@, name@, field),
{
    match p.get(name) {
        None => Ok(None),
        Some(ParamValue::Null) => Ok(None),
        Some(ParamValue::Int(v)) => {
            let v: i64 = *v;
            if 0 <= v && v <= u32::MAX as i64 {
                Ok(Some(v as u32))
            } else {
                Err(field)
            }
        },
        Some(_) => Err(field),
    }
}

/// An optional byte-sized field (quality): absent or null means none.
pub open spec fn spec_get_opt_u8(
    fields: Seq<(String, ParamValue)>,
    name: Seq<char>,
    field: ParamField,
) -> Result<Option<u8>, ParamField> {
    match spec_lookup(fields, name) {
        None => Ok(None),
        Some(ParamValue::Null) => Ok(None),
        Some(ParamValue::Int(v)) => if 0 <= v <= u8::MAX {
            Ok(Some(v as u8))
        } else {
            Err(field)
        },
        Some(_) => Err(field),
    }
}

pub fn get_opt_u8(p: &Params, name: &str, field: ParamField) -> (r: Result<Option<u8>, ParamField>)
    ensures
        r == spec_get_opt_u8(p.fields@, name@, field),
{
    match p.get(name) {
        None => Ok(None),
        Some(ParamValue::Null) => Ok(None),
        Some(ParamValue::Int(v)) => {
            let v: i64 = *v;
            if 0 <= v && v <= u8::MAX as i64 {
                Ok(Some(v as u8))
            } else {
                Err(field)
            }
        },
        Some(_) => Err(field),
    }
}

/// A text field with a default.
pub open spec fn spec_get_text(
    fields: Seq<(String, ParamValue)>,
    name: Seq<char>,
    default: Seq<char>,
    field: ParamField,
) -> Result<Seq<char>, ParamField> {
    match spec_lookup(fields, name) {
        None => Ok(default),
        Some(ParamValue::Text(s)) => Ok(s@),
        Some(_) => Err(field),
    }
}

pub fn get_text(p: &Params, name: &str, default: &str, field: ParamField) -> (r: Result<String, ParamField>)
    ensures
        match r {
            Ok(s) => spec_get_text(p.fields@, name@, default@, field) == Ok::<Seq<char>, ParamField>(s@),
            Err(f) => spec_get_text(p.fields@, name@, default@, field) == Err::<Seq<char>, ParamField>(f),
        },
{
    match p.get(name) {
        None => Ok(default.to_owned()),
        Some(ParamValue::Text(s)) => Ok(s.clone()),
        Some(_) => Err(field),
    }
}

/// An RGB colour.
#[derive(Debug, Clone, Copy, PartialEq, Eq, Structural)]
pub struct Rgb {
    pub r: u8,
    pub g: u8,
    pub b: u8,
}

/// An RGB colour given as a list of exactly three byte values.
pub open spec fn spec_get_color(
    fields: Seq<(String, ParamValue)>,
    name: Seq<char>,
    default: Rgb,
) -> Result<Rgb, ParamField> {
    match spec_lookup(fields, name) {
        None => Ok(default),
        Some(ParamValue::IntList(l)) => if l@.len() == 3 && (forall|i: int|
            0 <= i < 3 ==> 0 <= #[trigger] l@[i] <= u8::MAX) {
            Ok(Rgb { r: l@[0] as u8, g: l@[1] as u8, b: l@[2] as u8 })
        } else {
            Err(ParamField::Color)
        },
        Some(_) => Err(ParamField::Color),
    }
}

pub fn get_color(p: &Params, name: &str, default: Rgb) -> (r: Result<Rgb, ParamField>)
    ensures
        r == spec_get_color(p.fields@, name@, default),
{
    match p.get(name) {
        None => Ok(default),
        Some(ParamValue::IntList(l)) => {
            if l.len() != 3 {
                return Err(ParamField::Color);
            }
            let a: i64 = l[0];
            let b: i64 = l[1];
            let c: i64 = l[2];
            if 0 <= a && a <= u8::MAX as i64 && 0 <= b && b <= u8::MAX as i64 && 0 <= c && c
                <= u8::MAX as i64 {
                Ok(Rgb { r: a as u8, g: b as u8, b: c as u8 })
            } else {
                Err(ParamField::Color)
            }
        },
        Some(_) => Err(ParamField::Color),
    }
}

/// Position for watermark placement.
#[derive(Debug, Clone, Copy, PartialEq, Eq, Structural)]
pub enum WatermarkPosition {
    Center,
    TopLeft,
    TopRight,
    BottomLeft,
    BottomRight,
}

/// A watermark position given by its case-sensitive name; absent means
/// `Center`.
pub open spec fn spec_get_position(
    fields: Seq<(String, ParamValue)>,
    name: Seq<char>,
) -> Result<WatermarkPosition, ParamField> {
    match spec_lookup(fields, name) {
        None => Ok(WatermarkPosition::Center),
        Some(ParamValue::Text(s)) => if s@ == "Center"@ {
            Ok(WatermarkPosition::Center)
        } else if s@ == "TopLeft"@ {
            Ok(WatermarkPosition::TopLeft)
        } else if s@ == "TopRight"@ {
            Ok(WatermarkPosition::TopRight)
        } else if s@ == "BottomLeft"@ {
            Ok(WatermarkPosition::BottomLeft)
        } else if s@ == "BottomRight"@ {
            Ok(WatermarkPosition::BottomRight)
        } else {
            Err(ParamField::Position)
        },
        Some(_) => Err(ParamField::Position),
    }
}

pub fn get_position(p: &Params, name: &str) -> (r: Result<WatermarkPosition, ParamField>)
    ensures
        r == spec_get_position(p.fields@, name@),
{
    match p.get(name) {
        None => Ok(WatermarkPosition::Center),
        Some(ParamValue::Text(s)) => {
            let s: &str = s.as_str();
            if str_eq(s, "Center") {
                Ok(WatermarkPosition::Center)
            } else if str_eq(s, "TopLeft") {
                Ok(WatermarkPosition::TopLeft)
            } else if str_eq(s, "TopRight") {
                Ok(WatermarkPosition::TopRight)
            } else if str_eq(s, "BottomLeft") {
                Ok(WatermarkPosition::BottomLeft)
            } else if str_eq(s, "BottomRight") {
                Ok(WatermarkPosition::BottomRight)
            } else {
                Err(ParamField::Position)
            }
        },
        Some(_) => Err(ParamField::Position),
    }
}

/// Validation of a typed parameter structure: `valid` says when the
/// parameters meet the kind's semantic constraints, `invalid_reason` names
/// the first violated constraint, and `validate` decides the question.
pub trait Validate: Sized {
    spec fn valid(&self) -> bool;

    spec fn invalid_reason(&self) -> ImageError;

    fn validate(&self) -> (r: Result<(), ImageError>)
        ensures
            r is Ok <==> self.valid(),
            !self.valid() ==> r == Err::<(), ImageError>(self.invalid_reason()),
    ;
}

/// Parameters for resizing an image: both target dimensions must be
/// positive.
#[derive(Debug, Clone, Copy, PartialEq, Eq, Structural)]
pub struct ResizeParams {
    pub width: u32,
    pub height: u32,
}

impl Validate for ResizeParams {
    open spec fn valid(&self) -> bool {
        self.width > 0 && self.height > 0
    }

    open spec fn invalid_reason(&self) -> ImageError {
        if self.width == 0 {
            ImageError::InvalidDimensions(ParamField::Width)
        } else {
            ImageError::InvalidDimensions(ParamField::Height)
        }
    }

    fn validate(&self) -> (r: Result<(), ImageError>) {
        if self.width == 0 {
            Err(ImageError::InvalidDimensions(ParamField::Width))
        } else if self.height == 0 {
            Err(ImageError::InvalidDimensions(ParamField::Height))
        } else {
            Ok(())
        }
    }
}

pub open spec fn spec_parse_resize(fields: Seq<(String, ParamValue)>) -> Result<ResizeParams, ParamField> {
    match spec_get_u32(fields, "width"@, 100, ParamField::Width) {
        Err(f) => Err(f),
        Ok(width) => match spec_get_u32(fields, "height"@, 100, ParamField::Height) {
            Err(f) => Err(f),
            Ok(height) => Ok(ResizeParams { width, height }),
        },
    }
}

pub fn parse_resize(p: &Params) -> (r: Result<ResizeParams, ParamField>)
    ensures
        r == spec_parse_resize(p.fields@),
{
    let width = match get_u32(p, "width", 100, ParamField::Width) {
        Ok(w) => w,
        Err(f) => {
            return Err(f);
        },
    };
    let height = match get_u32(p, "height", 100, ParamField::Height) {
        Ok(h) => h,
        Err(f) => {
            return Err(f);
        },
    };
    Ok(ResizeParams { width, height })
}

/// Parameters for rotating an image: the angle, in thousandths of a degree,
/// must lie in `[0, 360)` degrees.
#[derive(Debug, Clone, Copy, PartialEq, Eq, Structural)]
pub struct RotateParams {
    pub degrees_milli: i64,
}

impl Validate for RotateParams {
    open spec fn valid(&self) -> bool {
        0 <= self.degrees_milli < 360_000
    }

    open spec fn invalid_reason(&self) -> ImageError {
        ImageError::InvalidDegrees
    }

    fn validate(&self) -> (r: Result<(), ImageError>) {
        if self.degrees_milli < 0 || self.degrees_milli >= 360_000 {
            Err(ImageError::InvalidDegrees)
        } else {
            Ok(())
        }
    }
}

pub open spec fn spec_parse_rotate(fields: Seq<(String, ParamValue)>) -> Result<RotateParams, ParamField> {
    match spec_get_milli(fields, "degrees"@, 90_000, ParamField::Degrees) {
        Err(f) => Err(f),
        Ok(degrees_milli) => Ok(RotateParams { degrees_milli }),
    }
}

pub fn parse_rotate(p: &Params) -> (r: Result<RotateParams, ParamField>)
    ensures
        r == spec_parse_rotate(p.fields@),
{
    match get_milli(p, "degrees", 90_000, ParamField::Degrees) {
        Ok(degrees_milli) => Ok(RotateParams { degrees_milli }),
        Err(f) => Err(f),
    }
}

/// Parameters for cropping an image: the rectangle's size must be positive;
/// an out-of-range origin is clamped later, not rejected.
#[derive(Debug, Clone, Copy, PartialEq, Eq, Structural)]
pub struct CropParams {
    pub x: u32,
    pub y: u32,
    pub width: u32,
    pub height: u32,
}

impl Validate for CropParams {
    open spec fn valid(&self) -> bool {
        self.width > 0 && self.height > 0
    }

    open spec fn invalid_reason(&self) -> ImageError {
        if self.width == 0 {
            ImageError::InvalidDimensions(ParamField::Width)
        } else {
            ImageError::InvalidDimensions(ParamField::Height)
        }
    }

    fn validate(&self) -> (r: Result<(), ImageError>) {
        if self.width == 0 {
            Err(ImageError::InvalidDimensions(ParamField::Width))
        } else if self.height == 0 {
            Err(ImageError::InvalidDimensions(ParamField::Height))
        } else {
            Ok(())
        }
    }
}

pub open spec fn spec_parse_crop(fields: Seq<(String, ParamValue)>) -> Result<CropParams, ParamField> {
    match spec_get_u32(fields, "x"@, 0, ParamField::X) {
        Err(f) => Err(f),
        Ok(x) => match spec_get_u32(fields, "y"@, 0, ParamField::Y) {
            Err(f) => Err(f),
            Ok(y) => match spec_get_u32(fields, "width"@, 100, ParamField::Width) {
                Err(f) => Err(f),
                Ok(width) => match spec_get_u32(fields, "height"@, 100, ParamField::Height) {
                    Err(f) => Err(f),
                    Ok(height) => Ok(CropParams { x, y, width, height }),
                },
            },
        },
    }
}

pub fn parse_crop(p: &Params) -> (r: Result<CropParams, ParamField>)
    ensures
        r == spec_parse_crop(p.fields@),
{
    let x = match get_u32(p, "x", 0, ParamField::X) {
        Ok(v) => v,
        Err(f) => {
            return Err(f);
        },
    };
    let y = match get_u32(p, "y", 0, ParamField::Y) {
        Ok(v) => v,
        Err(f) => {
            return Err(f);
        },
    };
    let width = match get_u32(p, "width", 100, ParamField::Width) {
        Ok(v) => v,
        Err(f) => {
            return Err(f);
        },
    };
    let height = match get_u32(p, "height", 100, ParamField::Height) {
        Ok(v) => v,
        Err(f) => {
            return Err(f);
        },
    };
    Ok(CropParams { x, y, width, height })
}

/// Parameters for a text watermark: non-empty text, opacity within
/// `[0, 1]`, a positive font size, and — when both explicit coordinates are
/// given — not both exactly zero.
#[derive(Debug, Clone, PartialEq, Eq)]
pub struct WatermarkParams {
    pub text: String,
    pub opacity_milli: i64,
    pub position: WatermarkPosition,
    pub font_size: u32,
    pub color: Rgb,
    pub x: Option<u32>,
    pub y: Option<u32>,
}

impl Validate for WatermarkParams {
    open spec fn valid(&self) -> bool {
        &&& 0 <= self.opacity_milli <= 1000
        &&& self.text@.len() > 0
        &&& self.font_size > 0
        &&& !(self.x == Some(0u32) && self.y == Some(0u32))
    }

    open spec fn invalid_reason(&self) -> ImageError {
        if !(0 <= self.opacity_milli <= 1000) {
            ImageError::InvalidOpacity
        } else if self.text@.len() == 0 {
            ImageError::InvalidParameters(ParamField::Text)
        } else if self.font_size == 0 {
            ImageError::InvalidParameters(ParamField::FontSize)
        } else {
            ImageError::InvalidParameters(ParamField::X)
        }
    }

    fn validate(&self) -> (r: Result<(), ImageError>) {
        if self.opacity_milli < 0 || self.opacity_milli > 1000 {
            return Err(ImageError::InvalidOpacity);
        }
        if self.text.as_str().is_empty() {
            return Err(ImageError::InvalidParameters(ParamField::Text));
        }
        if self.font_size == 0 {
            return Err(ImageError::InvalidParameters(ParamField::FontSize));
        }
        if let (Some(x), Some(y)) = (&self.x, &self.y) {
            if *x == 0 && *y == 0 {
                return Err(ImageError::InvalidParameters(ParamField::X));
            }
        }
        Ok(())
    }
}

/// The parse model of the watermark schema: the text as characters, then
/// opacity, position, font size, colour and the optional coordinates.
pub open spec fn spec_parse_watermark(fields: Seq<(String, ParamValue)>) -> Result<
    (Seq<char>, i64, WatermarkPosition, u32, Rgb, Option<u32>, Option<u32>),
    ParamField,
> {
    match spec_get_text(fields, "text"@, ""@, ParamField::Text) {
        Err(f) => Err(f),
        Ok(text) => match spec_get_milli(fields, "opacity"@, 500, ParamField::Opacity) {
            Err(f) => Err(f),
            Ok(opacity_milli) => match spec_get_position(fields, "position"@) {
                Err(f) => Err(f),
                Ok(position) => match spec_get_u32(fields, "font_size"@, 24, ParamField::FontSize) {
                    Err(f) => Err(f),
                    Ok(font_size) => match spec_get_color(fields, "color"@, Rgb { r: 255, g: 255, b: 255 }) {
                        Err(f) => Err(f),
                        Ok(color) => match spec_get_opt_u32(fields, "x"@, ParamField::X) {
                            Err(f) => Err(f),
                            Ok(x) => match spec_get_opt_u32(fields, "y"@, ParamField::Y) {
                                Err(f) => Err(f),
                                Ok(y) => Ok((text, opacity_milli, position, font_size, color, x, y)),
                            },
                        },
                    },
                },
            },
        },
    }
}

/// The watermark parse model compares structures up to the view of the text,
/// because a `String` is opaque beyond its characters.
pub open spec fn watermark_parse_matches(
    fields: Seq<(String, ParamValue)>,
    r: Result<WatermarkParams, ParamField>,
) -> bool {
    match (spec_parse_watermark(fields), r) {
        (Ok(m), Ok(p)) => {
            &&& p.text@ == m.0
            &&& p.opacity_milli == m.1
            &&& p.position == m.2
            &&& p.font_size == m.3
            &&& p.color == m.4
            &&& p.x == m.5
            &&& p.y == m.6
        },
        (Err(f), Err(g)) => f == g,
        _ => false,
    }
}

pub fn parse_watermark(p: &Params) -> (r: Result<WatermarkParams, ParamField>)
    ensures
        watermark_parse_matches(p.fields@, r),
{
    let text = match get_text(p, "text", "", ParamField::Text) {
        Ok(v) => v,
        Err(f) => {
            return Err(f);
        },
    };
    let opacity_milli = match get_milli(p, "opacity", 500, ParamField::Opacity) {
        Ok(v) => v,
        Err(f) => {
            return Err(f);
        },
    };
    let position = match get_position(p, "position") {
        Ok(v) => v,
        Err(f) => {
            return Err(f);
        },
    };
    let font_size = match get_u32(p, "font_size", 24, ParamField::FontSize) {
        Ok(v) => v,
        Err(f) => {
            return Err(f);
        },
    };
    let color = match get_color(p, "color", Rgb { r: 255, g: 255, b: 255 }) {
        Ok(v) => v,
        Err(f) => {
            return Err(f);
        },
    };
    let x = match get_opt_u32(p, "x", ParamField::X) {
        Ok(v) => v,
        Err(f) => {
            return Err(f);
        },
    };
    let y = match get_opt_u32(p, "y", ParamField::Y) {
        Ok(v) => v,
        Err(f) => {
            return Err(f);
        },
    };
    Ok(WatermarkParams { text, opacity_milli, position, font_size, color, x, y })
}

/// Parameters for format conversion: the target encoding's name, which
/// must be one of the fixed set of recognized encodings, and an optional
/// quality within `[0, 100]`.
#[derive(Debug, Clone, PartialEq, Eq)]
pub struct FormatConversionParams {
    pub format: String,
    pub quality: Option<u8>,
}

impl Validate for FormatConversionParams {
    open spec fn valid(&self) -> bool {
        &&& crate::formats::spec_format_of(self.format@) is Some
        &&& match self.quality {
            Some(q) => q <= 100,
            None => true,
        }
    }

    open spec fn invalid_reason(&self) -> ImageError {
        if crate::formats::spec_format_of(self.format@) is None {
            ImageError::InvalidParameters(ParamField::Format)
        } else {
            ImageError::InvalidQuality
        }
    }

    fn validate(&self) -> (r: Result<(), ImageError>) {
        if crate::formats::parse_format(self.format.as_str()).is_none() {
            return Err(ImageError::InvalidParameters(ParamField::Format));
        }
        if let Some(q) = self.quality {
            if q > 100 {
                return Err(ImageError::InvalidQuality);
            }
        }
        Ok(())
    }
}

/// The parse model of the conversion schema: the format name as characters
/// and the optional quality.
pub open spec fn spec_parse_convert(fields: Seq<(String, ParamValue)>) -> Result<
    (Seq<char>, Option<u8>),
    ParamField,
> {
    match spec_get_text(fields, "format"@, "png"@, ParamField::Format) {
        Err(f) => Err(f),
        Ok(format) => match spec_get_opt_u8(fields, "quality"@, ParamField::Quality) {
            Err(f) => Err(f),
            Ok(quality) => Ok((format, quality)),
        },
    }
}

/// The conversion parse model, up to the view of the format string.
pub open spec fn convert_parse_matches(
    fields: Seq<(String, ParamValue)>,
    r: Result<FormatConversionParams, ParamField>,
) -> bool {
    match (spec_parse_convert(fields), r) {
        (Ok(m), Ok(p)) => p.format@ == m.0 && p.quality == m.1,
        (Err(f), Err(g)) => f == g,
        _ => false,
    }
}

pub fn parse_convert(p: &Params) -> (r: Result<FormatConversionParams, ParamField>)
    ensures
        convert_parse_matches(p.fields@, r),
{
    let format = match get_text(p, "format", "png", ParamField::Format) {
        Ok(v) => v,
        Err(f) => {
            return Err(f);
        },
    };
    let quality = match get_opt_u8(p, "quality", ParamField::Quality) {
        Ok(v) => v,
        Err(f) => {
            return Err(f);
        },
    };
    Ok(FormatConversionParams { format, quality })
}

/// Parameters for smart cropping: a positive target size.
#[derive(Debug, Clone, Copy, PartialEq, Eq, Structural)]
pub struct SmartCropParams {
    pub width: u32,
    pub height: u32,
    pub quality: Option<u8>,
}

impl Validate for SmartCropParams {
    open spec fn valid(&self) -> bool {
        self.width > 0 && self.height > 0
    }

    open spec fn invalid_reason(&self) -> ImageError {
        if self.width == 0 {
            ImageError::InvalidDimensions(ParamField::Width)
        } else {
            ImageError::InvalidDimensions(ParamField::Height)
        }
    }

    fn validate(&self) -> (r: Result<(), ImageError>) {
        if self.width == 0 {
            Err(ImageError::InvalidDimensions(ParamField::Width))
        } else if self.height == 0 {
            Err(ImageError::InvalidDimensions(ParamField::Height))
        } else {
            Ok(())
        }
    }
}

pub open spec fn spec_parse_smart_crop(fields: Seq<(String, ParamValue)>) -> Result<
    SmartCropParams,
    ParamField,
> {
    match spec_get_u32(fields, "width"@, 100, ParamField::Width) {
        Err(f) => Err(f),
        Ok(width) => match spec_get_u32(fields, "height"@, 100, ParamField::Height) {
            Err(f) => Err(f),
            Ok(height) => match spec_get_opt_u8(fields, "quality"@, ParamField::Quality) {
                Err(f) => Err(f),
                Ok(quality) => Ok(SmartCropParams { width, height, quality }),
            },
        },
    }
}

pub fn parse_smart_crop(p: &Params) -> (r: Result<SmartCropParams, ParamField>)
    ensures
        r == spec_parse_smart_crop(p.fields@),
{
    let width = match get_u32(p, "width", 100, ParamField::Width) {
        Ok(v) => v,
        Err(f) => {
            return Err(f);
        },
    };
    let height = match get_u32(p, "height", 100, ParamField::Height) {
        Ok(v) => v,
        Err(f) => {
            return Err(f);
        },
    };
    let quality = match get_opt_u8(p, "quality", ParamField::Quality) {
        Ok(v) => v,
        Err(f) => {
            return Err(f);
        },
    };
    Ok(SmartCropParams { width, height, quality })
}

/// Parameters for brightness adjustment: any signed delta is allowed.
#[derive(Debug, Clone, Copy, PartialEq, Eq, Structural)]
pub struct AdjustBrightnessParams {
    pub value: i32,
}

impl Validate for AdjustBrightnessParams {
    open spec fn valid(&self) -> bool {
        true
    }

    open spec fn invalid_reason(&self) -> ImageError {
        ImageError::InvalidParameters(ParamField::Value)
    }

    fn validate(&self) -> (r: Result<(), ImageError>) {
        Ok(())
    }
}

pub open spec fn spec_parse_adjust_brightness(fields: Seq<(String, ParamValue)>) -> Result<
    AdjustBrightnessParams,
    ParamField,
> {
    match spec_get_i32(fields, "value"@, 0, ParamField::Value) {
        Err(f) => Err(f),
        Ok(value) => Ok(AdjustBrightnessParams { value }),
    }
}

pub fn parse_adjust_brightness(p: &Params) -> (r: Result<AdjustBrightnessParams, ParamField>)
    ensures
        r == spec_parse_adjust_brightness(p.fields@),
{
    match get_i32(p, "value", 0, ParamField::Value) {
        Ok(value) => Ok(AdjustBrightnessParams { value }),
        Err(f) => Err(f),
    }
}

/// Parameters for contrast adjustment: any delta, in thousandths.
#[derive(Debug, Clone, Copy, PartialEq, Eq, Structural)]
pub struct AdjustContrastParams {
    pub value_milli: i64,
}

impl Validate for AdjustContrastParams {
    open spec fn valid(&self) -> bool {
        true
    }

    open spec fn invalid_reason(&self) -> ImageError {
        ImageError::InvalidParameters(ParamField::Value)
    }

    fn validate(&self) -> (r: Result<(), ImageError>) {
        Ok(())
    }
}

pub open spec fn spec_parse_adjust_contrast(fields: Seq<(String, ParamValue)>) -> Result<
    AdjustContrastParams,
    ParamField,
> {
    match spec_get_milli(fields, "value"@, 0, ParamField::Value) {
        Err(f) => Err(f),
        Ok(value_milli) => Ok(AdjustContrastParams { value_milli }),
    }
}

pub fn parse_adjust_contrast(p: &Params) -> (r: Result<AdjustContrastParams, ParamField>)
    ensures
        r == spec_parse_adjust_contrast(p.fields@),
{
    match get_milli(p, "value", 0, ParamField::Value) {
        Ok(value_milli) => Ok(AdjustContrastParams { value_milli }),
        Err(f) => Err(f),
    }
}

/// Parameters for Gaussian blur: sigma must be positive, and the optional
/// minimum amplitude non-negative. The sigma has no default: a blur without
/// one is a parse failure.
#[derive(Debug, Clone, Copy, PartialEq, Eq, Structural)]
pub struct BlurParams {
    pub sigma_milli: i64,
    pub minampl_milli: Option<i64>,
}

impl Validate for BlurParams {
    open spec fn valid(&self) -> bool {
        &&& self.sigma_milli > 0
        &&& match self.minampl_milli {
            Some(m) => m >= 0,
            None => true,
        }
    }

    open spec fn invalid_reason(&self) -> ImageError {
        if self.sigma_milli <= 0 {
            ImageError::InvalidParameters(ParamField::Sigma)
        } else {
            ImageError::InvalidParameters(ParamField::Minampl)
        }
    }

    fn validate(&self) -> (r: Result<(), ImageError>) {
        if self.sigma_milli <= 0 {
            return Err(ImageError::InvalidParameters(ParamField::Sigma));
        }
        if let Some(m) = self.minampl_milli {
            if m < 0 {
                return Err(ImageError::InvalidParameters(ParamField::Minampl));
            }
        }
        Ok(())
    }
}

pub open spec fn spec_parse_blur(fields: Seq<(String, ParamValue)>) -> Result<BlurParams, ParamField> {
    match spec_lookup(fields, "sigma"@) {
        None => Err(ParamField::Sigma),
        Some(ParamValue::Int(v)) => match spec_get_opt_milli(fields, "minampl"@, ParamField::Minampl) {
            Err(f) => Err(f),
            Ok(minampl_milli) => Ok(
                BlurParams { sigma_milli: spec_milli_of_int(v), minampl_milli },
            ),
        },
        Some(ParamValue::Milli(m)) => match spec_get_opt_milli(
            fields,
            "minampl"@,
            ParamField::Minampl,
        ) {
            Err(f) => Err(f),
            Ok(minampl_milli) => Ok(BlurParams { sigma_milli: m, minampl_milli }),
        },
        Some(_) => Err(ParamField::Sigma),
    }
}

pub fn parse_blur(p: &Params) -> (r: Result<BlurParams, ParamField>)
    ensures
        r == spec_parse_blur(p.fields@),
{
    let sigma_milli: i64 = match p.get("sigma") {
        None => {
            return Err(ParamField::Sigma);
        },
        Some(ParamValue::Int(v)) => milli_of_int(*v),
        Some(ParamValue::Milli(m)) => *m,
        Some(_) => {
            return Err(ParamField::Sigma);
        },
    };
    let minampl_milli = match get_opt_milli(p, "minampl", ParamField::Minampl) {
        Ok(v) => v,
        Err(f) => {
            return Err(f);
        },
    };
    Ok(BlurParams { sigma_milli, minampl_milli })
}

/// Parameters for thumbnail creation: a positive target size.
#[derive(Debug, Clone, Copy, PartialEq, Eq, Structural)]
pub struct ThumbnailParams {
    pub width: u32,
    pub height: u32,
}

impl Validate for ThumbnailParams {
    open spec fn valid(&self) -> bool {
        self.width > 0 && self.height > 0
    }

    open spec fn invalid_reason(&self) -> ImageError {
        if self.width == 0 {
            ImageError::InvalidDimensions(ParamField::Width)
        } else {
            ImageError::InvalidDimensions(ParamField::Height)
        }
    }

    fn validate(&self) -> (r: Result<(), ImageError>) {
        if self.width == 0 {
            Err(ImageError::InvalidDimensions(ParamField::Width))
        } else if self.height == 0 {
            Err(ImageError::InvalidDimensions(ParamField::Height))
        } else {
            Ok(())
        }
    }
}

pub open spec fn spec_parse_thumbnail(fields: Seq<(String, ParamValue)>) -> Result<
    ThumbnailParams,
    ParamField,
> {
    match spec_get_u32(fields, "width"@, 100, ParamField::Width) {
        Err(f) => Err(f),
        Ok(width) => match spec_get_u32(fields, "height"@, 100, ParamField::Height) {
            Err(f) => Err(f),
            Ok(height) => Ok(ThumbnailParams { width, height }),
        },
    }
}

pub fn parse_thumbnail(p: &Params) -> (r: Result<ThumbnailParams, ParamField>)
    ensures
        r == spec_parse_thumbnail(p.fields@),
{
    let width = match get_u32(p, "width", 100, ParamField::Width) {
        Ok(v) => v,
        Err(f) => {
            return Err(f);
        },
    };
    let height = match get_u32(p, "height", 100, ParamField::Height) {
        Ok(v) => v,
        Err(f) => {
            return Err(f);
        },
    };
    Ok(ThumbnailParams { width, height })
}

/// Parameters for extracting a subregion: a positive region size; the
/// requested rectangle is clamped to the image later.
#[derive(Debug, Clone, Copy, PartialEq, Eq, Structural)]
pub struct ExtractParams {
    pub x: u32,
    pub y: u32,
    pub width: u32,
    pub height: u32,
}

impl Validate for ExtractParams {
    open spec fn valid(&self) -> bool {
        self.width > 0 && self.height > 0
    }

    open spec fn invalid_reason(&self) -> ImageError {
        if self.width == 0 {
            ImageError::InvalidDimensions(ParamField::Width)
        } else {
            ImageError::InvalidDimensions(ParamField::Height)
        }
    }

    fn validate(&self) -> (r: Result<(), ImageError>) {
        if self.width == 0 {
            Err(ImageError::InvalidDimensions(ParamField::Width))
        } else if self.height == 0 {
            Err(ImageError::InvalidDimensions(ParamField::Height))
        } else {
            Ok(())
        }
    }
}

pub open spec fn spec_parse_extract(fields: Seq<(String, ParamValue)>) -> Result<
    ExtractParams,
    ParamField,
> {
    match spec_get_u32(fields, "x"@, 0, ParamField::X) {
        Err(f) => Err(f),
        Ok(x) => match spec_get_u32(fields, "y"@, 0, ParamField::Y) {
            Err(f) => Err(f),
            Ok(y) => match spec_get_u32(fields, "width"@, 100, ParamField::Width) {
                Err(f) => Err(f),
                Ok(width) => match spec_get_u32(fields, "height"@, 100, ParamField::Height) {
                    Err(f) => Err(f),
                    Ok(height) => Ok(ExtractParams { x, y, width, height }),
                },
            },
        },
    }
}

pub fn parse_extract(p: &Params) -> (r: Result<ExtractParams, ParamField>)
    ensures
        r == spec_parse_extract(p.fields@),
{
    let x = match get_u32(p, "x", 0, ParamField::X) {
        Ok(v) => v,
        Err(f) => {
            return Err(f);
        },
    };
    let y = match get_u32(p, "y", 0, ParamField::Y) {
        Ok(v) => v,
        Err(f) => {
            return Err(f);
        },
    };
    let width = match get_u32(p, "width", 100, ParamField::Width) {
        Ok(v) => v,
        Err(f) => {
            return Err(f);
        },
    };
    let height = match get_u32(p, "height", 100, ParamField::Height) {
        Ok(v) => v,
        Err(f) => {
            return Err(f);
        },
    };
    Ok(ExtractParams { x, y, width, height })
}

/// Parameters for zooming: a positive factor, in thousandths.
#[derive(Debug, Clone, Copy, PartialEq, Eq, Structural)]
pub struct ZoomParams {
    pub factor_milli: i64,
}

impl Validate for ZoomParams {
    open spec fn valid(&self) -> bool {
        self.factor_milli > 0
    }

    open spec fn invalid_reason(&self) -> ImageError {
        ImageError::InvalidParameters(ParamField::Factor)
    }

    fn validate(&self) -> (r: Result<(), ImageError>) {
        if self.factor_milli <= 0 {
            Err(ImageError::InvalidParameters(ParamField::Factor))
        } else {
            Ok(())
        }
    }
}

pub open spec fn spec_parse_zoom(fields: Seq<(String, ParamValue)>) -> Result<ZoomParams, ParamField> {
    match spec_get_milli(fields, "factor"@, 1000, ParamField::Factor) {
        Err(f) => Err(f),
        Ok(factor_milli) => Ok(ZoomParams { factor_milli }),
    }
}

pub fn parse_zoom(p: &Params) -> (r: Result<ZoomParams, ParamField>)
    ensures
        r == spec_parse_zoom(p.fields@),
{
    match get_milli(p, "factor", 1000, ParamField::Factor) {
        Ok(factor_milli) => Ok(ZoomParams { factor_milli }),
        Err(f) => Err(f),
    }
}

/// Parameters for overlaying a watermark image: opacity within `[0, 1]`.
#[derive(Debug, Clone, Copy, PartialEq, Eq, Structural)]
pub struct WatermarkImageParams {
    pub opacity_milli: i64,
    pub position: WatermarkPosition,
}

impl Validate for WatermarkImageParams {
    open spec fn valid(&self) -> bool {
        0 <= self.opacity_milli <= 1000
    }

    open spec fn invalid_reason(&self) -> ImageError {
        ImageError::InvalidOpacity
    }

    fn validate(&self) -> (r: Result<(), ImageError>) {
        if self.opacity_milli < 0 || self.opacity_milli > 1000 {
            Err(ImageError::InvalidOpacity)
        } else {
            Ok(())
        }
    }
}

pub open spec fn spec_parse_watermark_image(fields: Seq<(String, ParamValue)>) -> Result<
    WatermarkImageParams,
    ParamField,
> {
    match spec_get_milli(fields, "opacity"@, 500, ParamField::Opacity) {
        Err(f) => Err(f),
        Ok(opacity_milli) => match spec_get_position(fields, "position"@) {
            Err(f) => Err(f),
            Ok(position) => Ok(WatermarkImageParams { opacity_milli, position }),
        },
    }
}

pub fn parse_watermark_image(p: &Params) -> (r: Result<WatermarkImageParams, ParamField>)
    ensures
        r == spec_parse_watermark_image(p.fields@),
{
    let opacity_milli = match get_milli(p, "opacity", 500, ParamField::Opacity) {
        Ok(v) => v,
        Err(f) => {
            return Err(f);
        },
    };
    let position = match get_position(p, "position") {
        Ok(v) => v,
        Err(f) => {
            return Err(f);
        },
    };
    Ok(WatermarkImageParams { opacity_milli, position })
}

} // verus!
