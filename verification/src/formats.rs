//! Output encodings and the output format resolver.
//!
//! The resolver is a pure function of the ordered step list: scanning from
//! the end, the first `convert` step whose parameters parse decides the
//! output encoding through the fixed format-name table; a recognized name
//! maps to its encoding, an unrecognized one falls back to the input
//! image's own format. Execution outcomes play no part.

use vstd::prelude::*;

use crate::params::spec_parse_convert;
use crate::pipeline_types::{spec_op_of_name, PipelineOperationSpec, SupportedOperation};

verus! {

/// The fixed set of recognized output encodings.
#[derive(Debug, Clone, Copy, PartialEq, Eq, Hash, Structural)]
pub enum OutputFormat {
    Png,
    Jpeg,
    Gif,
    WebP,
    Bmp,
    Tiff,
    Ico,
}

/// Character-for-character comparison where each position may match either
/// the lowercase or the uppercase letter: the ASCII-case-insensitive match
/// of a format name.
pub open spec fn spec_ci_eq(s: Seq<char>, lo: Seq<char>, up: Seq<char>) -> bool {
    &&& s.len() == lo.len()
    &&& forall|i: int| 0 <= i < s.len() ==> #[trigger] s[i] == lo[i] || s[i] == up[i]
}

/// Compares `s` against a name given in its lowercase and uppercase
/// spellings, accepting any mixture of the two cases.
pub fn str_ci_eq(s: &str, lo: &str, up: &str) -> (r: bool)
    requires
        lo@.len() == up@.len(),
    ensures
        r == spec_ci_eq(s@, lo@, up@),
{
    let n: usize = s.unicode_len();
    let m: usize = lo.unicode_len();
    if n != m {
        return false;
    }
    let mut i: usize = 0;
    while i < n
        invariant
            0 <= i <= n,
            n == s@.len() == lo@.len() == up@.len(),
            forall|j: int| 0 <= j < i ==> #[trigger] s@[j] == lo@[j] || s@[j] == up@[j],
        decreases n - i,
    {
        let c = s.get_char(i);
        if c != lo.get_char(i) && c != up.get_char(i) {
            return false;
        }
        i = i + 1;
    }
    true
}

/// The fixed format-name table, up to ASCII case.
pub open spec fn spec_format_of(s: Seq<char>) -> Option<OutputFormat> {
    if spec_ci_eq(s, "png"@, "PNG"@) {
        Some(OutputFormat::Png)
    } else if spec_ci_eq(s, "jpeg"@, "JPEG"@) {
        Some(OutputFormat::Jpeg)
    } else if spec_ci_eq(s, "jpg"@, "JPG"@) {
        Some(OutputFormat::Jpeg)
    } else if spec_ci_eq(s, "gif"@, "GIF"@) {
        Some(OutputFormat::Gif)
    } else if spec_ci_eq(s, "webp"@, "WEBP"@) {
        Some(OutputFormat::WebP)
    } else if spec_ci_eq(s, "bmp"@, "BMP"@) {
        Some(OutputFormat::Bmp)
    } else if spec_ci_eq(s, "tiff"@, "TIFF"@) {
        Some(OutputFormat::Tiff)
    } else if spec_ci_eq(s, "tif"@, "TIF"@) {
        Some(OutputFormat::Tiff)
    } else if spec_ci_eq(s, "ico"@, "ICO"@) {
        Some(OutputFormat::Ico)
    } else {
        None
    }
}

/// Resolves a format name through the fixed table, ignoring ASCII case.
pub fn parse_format(s: &str) -> (r: Option<OutputFormat>)
    ensures
        r == spec_format_of(s@),
{
    proof {
        reveal_strlit("png");
        reveal_strlit("PNG");
        reveal_strlit("jpeg");
        reveal_strlit("JPEG");
        reveal_strlit("jpg");
        reveal_strlit("JPG");
        reveal_strlit("gif");
        reveal_strlit("GIF");
        reveal_strlit("webp");
        reveal_strlit("WEBP");
        reveal_strlit("bmp");
        reveal_strlit("BMP");
        reveal_strlit("tiff");
        reveal_strlit("TIFF");
        reveal_strlit("tif");
        reveal_strlit("TIF");
        reveal_strlit("ico");
        reveal_strlit("ICO");
    }
    if str_ci_eq(s, "png", "PNG") {
        Some(OutputFormat::Png)
    } else if str_ci_eq(s, "jpeg", "JPEG") {
        Some(OutputFormat::Jpeg)
    } else if str_ci_eq(s, "jpg", "JPG") {
        Some(OutputFormat::Jpeg)
    } else if str_ci_eq(s, "gif", "GIF") {
        Some(OutputFormat::Gif)
    } else if str_ci_eq(s, "webp", "WEBP") {
        Some(OutputFormat::WebP)
    } else if str_ci_eq(s, "bmp", "BMP") {
        Some(OutputFormat::Bmp)
    } else if str_ci_eq(s, "tiff", "TIFF") {
        Some(OutputFormat::Tiff)
    } else if str_ci_eq(s, "tif", "TIF") {
        Some(OutputFormat::Tiff)
    } else if str_ci_eq(s, "ico", "ICO") {
        Some(OutputFormat::Ico)
    } else {
        None
    }
}

/// The MIME type of an encoding.
pub open spec fn spec_mime_type(f: OutputFormat) -> Seq<char> {
    match f {
        OutputFormat::Png => "image/png"@,
        OutputFormat::Jpeg => "image/jpeg"@,
        OutputFormat::Gif => "image/gif"@,
        OutputFormat::WebP => "image/webp"@,
        OutputFormat::Bmp => "image/bmp"@,
        OutputFormat::Tiff => "image/tiff"@,
        OutputFormat::Ico => "image/x-icon"@,
    }
}

pub fn mime_type(f: OutputFormat) -> (r: &'static str)
    ensures
        r@ == spec_mime_type(f),
{
    match f {
        OutputFormat::Png => "image/png",
        OutputFormat::Jpeg => "image/jpeg",
        OutputFormat::Gif => "image/gif",
        OutputFormat::WebP => "image/webp",
        OutputFormat::Bmp => "image/bmp",
        OutputFormat::Tiff => "image/tiff",
        OutputFormat::Ico => "image/x-icon",
    }
}

/// Whether this step decides the output format: it must be a `convert` step
/// whose parameters parse.
pub open spec fn spec_step_decides_format(s: PipelineOperationSpec) -> bool {
    &&& spec_op_of_name(s.operation@) == Some(SupportedOperation::Convert)
    &&& spec_parse_convert(s.params.fields@) is Ok
}

/// The format such a step asks for, through the table; `None` when the name
/// is not recognized.
pub open spec fn spec_step_format(s: PipelineOperationSpec) -> Option<OutputFormat> {
    match spec_parse_convert(s.params.fields@) {
        Ok(m) => spec_format_of(m.0),
        Err(_) => None,
    }
}

/// The resolved output format of a step list: the last format-deciding step
/// wins; a deciding step with an unrecognized name resolves to the original
/// format; without any deciding step the original format stands.
pub open spec fn spec_resolve_format(specs: Seq<PipelineOperationSpec>, original: OutputFormat) -> OutputFormat
    decreases specs.len(),
{
    if specs.len() == 0 {
        original
    } else if spec_step_decides_format(specs.last()) {
        match spec_step_format(specs.last()) {
            Some(f) => f,
            None => original,
        }
    } else {
        spec_resolve_format(specs.drop_last(), original)
    }
}

/// Decides the output encoding from the original ordered step list and the
/// format the input image was decoded as. Resolution is a pure function of
/// the specs, independent of execution outcomes.
pub fn determine_output_format(specs: &Vec<PipelineOperationSpec>, original: OutputFormat) -> (r:
    OutputFormat)
    ensures
        r == spec_resolve_format(specs@, original),
{
    proof {
        assert(specs@.subrange(0, specs@.len() as int) =~= specs@);
    }
    let mut i: usize = specs.len();
    while i > 0
        invariant
            0 <= i <= specs@.len(),
            spec_resolve_format(specs@, original) == spec_resolve_format(
                specs@.subrange(0, i as int),
                original,
            ),
        decreases i,
    {
        proof {
            assert(specs@.subrange(0, i as int).drop_last() =~= specs@.subrange(0, i as int - 1));
            assert(specs@.subrange(0, i as int).last() == specs@[i as int - 1]);
        }
        i = i - 1;
        let step = &specs[i];
        if op_is_convert(step) {
            match crate::params::parse_convert(&step.params) {
                Ok(p) => {
                    match parse_format(p.format.as_str()) {
                        Some(f) => {
                            return f;
                        },
                        None => {
                            return original;
                        },
                    }
                },
                Err(_) => {},
            }
        }
    }
    original
}

/// Whether the step's operation name denotes `convert`.
fn op_is_convert(s: &PipelineOperationSpec) -> (r: bool)
    ensures
        r == (spec_op_of_name(s.operation@) == Some(SupportedOperation::Convert)),
{
    match crate::pipeline_types::op_from_name(s.operation.as_str()) {
        Some(SupportedOperation::Convert) => true,
        _ => false,
    }
}

/// The law of resolution precedence: whatever stands before it, a trailing
/// segment whose last format-deciding step asks for a recognized format `f`
/// resolves to `f`; steps after that one that do not decide the format
/// cannot change the outcome.
pub proof fn lemma_last_convert_wins(
    specs: Seq<PipelineOperationSpec>,
    i: int,
    original: OutputFormat,
    f: OutputFormat,
)
    requires
        0 <= i < specs.len(),
        spec_step_decides_format(specs[i]),
        spec_step_format(specs[i]) == Some(f),
        forall|j: int| i < j < specs.len() ==> !spec_step_decides_format(#[trigger] specs[j]),
    ensures
        spec_resolve_format(specs, original) == f,
    decreases specs.len(),
{
    if i == specs.len() - 1 {
        assert(specs.last() == specs[i]);
    } else {
        assert(specs.last() == specs[specs.len() - 1]);
        assert(!spec_step_decides_format(specs.last()));
        assert forall|j: int| i < j < specs.drop_last().len() implies !spec_step_decides_format(
            #[trigger] specs.drop_last()[j],
        ) by {
            assert(specs.drop_last()[j] == specs[j]);
        }
        lemma_last_convert_wins(specs.drop_last(), i, original, f);
    }
}

} // verus!
