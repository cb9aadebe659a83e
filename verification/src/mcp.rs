//! Inputs of the two MCP tools and the parameters and replies built from them.

use vstd::prelude::*;
use crate::errors::MochifyError;
use crate::params::{PdfParams, ProcessParams, ProcessParamsView};
use crate::pdf::{known_op, resolve_lowered_pdf_params, resolved_pdf};
use crate::text::{
    ascii_lowered, copy_opt, i32_text, lowercase, owned, push_str, signed_decimal, to_lowercase,
};
use vstd::utf8::is_ascii_chars;

verus! {

/// Input of the `squish` tool.
#[derive(Debug)]
pub struct SquishInput {
    /// Absolute path to the input image file.
    pub file_path: String,
    /// Output format: jpg, png, webp, avif, or jxl
    pub format: Option<String>,
    /// Target width in pixels
    pub width: Option<u32>,
    /// Target height in pixels
    pub height: Option<u32>,
    /// Crop image to exact dimensions
    pub crop: Option<bool>,
    /// Rotation in degrees: 0, 90, 180, or 270
    pub rotation: Option<u32>,
    /// Output directory; defaults to the input file's directory.
    pub output_dir: Option<String>,
    /// Optional base name for the output file (without extension).
    pub output_name: Option<String>,
    /// Apply clarity (midtone contrast enhancement)
    pub clarity: Option<bool>,
    /// Remove the image background
    pub remove_background: Option<bool>,
    /// Background colour when removing background
    pub background: Option<String>,
    /// Strip EXIF/metadata; defaults to true.
    pub strip_metadata: Option<bool>,
}

/// Input of the `pdf` tool.
#[derive(Debug)]
pub struct PdfInput {
    /// Absolute path to the input PDF file.
    pub file_path: String,
    /// "split" or "rasterize"; defaults to "rasterize".
    pub op: Option<String>,
    /// Output image format for rasterize; defaults to png.
    pub format: Option<String>,
    /// Rasterize resolution in DPI; defaults to 150.
    pub dpi: Option<u32>,
    /// Output quality 1-100 for lossy rasterize formats.
    pub quality: Option<u32>,
    /// Output directory; defaults to the input file's directory.
    pub output_dir: Option<String>,
}

/// The processing parameters a `squish` tool call asks for.
pub open spec fn squish_tool_view(input: SquishInput) -> ProcessParamsView {
    ProcessParamsView {
        format: input.format.deep_view(),
        width: input.width,
        height: input.height,
        crop: input.crop,
        rotation: input.rotation,
        out_name_suffix: None,
        output_name: input.output_name.deep_view(),
        clarity: input.clarity,
        remove_background: input.remove_background,
        background: input.background.deep_view(),
        strip_exif: input.strip_metadata,
    }
}

/// The processing parameters for a `squish` tool call.
pub fn squish_tool_params(input: &SquishInput) -> (p: ProcessParams)
    ensures
        p@ == squish_tool_view(*input),
{
    ProcessParams {
        format: copy_opt(&input.format),
        width: input.width,
        height: input.height,
        crop: input.crop,
        rotation: input.rotation,
        out_name_suffix: None,
        output_name: copy_opt(&input.output_name),
        clarity: input.clarity,
        remove_background: input.remove_background,
        background: copy_opt(&input.background),
        strip_exif: input.strip_metadata,
    }
}

/// The operation of a `pdf` tool call before lower-casing: "rasterize"
/// unless one is given.
pub open spec fn tool_op(input: PdfInput) -> Seq<char> {
    if input.op is Some {
        input.op->0@
    } else {
        "rasterize"@
    }
}

/// The reply to a `pdf` tool call naming an unknown operation.
pub open spec fn unknown_op_reply(op: Seq<char>) -> Seq<char> {
    "Error: unknown op '"@ + op + "'. Use 'split' or 'rasterize'."@
}

/// The PDF parameters for a `pdf` tool call: the operation lower-cased
/// (with `str::to_lowercase`, which is ASCII lower-casing on ASCII text); for rasterize, PNG at 150 DPI unless given.
/// An unknown operation gives the reply to send back instead.
pub fn pdf_tool_params(input: &PdfInput) -> (r: Result<PdfParams, String>)
    ensures
        known_op(lowercase(tool_op(*input))) ==> (r matches Ok(p) && p@ == resolved_pdf(
            None,
            lowercase(tool_op(*input)),
            input.format.deep_view(),
            input.dpi,
            input.quality,
        )),
        !known_op(lowercase(tool_op(*input))) ==> (r matches Err(m) && m@ == unknown_op_reply(
            lowercase(tool_op(*input)),
        )),
        is_ascii_chars(tool_op(*input)) ==> lowercase(tool_op(*input)) == ascii_lowered(
            tool_op(*input),
        ),
        input.op is None ==> (r matches Ok(p) && p@.op == "rasterize"@),
        input.op is Some ==> (r matches Ok(p) ==> p@.op == lowercase(input.op->0@)),
{
    let op = match &input.op {
        Some(o) => to_lowercase(o.as_str()),
        None => to_lowercase("rasterize"),
    };
    proof {
        if input.op is None {
            reveal_strlit("rasterize");
            assert(is_ascii_chars("rasterize"@));
            assert(ascii_lowered("rasterize"@) =~= "rasterize"@);
        }
    }
    match resolve_lowered_pdf_params(None, Some(op), copy_opt(&input.format), input.dpi, input.quality) {
        Ok(p) => Ok(p),
        Err(e) => {
            let op_text = match e {
                MochifyError::UnknownPdfOperation { op } => op,
                _ => owned(""),
            };
            let mut m = owned("Error: unknown op '");
            push_str(&mut m, op_text.as_str());
            push_str(&mut m, "'. Use 'split' or 'rasterize'.");
            Err(m)
        },
    }
}

/// The reply to a successful tool call: where the output was saved, with the
/// remaining requests when the usage lookup succeeded.
pub open spec fn saved_reply(out_path: Seq<char>, remaining: Option<i32>) -> Seq<char> {
    "Saved to "@ + out_path + if remaining is Some {
        " ("@ + signed_decimal(remaining->0 as int) + " requests remaining today)"@
    } else {
        Seq::empty()
    }
}

/// The reply to a successful tool call.
pub fn saved_message(out_path: &str, remaining: Option<i32>) -> (m: String)
    ensures
        m@ == saved_reply(out_path@, remaining),
{
    let mut m = owned("Saved to ");
    push_str(&mut m, out_path);
    if let Some(r) = remaining {
        push_str(&mut m, " (");
        push_str(&mut m, i32_text(r).as_str());
        push_str(&mut m, " requests remaining today)");
    }
    proof {
        if remaining is None {
            assert(m@ =~= saved_reply(out_path@, remaining));
        }
    }
    m
}

} // verus!
