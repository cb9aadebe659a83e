//! Resolution of the PDF operation from a prompt and explicit flags, and its
//! one-line description.

use vstd::prelude::*;
use crate::errors::MochifyError;
use crate::params::{first_set, PdfParams, PdfParamsView};
use crate::text::{
    ascii_lowered, ascii_uppered, copy_opt, decimal, lowercase, owned, push_str, text_eq,
    to_lowercase, to_uppercase, u32_text, uppercase,
};
use vstd::utf8::is_ascii_chars;

verus! {

/// The view of optional PDF parameters.
pub open spec fn opt_pdf_view(p: Option<PdfParams>) -> Option<PdfParamsView> {
    match p {
        Some(p) => Some(p@),
        None => None,
    }
}

/// The operation asked for: the explicit one, else the prompt's.
pub open spec fn chosen_op(prompt: Option<PdfParamsView>, op: Option<Seq<char>>) -> Option<Seq<char>> {
    if op is Some {
        op
    } else if prompt is Some {
        Some(prompt->0.op)
    } else {
        None
    }
}

/// Whether `op` is one of the two operations the API offers.
pub open spec fn known_op(op: Seq<char>) -> bool {
    op == "split"@ || op == "rasterize"@
}

/// The parameters for a known, already lower-cased operation: "split"
/// carries nothing else; "rasterize" takes each of format, dpi and quality
/// from the explicit value, else the prompt's, with PNG at 150 DPI as the
/// defaults.
pub open spec fn resolved_pdf(
    prompt: Option<PdfParamsView>,
    op: Seq<char>,
    format: Option<Seq<char>>,
    dpi: Option<u32>,
    quality: Option<u32>,
) -> PdfParamsView {
    if op == "split"@ {
        PdfParamsView { op, format: None, dpi: None, quality: None }
    } else {
        let f = first_set(format, if prompt is Some { prompt->0.format } else { None });
        let d = first_set(dpi, if prompt is Some { prompt->0.dpi } else { None });
        let q = first_set(quality, if prompt is Some { prompt->0.quality } else { None });
        PdfParamsView {
            op,
            format: Some(if f is Some { f->0 } else { "png"@ }),
            dpi: Some(if d is Some { d->0 } else { 150 }),
            quality: q,
        }
    }
}

/// `r` is the rejection of the unknown operation `op`.
pub open spec fn rejects_op(r: Result<PdfParams, MochifyError>, op: Seq<char>) -> bool {
    r matches Err(MochifyError::UnknownPdfOperation { op: o }) && o@ == op
}

/// `r` is success with parameters `v`.
pub open spec fn resolves_to(r: Result<PdfParams, MochifyError>, v: PdfParamsView) -> bool {
    r matches Ok(p) && p@ == v
}

/// Combines prompt-derived and explicit PDF parameters once the operation
/// has been lower-cased: fails without an operation or with an unknown one.
pub fn resolve_lowered_pdf_params(
    prompt: Option<PdfParams>,
    op: Option<String>,
    format: Option<String>,
    dpi: Option<u32>,
    quality: Option<u32>,
) -> (r: Result<PdfParams, MochifyError>)
    ensures
        op is None ==> r matches Err(MochifyError::NoPdfOperation),
        op is Some && !known_op(op->0@) ==> rejects_op(r, op->0@),
        op is Some && known_op(op->0@) ==> resolves_to(
            r,
            resolved_pdf(opt_pdf_view(prompt), op->0@, format.deep_view(), dpi, quality),
        ),
{
    let op = match op {
        Some(o) => o,
        None => {
            return Err(MochifyError::NoPdfOperation);
        },
    };
    let is_split = text_eq(op.as_str(), "split");
    let is_raster = text_eq(op.as_str(), "rasterize");
    if !is_split && !is_raster {
        return Err(MochifyError::UnknownPdfOperation { op });
    }
    if is_split {
        return Ok(PdfParams { op, format: None, dpi: None, quality: None });
    }
    let format = match format {
        Some(f) => Some(f),
        None => match &prompt {
            Some(p) => copy_opt(&p.format),
            None => None,
        },
    };
    let dpi = match dpi {
        Some(d) => Some(d),
        None => match &prompt {
            Some(p) => p.dpi,
            None => None,
        },
    };
    let quality = match quality {
        Some(q) => Some(q),
        None => match &prompt {
            Some(p) => p.quality,
            None => None,
        },
    };
    let format = match format {
        Some(f) => f,
        None => owned("png"),
    };
    let dpi = match dpi {
        Some(d) => d,
        None => 150,
    };
    Ok(PdfParams { op, format: Some(format), dpi: Some(dpi), quality })
}

/// Combine prompt-derived and explicit PDF params (explicit wins), validate the
/// operation, and apply rasterize defaults (PNG @ 150 DPI, matching the frontend).
///
/// The operation is lower-cased with `str::to_lowercase` before it is
/// checked (for an ASCII operation that is ASCII lower-casing); the rest is
/// [`resolve_lowered_pdf_params`].
pub fn resolve_pdf_params(
    prompt: Option<PdfParams>,
    op: Option<String>,
    format: Option<String>,
    dpi: Option<u32>,
    quality: Option<u32>,
) -> (r: Result<PdfParams, MochifyError>)
    ensures
        chosen_op(opt_pdf_view(prompt), op.deep_view()) is None ==> r matches Err(
            MochifyError::NoPdfOperation,
        ),
        ({
            let chosen = chosen_op(opt_pdf_view(prompt), op.deep_view());
            chosen is Some && !known_op(lowercase(chosen->0)) ==> rejects_op(r, lowercase(chosen->0))
        }),
        ({
            let chosen = chosen_op(opt_pdf_view(prompt), op.deep_view());
            chosen is Some && known_op(lowercase(chosen->0)) ==> resolves_to(
                r,
                resolved_pdf(
                    opt_pdf_view(prompt),
                    lowercase(chosen->0),
                    format.deep_view(),
                    dpi,
                    quality,
                ),
            )
        }),
        ({
            let chosen = chosen_op(opt_pdf_view(prompt), op.deep_view());
            chosen is Some && is_ascii_chars(chosen->0) ==> lowercase(chosen->0) == ascii_lowered(
                chosen->0,
            )
        }),        op is Some ==> (r matches Ok(p) ==> p@.op == lowercase(op->0@)),
        op is Some ==> (r matches Err(MochifyError::UnknownPdfOperation { op: o }) ==> o@
            == lowercase(op->0@)),
        op is Some ==> !(r matches Err(MochifyError::NoPdfOperation)),
{
    let chosen = match op {
        Some(o) => Some(o),
        None => match &prompt {
            Some(p) => Some(p.op.clone()),
            None => None,
        },
    };
    let lowered = match chosen {
        Some(o) => Some(to_lowercase(o.as_str())),
        None => None,
    };
    resolve_lowered_pdf_params(prompt, lowered, format, dpi, quality)
}

/// The one-line description of a PDF job.
pub open spec fn pdf_description(p: PdfParamsView) -> Seq<char> {
    if p.op == "split"@ {
        "split into per-page PDFs"@
    } else {
        "rasterize to "@ + uppercase(if p.format is Some { p.format->0 } else { "png"@ })
            + " at "@ + decimal((if p.dpi is Some { p.dpi->0 } else { 150u32 }) as nat)
            + " DPI"@
    }
}

/// Describes what a PDF job will do, e.g. "rasterize to PNG at 150 DPI".
/// The format is upper-cased with `str::to_uppercase` (for an ASCII format,
/// ASCII upper-casing).
pub fn pdf_summary(p: &PdfParams) -> (s: String)
    ensures
        s@ == pdf_description(p@),
        ({
            let f = if p@.format is Some { p@.format->0 } else { "png"@ };
            p@.op != "split"@ && is_ascii_chars(f) ==> uppercase(f) == ascii_uppered(f)
        }),
{
    if text_eq(p.op.as_str(), "split") {
        return owned("split into per-page PDFs");
    }
    let fmt = match &p.format {
        Some(f) => to_uppercase(f.as_str()),
        None => to_uppercase("png"),
    };
    let dpi = match p.dpi {
        Some(d) => d,
        None => 150,
    };
    let mut s = owned("rasterize to ");
    push_str(&mut s, fmt.as_str());
    push_str(&mut s, " at ");
    push_str(&mut s, u32_text(dpi).as_str());
    push_str(&mut s, " DPI");
    s
}

/// A resolved PDF job always names a known operation, and a rasterize job
/// always carries an output format and a resolution.
pub proof fn law_resolved_pdf_is_complete(
    prompt: Option<PdfParamsView>,
    op: Seq<char>,
    format: Option<Seq<char>>,
    dpi: Option<u32>,
    quality: Option<u32>,
)
    requires
        known_op(op),
    ensures
        known_op(resolved_pdf(prompt, op, format, dpi, quality).op),
        op == "rasterize"@ ==> resolved_pdf(prompt, op, format, dpi, quality).format is Some
            && resolved_pdf(prompt, op, format, dpi, quality).dpi is Some,
        op == "split"@ ==> resolved_pdf(prompt, op, format, dpi, quality).format is None
            && resolved_pdf(prompt, op, format, dpi, quality).dpi is None
            && resolved_pdf(prompt, op, format, dpi, quality).quality is None,
{
    reveal_strlit("split");
    reveal_strlit("rasterize");
    assert("split"@.len() != "rasterize"@.len());
}

/// For a rasterize job, each render setting given explicitly wins over the
/// prompt's; an unset one falls back to the prompt's, then to the default.
pub proof fn law_explicit_pdf_flags_win(
    prompt: PdfParamsView,
    format: Option<Seq<char>>,
    dpi: Option<u32>,
    quality: Option<u32>,
)
    ensures
        ({
            let r = resolved_pdf(Some(prompt), "rasterize"@, format, dpi, quality);
            &&& format is Some ==> r.format == format
            &&& dpi is Some ==> r.dpi == dpi
            &&& quality is Some ==> r.quality == quality
            &&& format is None && prompt.format is Some ==> r.format == prompt.format
            &&& dpi is None && prompt.dpi is Some ==> r.dpi == prompt.dpi
            &&& quality is None ==> r.quality == prompt.quality
        }),
{
    reveal_strlit("split");
    reveal_strlit("rasterize");
    assert("split"@.len() != "rasterize"@.len());
}

/// An explicit operation always wins: whatever operation the prompt
/// proposed, the job is resolved (or rejected) for the explicit operation,
/// lower-cased. The prompt's operation is used only when none is given.
/// A rasterize job whose format and resolution neither the flags nor the
/// prompt set renders PNG at 150 DPI.
pub proof fn law_explicit_pdf_op_wins(
    prompt: Option<PdfParamsView>,
    op: Seq<char>,
    format: Option<Seq<char>>,
    dpi: Option<u32>,
    quality: Option<u32>,
)
    ensures
        chosen_op(prompt, Some(op)) == Some(op),
        prompt is Some ==> chosen_op(prompt, None) == Some(prompt->0.op),
        prompt is None ==> chosen_op(prompt, None) is None,
        known_op(lowercase(op)) ==> resolved_pdf(
            prompt,
            lowercase(chosen_op(prompt, Some(op))->0),
            format,
            dpi,
            quality,
        ).op == lowercase(op),
        ({
            let r = resolved_pdf(prompt, "rasterize"@, format, dpi, quality);
            format is None && dpi is None && (prompt is None || (prompt->0.format is None
                && prompt->0.dpi is None)) ==> r.format == Some("png"@) && r.dpi == Some(150u32)
        }),
        resolved_pdf(prompt, "split"@, format, dpi, quality) == (PdfParamsView {
            op: "split"@,
            format: None,
            dpi: None,
            quality: None,
        }),
{
    reveal_strlit("split");
    reveal_strlit("rasterize");
    assert("split"@.len() != "rasterize"@.len());
}

/// Resolving an already resolved job again, with no explicit flags, gives
/// it back unchanged.
pub proof fn law_resolution_is_stable(
    prompt: Option<PdfParamsView>,
    op: Seq<char>,
    format: Option<Seq<char>>,
    dpi: Option<u32>,
    quality: Option<u32>,
)
    requires
        known_op(op),
    ensures
        ({
            let p = resolved_pdf(prompt, op, format, dpi, quality);
            resolved_pdf(Some(p), p.op, None, None, None) == p
        }),
{
}

} // verus!
