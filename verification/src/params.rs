//! Processing parameters for image (`/v1/squish`) and PDF (`/v1/pdf`) jobs,
//! and the precedence rule that merges prompt-derived and explicit settings.

use vstd::prelude::*;
use crate::text::copy_opt;

verus! {

/// Parameters of one `/v1/squish` job. Unset fields leave the choice to
/// the API.
#[derive(Debug, Clone)]
pub struct ProcessParams {
    pub format: Option<String>,
    pub width: Option<u32>,
    pub height: Option<u32>,
    pub crop: Option<bool>,
    pub rotation: Option<u32>,
    /// Suffix appended to the output filename stem for multi-variant jobs (e.g. "_500w_webp").
    pub out_name_suffix: Option<String>,
    /// Explicit output base name (without extension). Overrides the input filename stem.
    pub output_name: Option<String>,
    pub clarity: Option<bool>,
    pub remove_background: Option<bool>,
    pub background: Option<String>,
    /// EXIF/metadata handling. The API strips by default; `Some(false)` preserves it.
    pub strip_exif: Option<bool>,
}

/// The mathematical value of a [`ProcessParams`]: strings as character
/// sequences.
pub struct ProcessParamsView {
    pub format: Option<Seq<char>>,
    pub width: Option<u32>,
    pub height: Option<u32>,
    pub crop: Option<bool>,
    pub rotation: Option<u32>,
    pub out_name_suffix: Option<Seq<char>>,
    pub output_name: Option<Seq<char>>,
    pub clarity: Option<bool>,
    pub remove_background: Option<bool>,
    pub background: Option<Seq<char>>,
    pub strip_exif: Option<bool>,
}

impl View for ProcessParams {
    type V = ProcessParamsView;

    open spec fn view(&self) -> ProcessParamsView {
        ProcessParamsView {
            format: self.format.deep_view(),
            width: self.width,
            height: self.height,
            crop: self.crop,
            rotation: self.rotation,
            out_name_suffix: self.out_name_suffix.deep_view(),
            output_name: self.output_name.deep_view(),
            clarity: self.clarity,
            remove_background: self.remove_background,
            background: self.background.deep_view(),
            strip_exif: self.strip_exif,
        }
    }
}

/// Parameters with every field unset.
pub open spec fn unset_params() -> ProcessParamsView {
    ProcessParamsView {
        format: None,
        width: None,
        height: None,
        crop: None,
        rotation: None,
        out_name_suffix: None,
        output_name: None,
        clarity: None,
        remove_background: None,
        background: None,
        strip_exif: None,
    }
}

impl Default for ProcessParams {
    fn default() -> (r: Self)
        ensures
            r@ == unset_params(),
    {
        ProcessParams {
            format: None,
            width: None,
            height: None,
            crop: None,
            rotation: None,
            out_name_suffix: None,
            output_name: None,
            clarity: None,
            remove_background: None,
            background: None,
            strip_exif: None,
        }
    }
}

impl ProcessParams {
    /// A field-by-field copy.
    pub fn duplicate(&self) -> (r: Self)
        ensures
            r@ == self@,
    {
        ProcessParams {
            format: copy_opt(&self.format),
            width: self.width,
            height: self.height,
            crop: self.crop,
            rotation: self.rotation,
            out_name_suffix: copy_opt(&self.out_name_suffix),
            output_name: copy_opt(&self.output_name),
            clarity: self.clarity,
            remove_background: self.remove_background,
            background: copy_opt(&self.background),
            strip_exif: self.strip_exif,
        }
    }
}

/// `a` when it is set, else `b` (`Option::or`).
pub open spec fn first_set<T>(a: Option<T>, b: Option<T>) -> Option<T> {
    if a is Some {
        a
    } else {
        b
    }
}

fn or_else<T>(a: Option<T>, b: Option<T>) -> (r: Option<T>)
    ensures
        r == first_set(a, b),
{
    match a {
        Some(x) => Some(x),
        None => b,
    }
}

/// Prompt-derived `base` merged with explicit `overrides`: every field set
/// in `overrides` wins, unset fields fall back to `base`; the output-name
/// suffix always comes from `base`.
pub open spec fn merged(base: ProcessParamsView, overrides: ProcessParamsView) -> ProcessParamsView {
    ProcessParamsView {
        format: first_set(overrides.format, base.format),
        width: first_set(overrides.width, base.width),
        height: first_set(overrides.height, base.height),
        crop: first_set(overrides.crop, base.crop),
        rotation: first_set(overrides.rotation, base.rotation),
        out_name_suffix: base.out_name_suffix,
        output_name: first_set(overrides.output_name, base.output_name),
        clarity: first_set(overrides.clarity, base.clarity),
        remove_background: first_set(overrides.remove_background, base.remove_background),
        background: first_set(overrides.background, base.background),
        strip_exif: first_set(overrides.strip_exif, base.strip_exif),
    }
}

/// Merge prompt-derived `base` params with explicit CLI `overrides`.
/// Any explicitly set field in `overrides` wins; unset fields fall back to `base`.
pub fn merge_params(base: ProcessParams, overrides: ProcessParams) -> (r: ProcessParams)
    ensures
        r@ == merged(base@, overrides@),
{
    ProcessParams {
        format: or_else(overrides.format, base.format),
        width: or_else(overrides.width, base.width),
        height: or_else(overrides.height, base.height),
        crop: or_else(overrides.crop, base.crop),
        rotation: or_else(overrides.rotation, base.rotation),
        out_name_suffix: base.out_name_suffix,
        output_name: or_else(overrides.output_name, base.output_name),
        clarity: or_else(overrides.clarity, base.clarity),
        remove_background: or_else(overrides.remove_background, base.remove_background),
        background: or_else(overrides.background, base.background),
        strip_exif: or_else(overrides.strip_exif, base.strip_exif),
    }
}

/// Explicit settings win field by field: every field set in `overrides`
/// has exactly that value after the merge, every unset one keeps the value
/// from `base`, and the output-name suffix always comes from `base`.
pub proof fn law_explicit_settings_win(base: ProcessParamsView, overrides: ProcessParamsView)
    ensures
        ({
            let m = merged(base, overrides);
            &&& m.format == (if overrides.format is Some { overrides.format } else { base.format })
            &&& m.width == (if overrides.width is Some { overrides.width } else { base.width })
            &&& m.height == (if overrides.height is Some { overrides.height } else { base.height })
            &&& m.crop == (if overrides.crop is Some { overrides.crop } else { base.crop })
            &&& m.rotation == (if overrides.rotation is Some {
                overrides.rotation
            } else {
                base.rotation
            })
            &&& m.output_name == (if overrides.output_name is Some {
                overrides.output_name
            } else {
                base.output_name
            })
            &&& m.clarity == (if overrides.clarity is Some {
                overrides.clarity
            } else {
                base.clarity
            })
            &&& m.remove_background == (if overrides.remove_background is Some {
                overrides.remove_background
            } else {
                base.remove_background
            })
            &&& m.background == (if overrides.background is Some {
                overrides.background
            } else {
                base.background
            })
            &&& m.strip_exif == (if overrides.strip_exif is Some {
                overrides.strip_exif
            } else {
                base.strip_exif
            })
            &&& m.out_name_suffix == base.out_name_suffix
        }),
{
}

/// Merging with no explicit settings leaves the prompt-derived parameters
/// unchanged.
pub proof fn law_merge_without_overrides(base: ProcessParamsView)
    ensures
        merged(base, unset_params()) == base,
{
}

/// Applying the same explicit settings a second time changes nothing.
pub proof fn law_merge_idempotent(base: ProcessParamsView, overrides: ProcessParamsView)
    ensures
        merged(merged(base, overrides), overrides) == merged(base, overrides),
{
}

/// Layering explicit settings: merging `b` then `c` onto `a` is the same as
/// merging onto `a` the result of merging `c` onto `b`.
pub proof fn law_merge_layers(a: ProcessParamsView, b: ProcessParamsView, c: ProcessParamsView)
    ensures
        merged(merged(a, b), c) == merged(a, merged(b, c)),
{
}

/// Parameters for a `/v1/pdf` request. `op` is "split" (one PDF per page) or
/// "rasterize" (render pages to images); `format`/`dpi`/`quality` apply to rasterize only.
#[derive(Debug, Clone)]
pub struct PdfParams {
    pub op: String,
    pub format: Option<String>,
    pub dpi: Option<u32>,
    pub quality: Option<u32>,
}

/// The mathematical value of a [`PdfParams`].
pub struct PdfParamsView {
    pub op: Seq<char>,
    pub format: Option<Seq<char>>,
    pub dpi: Option<u32>,
    pub quality: Option<u32>,
}

impl View for PdfParams {
    type V = PdfParamsView;

    open spec fn view(&self) -> PdfParamsView {
        PdfParamsView {
            op: self.op@,
            format: self.format.deep_view(),
            dpi: self.dpi,
            quality: self.quality,
        }
    }
}

} // verus!
