//! Expansion of one natural-language prompt result into the per-variant
//! parameters (one per size × format) and the per-file map of variants.

use vstd::prelude::*;
use crate::params::{ProcessParams, ProcessParamsView};
use crate::text::{copy_opt, decimal, owned, push_str, u32_text};

verus! {

/// One output size proposed by the prompt service.
#[derive(Debug, Clone, Copy)]
pub struct SizeEntry {
    pub width: u32,
    pub height: u32,
}

/// The prompt service's answer for one input file.
#[derive(Debug)]
pub struct PromptFileResult {
    pub filename: String,
    pub format: Option<String>,
    pub width: Option<u32>,
    pub height: Option<u32>,
    pub crop: Option<bool>,
    pub rotate: u32,
    pub output_name: Option<String>,
    pub clarity: Option<bool>,
    pub remove_background: Option<bool>,
    /// Composite background colour (e.g. "white", "#ff0000") when the prompt specifies one.
    pub background: Option<String>,
    /// Multi-format: set when NLP returns more than one output format.
    pub types: Option<Vec<String>>,
    /// Multi-size: set when NLP returns more than one output size.
    pub sizes: Option<Vec<SizeEntry>>,
}

/// The output formats of a prompt result: the list of types when it names
/// more than one, else the single format, "jpg" when none is given.
pub open spec fn formats_of(file: PromptFileResult) -> Seq<Seq<char>> {
    if file.types is Some && file.types->0.len() > 1 {
        file.types->0.deep_view()
    } else if file.format is Some {
        seq![file.format->0@]
    } else {
        seq!["jpg"@]
    }
}

/// A size entry as a (width, height) pair of set dimensions.
pub open spec fn size_pair(s: SizeEntry) -> (Option<u32>, Option<u32>) {
    (Some(s.width), Some(s.height))
}

/// The output sizes of a prompt result: the list of sizes when it names
/// more than one, else the single (width, height).
pub open spec fn sizes_of(file: PromptFileResult) -> Seq<(Option<u32>, Option<u32>)> {
    if file.sizes is Some && file.sizes->0.len() > 1 {
        file.sizes->0@.map_values(|s: SizeEntry| size_pair(s))
    } else {
        seq![(file.width, file.height)]
    }
}

/// A dimension that is set and positive.
pub open spec fn positive(d: Option<u32>) -> bool {
    d is Some && d->0 > 0
}

/// The size part of a variant's name suffix: `_{w}x{h}`, `_{w}w`, `_{h}h`,
/// or nothing, counting only positive dimensions.
pub open spec fn size_suffix(w: Option<u32>, h: Option<u32>) -> Seq<char> {
    if positive(w) && positive(h) {
        "_"@ + decimal(w->0 as nat) + "x"@ + decimal(h->0 as nat)
    } else if positive(w) {
        "_"@ + decimal(w->0 as nat) + "w"@
    } else if positive(h) {
        "_"@ + decimal(h->0 as nat) + "h"@
    } else {
        Seq::empty()
    }
}

/// The output-name suffix of a variant: present only for multi-variant
/// jobs, made of the size part (multi-size jobs) then `_{format}`
/// (multi-format jobs).
pub open spec fn variant_suffix(
    size: (Option<u32>, Option<u32>),
    fmt: Seq<char>,
    multi_size: bool,
    multi_format: bool,
) -> Option<Seq<char>> {
    if multi_size || multi_format {
        Some(
            (if multi_size {
                size_suffix(size.0, size.1)
            } else {
                Seq::empty()
            }) + (if multi_format {
                "_"@ + fmt
            } else {
                Seq::empty()
            }),
        )
    } else {
        None
    }
}

/// The parameters of the variant of `file` with the given size and format.
pub open spec fn variant(
    file: PromptFileResult,
    size: (Option<u32>, Option<u32>),
    fmt: Seq<char>,
    multi_size: bool,
    multi_format: bool,
) -> ProcessParamsView {
    ProcessParamsView {
        format: Some(fmt),
        width: size.0,
        height: size.1,
        crop: file.crop,
        rotation: if file.rotate != 0 {
            Some(file.rotate)
        } else {
            None
        },
        out_name_suffix: variant_suffix(size, fmt, multi_size, multi_format),
        output_name: file.output_name.deep_view(),
        clarity: file.clarity,
        remove_background: file.remove_background,
        background: file.background.deep_view(),
        strip_exif: None,
    }
}

/// The variant at size index `i` and format index `j`.
pub open spec fn variant_at(file: PromptFileResult, i: int, j: int) -> ProcessParamsView {
    variant(
        file,
        sizes_of(file)[i],
        formats_of(file)[j],
        sizes_of(file).len() > 1,
        formats_of(file).len() > 1,
    )
}

/// All variants of `file`, size-major: the variant for size `i` and format
/// `j` stands at index `i * formats + j`.
pub open spec fn expanded(file: PromptFileResult) -> Seq<ProcessParamsView> {
    let nf = formats_of(file).len() as int;
    Seq::new(
        (sizes_of(file).len() * formats_of(file).len()) as nat,
        |k: int| variant_at(file, k / nf, k % nf),
    )
}

/// The views of a list of parameters.
pub open spec fn params_views(v: Seq<ProcessParams>) -> Seq<ProcessParamsView> {
    v.map_values(|p: ProcessParams| p@)
}

proof fn lemma_quotient_range(k: int, nf: int, ns: int, q: int, r: int)
    by (nonlinear_arith)
    requires
        0 <= k < ns * nf,
        nf > 0,
        k == nf * q + r,
        0 <= r < nf,
    ensures
        0 <= q < ns,
        k == q * nf + r,
{
}

/// Jobs with more than one format or size give every variant an output-name
/// suffix; single-variant jobs carry none.
pub proof fn law_suffix_only_for_multi_variant_jobs(file: PromptFileResult, k: int)
    requires
        0 <= k < expanded(file).len(),
    ensures
        expanded(file)[k].out_name_suffix is Some <==> (sizes_of(file).len() > 1
            || formats_of(file).len() > 1),
{
}

/// In a multi-size job, the name suffix of the variant for size entry `i`
/// and format `j` starts with the size, width first: `_{w}x{h}` when both
/// are positive, `_{w}w` or `_{h}h` when only one is, nothing when neither
/// is; in a multi-format job `_{format}` follows.
pub proof fn law_size_suffix_names_width_then_height(file: PromptFileResult, i: int, j: int)
    requires
        file.sizes is Some,
        file.sizes->0.len() > 1,
        0 <= i < file.sizes->0.len(),
        0 <= j < formats_of(file).len(),
    ensures
        ({
            let w = file.sizes->0@[i].width;
            let h = file.sizes->0@[i].height;
            let fmt_part = if formats_of(file).len() > 1 {
                "_"@ + formats_of(file)[j]
            } else {
                Seq::empty()
            };
            let suffix = variant_at(file, i, j).out_name_suffix;
            &&& variant_at(file, i, j).width == Some(w)
            &&& variant_at(file, i, j).height == Some(h)
            &&& w > 0 && h > 0 ==> suffix == Some("_"@ + decimal(w as nat) + "x"@ + decimal(h as nat) + fmt_part)
            &&& w > 0 && h == 0 ==> suffix == Some("_"@ + decimal(w as nat) + "w"@ + fmt_part)
            &&& w == 0 && h > 0 ==> suffix == Some("_"@ + decimal(h as nat) + "h"@ + fmt_part)
            &&& w == 0 && h == 0 ==> suffix == Some(fmt_part)
        }),
{
    assert(sizes_of(file)[i] == size_pair(file.sizes->0@[i]));
    assert(Seq::<char>::empty() + Seq::<char>::empty() =~= Seq::<char>::empty());
}

/// Every variant renders in its own format and keeps the prompt's other
/// settings: the formats are the listed types when more than one is listed,
/// else the single format, else "jpg"; a single-size job keeps the prompt's
/// width and height; crop, output name, clarity, background removal and
/// background are carried over, a zero rotation is not sent, and EXIF
/// handling is left to the API. A job with one size and one format carries
/// no name suffix.
pub proof fn law_variants_keep_prompt_settings(file: PromptFileResult, i: int, j: int)
    requires
        0 <= i < sizes_of(file).len(),
        0 <= j < formats_of(file).len(),
    ensures
        ({
            let v = variant_at(file, i, j);
            &&& file.types is Some && file.types->0.len() > 1 ==> v.format == Some(
                file.types->0[j]@,
            )
            &&& !(file.types is Some && file.types->0.len() > 1) && file.format is Some
                ==> v.format == Some(file.format->0@)
            &&& !(file.types is Some && file.types->0.len() > 1) && file.format is None
                ==> v.format == Some("jpg"@)
            &&& !(file.sizes is Some && file.sizes->0.len() > 1) ==> (v.width == file.width
                && v.height == file.height)
            &&& !(file.sizes is Some && file.sizes->0.len() > 1) && formats_of(file).len() == 1
                ==> v.out_name_suffix is None
            &&& v.crop == file.crop
            &&& v.rotation == (if file.rotate == 0 { None } else { Some(file.rotate) })
            &&& v.output_name == file.output_name.deep_view()
            &&& v.clarity == file.clarity
            &&& v.remove_background == file.remove_background
            &&& v.background == file.background.deep_view()
            &&& v.strip_exif is None
        }),
{
}

/// A job expands to one variant per size and format, and never to none.
pub proof fn law_variant_count(file: PromptFileResult)
    ensures
        expanded(file).len() == sizes_of(file).len() * formats_of(file).len(),
        expanded(file).len() >= 1,
{
    assert(sizes_of(file).len() >= 1 && formats_of(file).len() >= 1);
    lemma_product_positive(sizes_of(file).len() as int, formats_of(file).len() as int);
}

proof fn lemma_product_positive(a: int, b: int)
    by (nonlinear_arith)
    requires
        a >= 1,
        b >= 1,
    ensures
        a * b >= 1,
{
}

fn copy_strings(v: &Vec<String>) -> (r: Vec<String>)
    ensures
        r.deep_view() == v.deep_view(),
{
    let mut r: Vec<String> = Vec::new();
    let mut i: usize = 0;
    while i < v.len()
        invariant
            i <= v.len(),
            r.len() == i,
            forall|k: int| 0 <= k < i ==> #[trigger] r@[k]@ == v@[k]@,
        decreases v.len() - i,
    {
        r.push(v[i].clone());
        i = i + 1;
    }
    assert(r.deep_view() =~= v.deep_view());
    r
}

fn size_suffix_text(w: Option<u32>, h: Option<u32>) -> (s: String)
    ensures
        s@ == size_suffix(w, h),
{
    let mut s = String::new();
    let wp = match w {
        Some(v) => v > 0,
        None => false,
    };
    let hp = match h {
        Some(v) => v > 0,
        None => false,
    };
    if wp && hp {
        push_str(&mut s, "_");
        push_str(&mut s, u32_text(w.unwrap()).as_str());
        push_str(&mut s, "x");
        push_str(&mut s, u32_text(h.unwrap()).as_str());
    } else if wp {
        push_str(&mut s, "_");
        push_str(&mut s, u32_text(w.unwrap()).as_str());
        push_str(&mut s, "w");
    } else if hp {
        push_str(&mut s, "_");
        push_str(&mut s, u32_text(h.unwrap()).as_str());
        push_str(&mut s, "h");
    }
    assert(s@ =~= size_suffix(w, h));
    s
}

fn suffix_text(
    w: Option<u32>,
    h: Option<u32>,
    fmt: &String,
    multi_size: bool,
    multi_format: bool,
) -> (r: Option<String>)
    ensures
        r.deep_view() == variant_suffix((w, h), fmt@, multi_size, multi_format),
{
    if multi_size || multi_format {
        let mut s = String::new();
        if multi_size {
            let sz = size_suffix_text(w, h);
            push_str(&mut s, sz.as_str());
        }
        if multi_format {
            push_str(&mut s, "_");
            push_str(&mut s, fmt.as_str());
        }
        assert(s@ =~= variant_suffix((w, h), fmt@, multi_size, multi_format)->0);
        Some(s)
    } else {
        None
    }
}

proof fn lemma_index_below(i2: int, j2: int, i: int, nf: int)
    by (nonlinear_arith)
    requires
        0 <= i2 < i,
        0 <= j2 < nf,
    ensures
        i2 * nf + j2 < i * nf,
{
}

proof fn lemma_next_row(i: int, nf: int)
    by (nonlinear_arith)
    ensures
        (i + 1) * nf == i * nf + nf,
{
}

/// Expand a single NLP file result into one `ProcessParams` per (size × format) variant.
/// Jobs with more than one format or size get an output-name suffix (`_500w`, `_1000x1000`,
/// `_webp`, or a combination); single-variant jobs carry no suffix.
///
/// Variants are ordered size-major: the variant for size `i` and format `j`
/// stands at index `i * formats + j`.
pub fn expand_file_variants(file: &PromptFileResult) -> (r: Vec<ProcessParams>)
    ensures
        params_views(r@) == expanded(*file),
        r.len() == sizes_of(*file).len() * formats_of(*file).len(),
        forall|i: int, j: int|
            #![trigger sizes_of(*file)[i], formats_of(*file)[j]]
            0 <= i < sizes_of(*file).len() && 0 <= j < formats_of(*file).len() ==> r@[i
                * formats_of(*file).len() + j]@ == variant_at(*file, i, j),
{
    let formats: Vec<String> = match &file.types {
        Some(types) => {
            if types.len() > 1 {
                copy_strings(types)
            } else {
                match &file.format {
                    Some(f) => vec![f.clone()],
                    None => vec![owned("jpg")],
                }
            }
        },
        None => match &file.format {
            Some(f) => vec![f.clone()],
            None => vec![owned("jpg")],
        },
    };
    let mut sizes: Vec<(Option<u32>, Option<u32>)> = Vec::new();
    let mut listed = false;
    if let Some(entries) = &file.sizes {
        if entries.len() > 1 {
            listed = true;
            let mut k: usize = 0;
            while k < entries.len()
                invariant
                    k <= entries.len(),
                    sizes@ == entries@.take(k as int).map_values(|s: SizeEntry| size_pair(s)),
                decreases entries.len() - k,
            {
                let e = entries[k];
                sizes.push((Some(e.width), Some(e.height)));
                assert(entries@.take(k + 1).map_values(|s: SizeEntry| size_pair(s)) =~= entries@.take(
                    k as int,
                ).map_values(|s: SizeEntry| size_pair(s)).push(size_pair(e)));
                k = k + 1;
            }
            assert(entries@.take(entries.len() as int) =~= entries@);
        }
    }
    if !listed {
        sizes.push((file.width, file.height));
        assert(sizes@ =~= seq![(file.width, file.height)]);
    }
    assert(formats.deep_view() =~= formats_of(*file));
    assert(sizes@ =~= sizes_of(*file));

    let ghost fs = formats_of(*file);
    let ghost ss = sizes_of(*file);
    let nf = formats.len();
    let ns = sizes.len();
    let multi_format = nf > 1;
    let multi_size = ns > 1;

    let mut variants: Vec<ProcessParams> = Vec::new();
    let mut i: usize = 0;
    while i < ns
        invariant
            fs == formats_of(*file),
            ss == sizes_of(*file),
            formats.deep_view() == fs,
            sizes@ == ss,
            nf == fs.len(),
            ns == ss.len(),
            nf >= 1,
            multi_format == (nf > 1),
            multi_size == (ns > 1),
            i <= ns,
            variants.len() == i * nf,
            forall|i2: int, j2: int|
                #![trigger ss[i2], fs[j2]]
                0 <= i2 < i && 0 <= j2 < nf ==> variants@[i2 * nf + j2]@ == variant_at(
                    *file,
                    i2,
                    j2,
                ),
        decreases ns - i,
    {
        let (w, h) = sizes[i];
        let mut j: usize = 0;
        while j < nf
            invariant
                fs == formats_of(*file),
                ss == sizes_of(*file),
                formats.deep_view() == fs,
                sizes@ == ss,
                nf == fs.len(),
                ns == ss.len(),
                multi_format == (nf > 1),
                multi_size == (ns > 1),
                i < ns,
                (w, h) == ss[i as int],
                j <= nf,
                variants.len() == i * nf + j,
                forall|i2: int, j2: int|
                    #![trigger ss[i2], fs[j2]]
                    0 <= i2 < i && 0 <= j2 < nf ==> variants@[i2 * nf + j2]@ == variant_at(
                        *file,
                        i2,
                        j2,
                    ),
                forall|j2: int|
                    #![trigger fs[j2]]
                    0 <= j2 < j ==> variants@[i * nf + j2]@ == variant_at(*file, i as int, j2),
            decreases nf - j,
        {
            let fmt = &formats[j];
            assert(fmt@ == fs[j as int]);
            let v = ProcessParams {
                format: Some(fmt.clone()),
                width: w,
                height: h,
                crop: file.crop,
                rotation: if file.rotate != 0 {
                    Some(file.rotate)
                } else {
                    None
                },
                out_name_suffix: suffix_text(w, h, fmt, multi_size, multi_format),
                output_name: copy_opt(&file.output_name),
                clarity: file.clarity,
                remove_background: file.remove_background,
                background: copy_opt(&file.background),
                strip_exif: None,
            };
            assert(v@ == variant_at(*file, i as int, j as int));
            let ghost before = variants@;
            variants.push(v);
            proof {
                assert forall|i2: int, j2: int|
                    #![trigger ss[i2], fs[j2]]
                    0 <= i2 < i && 0 <= j2 < nf implies variants@[i2 * nf + j2]@ == variant_at(
                        *file,
                        i2,
                        j2,
                    ) by {
                    lemma_index_below(i2, j2, i as int, nf as int);
                    assert(variants@[i2 * nf + j2] == before[i2 * nf + j2]);
                }
                assert forall|j2: int|
                    #![trigger fs[j2]]
                    0 <= j2 < j + 1 implies variants@[i * nf + j2]@ == variant_at(
                        *file,
                        i as int,
                        j2,
                    ) by {
                    if j2 < j {
                        assert(variants@[i * nf + j2] == before[i * nf + j2]);
                    }
                }
            }
            j = j + 1;
        }
        proof {
            lemma_next_row(i as int, nf as int);
            assert forall|i2: int, j2: int|
                #![trigger ss[i2], fs[j2]]
                0 <= i2 < i + 1 && 0 <= j2 < nf implies variants@[i2 * nf + j2]@ == variant_at(
                    *file,
                    i2,
                    j2,
                ) by {
                if i2 == i {
                    assert(fs[j2] == fs[j2]);
                }
            }
        }
        i = i + 1;
    }
    proof {
        let total = (ns * nf) as int;
        assert forall|k: int| 0 <= k < total implies #[trigger] variants@[k]@ == variant_at(
            *file,
            k / (nf as int),
            k % (nf as int),
        ) by {
            vstd::arithmetic::div_mod::lemma_fundamental_div_mod(k, nf as int);
            vstd::arithmetic::div_mod::lemma_mod_pos_bound(k, nf as int);
            lemma_quotient_range(k, nf as int, ns as int, k / (nf as int), k % (nf as int));
            let qi = k / (nf as int);
            let rj = k % (nf as int);
            assert(ss[qi] == ss[qi] && fs[rj] == fs[rj]);
        }
        assert(params_views(variants@) =~= expanded(*file));
    }
    variants
}

} // verus!
