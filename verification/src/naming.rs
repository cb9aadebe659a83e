//! Output file naming, input file kinds and content types.

use vstd::prelude::*;
use crate::params::{ProcessParams, ProcessParamsView};
use crate::text::{
    decimal, digit_char, eq_ignore_ascii_case, lemma_trim_of_trimmed, lemma_trim_shape, owned,
    push_char, push_str, text_eq, text_eq_ignore_ascii_case, trim, trim_text, u32_text,
    white_space,
};

verus! {

/// Characters that cannot stand in an output file name.
pub open spec fn forbidden_in_name(c: char) -> bool {
    c == '/' || c == '\\' || c == ':' || c == '*' || c == '?' || c == '"' || c == '<' || c == '>'
        || c == '|' || c == '\n' || c == '\r' || c == '\t'
}

/// `name` without forbidden characters, then trimmed.
pub open spec fn sanitized(name: Seq<char>) -> Seq<char> {
    trim(name.filter(|c: char| !forbidden_in_name(c)))
}

/// Strip characters invalid in filenames and trim surrounding whitespace.
pub fn sanitize_output_name(name: &str) -> (r: String)
    ensures
        r@ == sanitized(name@),
{
    let n = name.unicode_len();
    let mut kept = String::new();
    let mut i: usize = 0;
    while i < n
        invariant
            n == name@.len(),
            i <= n,
            kept@ == name@.take(i as int).filter(|c: char| !forbidden_in_name(c)),
        decreases n - i,
    {
        let c = name.get_char(i);
        let bad = c == '/' || c == '\\' || c == ':' || c == '*' || c == '?' || c == '"' || c == '<'
            || c == '>' || c == '|' || c == '\n' || c == '\r' || c == '\t';
        if !bad {
            push_char(&mut kept, c);
        }
        proof {
            reveal(Seq::filter);
        }
        assert(bad == forbidden_in_name(c));
        assert(name@.take(i + 1).drop_last() =~= name@.take(i as int));
        assert(name@.take(i + 1).last() == c);
        i = i + 1;
    }
    assert(name@.take(n as int) =~= name@);
    trim_text(kept.as_str())
}

/// A sanitized name holds no forbidden character and has no whitespace at
/// either end; sanitizing it again changes nothing.
pub proof fn law_sanitized_names_are_clean(name: Seq<char>)
    ensures
        forall|i: int| 0 <= i < sanitized(name).len() ==> !forbidden_in_name(#[trigger] sanitized(name)[i]),
        sanitized(name).len() > 0 ==> !white_space(sanitized(name)[0]) && !white_space(
            sanitized(name).last(),
        ),
        sanitized(sanitized(name)) == sanitized(name),
{
    let pred = |c: char| !forbidden_in_name(c);
    let f = name.filter(pred);
    let t = sanitized(name);
    let k = lemma_trim_shape(f);
    assert forall|i: int| 0 <= i < t.len() implies !forbidden_in_name(#[trigger] t[i]) by {
        assert(t[i] == f[k + i]);
        name.lemma_filter_pred(pred, k + i);
    }
    lemma_filter_keeps_all(t, pred);
    lemma_trim_of_trimmed(t);
}

proof fn lemma_filter_keeps_all(s: Seq<char>, pred: spec_fn(char) -> bool)
    requires
        forall|i: int| 0 <= i < s.len() ==> pred(#[trigger] s[i]),
    ensures
        s.filter(pred) == s,
    decreases s.len(),
{
    reveal(Seq::filter);
    if s.len() > 0 {
        lemma_filter_keeps_all(s.drop_last(), pred);
        assert(s.drop_last().push(s.last()) =~= s);
    }
}

/// `e` is a dot-free piece of `path` that directly follows a dot.
pub open spec fn dot_segment_in(path: Seq<char>, e: Seq<char>) -> bool {
    &&& !e.contains('.')
    &&& exists|i: int|
        0 <= i && i + e.len() + 1 <= path.len() && #[trigger] path.subrange(i, i + e.len() + 1)
            == seq!['.'] + e
}

/// The index of the last `ch` in `s`, or -1 when `s` holds none.
pub open spec fn last_index_of(s: Seq<char>, ch: char) -> int
    decreases s.len(),
{
    if s.len() == 0 {
        -1
    } else if s.last() == ch {
        s.len() - 1
    } else {
        last_index_of(s.drop_last(), ch)
    }
}

/// `p` without its trailing slashes.
pub open spec fn strip_trailing_slashes(p: Seq<char>) -> Seq<char>
    decreases p.len(),
{
    if p.len() > 0 && p.last() == '/' {
        strip_trailing_slashes(p.drop_last())
    } else {
        p
    }
}

/// The last `/`-separated component of `p`, trailing slashes ignored.
pub open spec fn last_component(p: Seq<char>) -> Seq<char> {
    let q = strip_trailing_slashes(p);
    q.skip(last_index_of(q, '/') + 1)
}

/// A path whose file name every platform reads alike: no `\` (a Windows
/// separator), no `:` as its second character (a Windows drive prefix), no
/// leading `//` (a Windows network prefix), and a last component that is a
/// name rather than empty, `.` or `..`.
pub open spec fn simple_path(p: Seq<char>) -> bool {
    let c = last_component(p);
    &&& !p.contains('\\')
    &&& !(p.len() >= 2 && p[1] == ':')
    &&& !(p.len() >= 2 && p[0] == '/' && p[1] == '/')
    &&& c.len() > 0
    &&& c != seq!['.']
    &&& c != seq!['.', '.']
}

/// The extension of a simple path: the text after the last dot of its file
/// name, when that dot is not the name's first character; otherwise none.
pub open spec fn plain_extension(p: Seq<char>) -> Option<Seq<char>> {
    let name = last_component(p);
    let k = last_index_of(name, '.');
    if k >= 1 {
        Some(name.skip(k + 1))
    } else {
        None
    }
}

/// `Path::extension` of `path`, as UTF-8 (`OsStr::to_str` cannot fail on
/// text that came from a `&str`). On a simple path the result is the text
/// after the last dot of the file name, or `None` when the name has no dot
/// past its first character; Unix and Windows agree there. On other paths
/// the split into components depends on the platform, and the contract
/// states only what every platform shares: an extension holds no dot and
/// follows a dot in the path.
#[verifier::external_body]
fn path_extension(path: &str) -> (r: Option<String>)
    ensures
        simple_path(path@) ==> r.deep_view() == plain_extension(path@),
        r is Some ==> dot_segment_in(path@, r->0@),
{
    std::path::Path::new(path).extension().and_then(|e| e.to_str()).map(|e| e.to_string())
}

/// Whether an extension names a PDF, ignoring ASCII case.
pub open spec fn pdf_extension(ext: Option<Seq<char>>) -> bool {
    ext is Some && eq_ignore_ascii_case(ext->0, "pdf"@)
}

/// Whether the extension `ext` names a PDF ("pdf" in any ASCII case).
pub fn is_pdf_extension(ext: &Option<String>) -> (r: bool)
    ensures
        r == pdf_extension(ext.deep_view()),
{
    match ext {
        Some(e) => text_eq_ignore_ascii_case(e.as_str(), "pdf"),
        None => false,
    }
}

/// Whether `path` has a `.pdf` extension (any ASCII case).
pub fn is_pdf(path: &str) -> (r: bool)
    ensures
        simple_path(path@) ==> r == pdf_extension(plain_extension(path@)),
        exists|e: Option<Seq<char>>|
            (e is Some ==> dot_segment_in(path@, e->0)) && r == #[trigger] pdf_extension(e),
        r ==> exists|e: Seq<char>| dot_segment_in(path@, e) && eq_ignore_ascii_case(e, "pdf"@),
{
    let ext = path_extension(path);
    let r = is_pdf_extension(&ext);
    assert((ext.deep_view() is Some ==> dot_segment_in(path@, ext.deep_view()->0)) && r
        == pdf_extension(ext.deep_view()));
    proof {
        if r {
            let e = ext->0@;
            assert(dot_segment_in(path@, e) && eq_ignore_ascii_case(e, "pdf"@));
        }
    }
    r
}

/// The content type sent for an input image with extension `ext`.
pub open spec fn content_type(ext: Option<Seq<char>>) -> Seq<char> {
    match ext {
        Some(e) => if e == "jpg"@ || e == "jpeg"@ {
            "image/jpeg"@
        } else if e == "png"@ {
            "image/png"@
        } else if e == "webp"@ {
            "image/webp"@
        } else if e == "avif"@ {
            "image/avif"@
        } else if e == "jxl"@ {
            "image/jxl"@
        } else if e == "gif"@ {
            "image/gif"@
        } else {
            "application/octet-stream"@
        },
        None => "application/octet-stream"@,
    }
}

/// The content type for an image whose extension is `ext`.
pub fn content_type_for(ext: &Option<String>) -> (r: &'static str)
    ensures
        r@ == content_type(ext.deep_view()),
{
    match ext {
        Some(e) => {
            let e = e.as_str();
            if text_eq(e, "jpg") || text_eq(e, "jpeg") {
                "image/jpeg"
            } else if text_eq(e, "png") {
                "image/png"
            } else if text_eq(e, "webp") {
                "image/webp"
            } else if text_eq(e, "avif") {
                "image/avif"
            } else if text_eq(e, "jxl") {
                "image/jxl"
            } else if text_eq(e, "gif") {
                "image/gif"
            } else {
                "application/octet-stream"
            }
        },
        None => "application/octet-stream",
    }
}

/// The content type sent for the image at `path`.
pub fn image_content_type(path: &str) -> (r: &'static str)
    ensures
        simple_path(path@) ==> r@ == content_type(plain_extension(path@)),
        exists|e: Option<Seq<char>>|
            (e is Some ==> dot_segment_in(path@, e->0)) && r@ == #[trigger] content_type(e),
{
    let ext = path_extension(path);
    let r = content_type_for(&ext);
    assert((ext.deep_view() is Some ==> dot_segment_in(path@, ext.deep_view()->0)) && r@
        == content_type(ext.deep_view()));
    r
}

/// The extension of an output image: the requested format, else the input's
/// extension, else "jpg".
pub open spec fn output_extension(params: ProcessParamsView, input_ext: Option<Seq<char>>) -> Seq<char> {
    if params.format is Some {
        params.format->0
    } else if input_ext is Some {
        input_ext->0
    } else {
        "jpg"@
    }
}

/// The extension of the output image for `params` and an input whose
/// extension is `input_ext`.
pub fn squish_output_extension(params: &ProcessParams, input_ext: &Option<String>) -> (r: String)
    ensures
        r@ == output_extension(params@, input_ext.deep_view()),
{
    match &params.format {
        Some(f) => f.clone(),
        None => match input_ext {
            Some(e) => e.clone(),
            None => owned("jpg"),
        },
    }
}

/// The extension of the output image for `params` and the input at `path`:
/// the requested format, else the input's extension, else "jpg".
pub fn squish_output_extension_for(params: &ProcessParams, path: &str) -> (r: String)
    ensures
        simple_path(path@) ==> r@ == output_extension(params@, plain_extension(path@)),
        exists|e: Option<Seq<char>>|
            (e is Some ==> dot_segment_in(path@, e->0)) && r@ == #[trigger] output_extension(
                params@,
                e,
            ),
{
    let ext = path_extension(path);
    let r = squish_output_extension(params, &ext);
    assert((ext.deep_view() is Some ==> dot_segment_in(path@, ext.deep_view()->0)) && r@
        == output_extension(params@, ext.deep_view()));
    r
}

/// The output stem (name without extension) of an image job. The base name
/// is the sanitized explicit name, else the input stem; multi-variant jobs
/// append their suffix; a single-variant job without an explicit name whose
/// output would overwrite the input gets `_mochified` instead.
pub open spec fn output_stem(stem: Seq<char>, params: ProcessParamsView, overwrites_input: bool) -> Seq<
    char,
> {
    let base = if params.output_name is Some {
        sanitized(params.output_name->0)
    } else {
        stem
    };
    if params.out_name_suffix is Some {
        base + params.out_name_suffix->0
    } else if params.output_name is None && overwrites_input {
        stem + "_mochified"@
    } else {
        base
    }
}

/// An explicit output name always names the output: the stem is the
/// sanitized name, followed by the variant suffix when there is one, and
/// the input stem plays no part. Without an explicit name the input stem is
/// used, followed by the suffix, or by `_mochified` when a single-variant
/// output would overwrite the input.
pub proof fn law_explicit_output_name_wins(
    stem: Seq<char>,
    params: ProcessParamsView,
    overwrites_input: bool,
)
    ensures
        params.output_name is Some && params.out_name_suffix is Some ==> output_stem(
            stem,
            params,
            overwrites_input,
        ) == sanitized(params.output_name->0) + params.out_name_suffix->0,
        params.output_name is Some && params.out_name_suffix is None ==> output_stem(
            stem,
            params,
            overwrites_input,
        ) == sanitized(params.output_name->0),
        params.output_name is None && params.out_name_suffix is Some ==> output_stem(
            stem,
            params,
            overwrites_input,
        ) == stem + params.out_name_suffix->0,
        params.output_name is None && params.out_name_suffix is None ==> output_stem(
            stem,
            params,
            overwrites_input,
        ) == (if overwrites_input {
            stem + "_mochified"@
        } else {
            stem
        }),
{
}

/// The output stem for an image job; `overwrites_input` tells whether
/// `{stem}.{ext}` in the output directory is the input file itself.
pub fn squish_output_stem(stem: &str, params: &ProcessParams, overwrites_input: bool) -> (r: String)
    ensures
        r@ == output_stem(stem@, params@, overwrites_input),
{
    // Resolve the base name: explicit output_name wins over input stem.
    let base_name = match &params.output_name {
        Some(name) => sanitize_output_name(name.as_str()),
        None => owned(stem),
    };
    // Multi-variant jobs carry an explicit suffix (e.g. "_500w_webp").
    // Single-variant jobs that would overwrite the input get _mochified instead.
    match &params.out_name_suffix {
        Some(suffix) => {
            let mut r = base_name;
            push_str(&mut r, suffix.as_str());
            r
        },
        None => {
            if params.output_name.is_none() && overwrites_input {
                let mut r = owned(stem);
                push_str(&mut r, "_mochified");
                r
            } else {
                base_name
            }
        },
    }
}

/// The file name tried at attempt `n` when saving `{base}.{ext}`: the plain
/// name first, then `{base}_{n}.{ext}` for n = 1, 2, ...
pub open spec fn numbered_name(base: Seq<char>, ext: Seq<char>, n: nat) -> Seq<char> {
    if n == 0 {
        base + "."@ + ext
    } else {
        base + "_"@ + decimal(n) + "."@ + ext
    }
}

/// The file name to try at attempt `n` (0 for the plain name).
pub fn numbered_file_name(base: &str, ext: &str, n: u32) -> (r: String)
    ensures
        r@ == numbered_name(base@, ext@, n as nat),
{
    let mut r = owned(base);
    if n > 0 {
        push_str(&mut r, "_");
        push_str(&mut r, u32_text(n).as_str());
    }
    push_str(&mut r, ".");
    push_str(&mut r, ext);
    r
}

/// The stem of a PDF job's zip: `{stem}_pages` for split, else
/// `{stem}_rasterized`.
pub open spec fn pdf_output_stem(stem: Seq<char>, op: Seq<char>) -> Seq<char> {
    if op == "split"@ {
        stem + "_pages"@
    } else {
        stem + "_rasterized"@
    }
}

/// The stem of the zip written for a PDF job on an input with stem `stem`.
pub fn pdf_zip_stem(stem: &str, op: &str) -> (r: String)
    ensures
        r@ == pdf_output_stem(stem@, op@),
{
    let mut r = owned(stem);
    if text_eq(op, "split") {
        push_str(&mut r, "_pages");
    } else {
        push_str(&mut r, "_rasterized");
    }
    r
}

proof fn lemma_decimal_len(n: nat)
    ensures
        decimal(n).len() >= 1,
        n >= 10 ==> decimal(n).len() >= 2,
    decreases n,
{
    if n >= 10 {
        lemma_decimal_len(n / 10);
    }
}

proof fn lemma_digit_injective(a: nat, b: nat)
    requires
        a < 10,
        b < 10,
        digit_char(a) == digit_char(b),
    ensures
        a == b,
{
}

/// Different numbers have different decimal renderings.
pub proof fn lemma_decimal_injective(m: nat, n: nat)
    requires
        decimal(m) == decimal(n),
    ensures
        m == n,
    decreases m,
{
    lemma_decimal_len(m);
    lemma_decimal_len(n);
    if m >= 10 && n >= 10 {
        let dm = decimal(m);
        let dn = decimal(n);
        assert(dm.last() == digit_char(m % 10));
        assert(dn.last() == digit_char(n % 10));
        lemma_digit_injective(m % 10, n % 10);
        assert(dm.drop_last() =~= decimal(m / 10));
        assert(dn.drop_last() =~= decimal(n / 10));
        lemma_decimal_injective(m / 10, n / 10);
    } else if m < 10 && n < 10 {
        assert(decimal(m)[0] == digit_char(m));
        assert(decimal(n)[0] == digit_char(n));
        lemma_digit_injective(m, n);
    }
}

/// Each attempt of the search for a free output name tries a different name,
/// so the search never retries a name it has found taken.
pub proof fn law_attempts_try_distinct_names(base: Seq<char>, ext: Seq<char>, m: nat, n: nat)
    requires
        m != n,
    ensures
        numbered_name(base, ext, m) != numbered_name(base, ext, n),
{
    reveal_strlit(".");
    reveal_strlit("_");
    lemma_decimal_len(m);
    lemma_decimal_len(n);
    if numbered_name(base, ext, m) == numbered_name(base, ext, n) {
        let a = numbered_name(base, ext, m);
        let b = numbered_name(base, ext, n);
        assert(a.len() == b.len());
        if m != 0 && n != 0 {
            assert(decimal(m).len() == decimal(n).len());
            let lo: int = base.len() as int + 1;
            assert(a.subrange(lo, lo + decimal(m).len() as int) =~= decimal(m));
            assert(b.subrange(lo, lo + decimal(n).len() as int) =~= decimal(n));
            lemma_decimal_injective(m, n);
        }
    }
}

/// Whether the list of names `taken` holds `name`.
fn holds_name(taken: &Vec<String>, name: &str) -> (r: bool)
    ensures
        r == taken.deep_view().contains(name@),
{
    let ghost names = taken.deep_view();
    let mut i: usize = 0;
    while i < taken.len()
        invariant
            names == taken.deep_view(),
            i <= taken.len(),
            forall|k: int| 0 <= k < i ==> names[k] != name@,
        decreases taken.len() - i,
    {
        if text_eq(taken[i].as_str(), name) {
            assert(names[i as int] == name@);
            return true;
        }
        i = i + 1;
    }
    proof {
        if names.contains(name@) {
            let k = choose|k: int| 0 <= k < names.len() && names[k] == name@;
            assert(names[k] != name@);
        }
    }
    false
}

/// Attempts `0..=n` all being taken needs at least `n + 1` taken names.
proof fn lemma_taken_attempts_bound(base: Seq<char>, ext: Seq<char>, taken: Seq<Seq<char>>, n: nat)
    requires
        forall|m: nat| m <= n ==> taken.contains(#[trigger] numbered_name(base, ext, m)),
    ensures
        n + 1 <= taken.len(),
{
    let f = |i: int| numbered_name(base, ext, i as nat);
    let x = vstd::set_lib::set_int_range(0, n + 1 as int);
    let y = x.map(f);
    vstd::set_lib::lemma_int_range(0, n + 1 as int);
    assert forall|i: int, j: int| x.contains(i) && x.contains(j) && #[trigger] f(i) == #[trigger] f(
        j,
    ) implies i == j by {
        if i != j {
            law_attempts_try_distinct_names(base, ext, i as nat, j as nat);
        }
    }
    vstd::set_lib::lemma_map_size(x, y, f);
    assert forall|s: Seq<char>| y.contains(s) implies taken.to_set().contains(s) by {
        let i = choose|i: int| x.contains(i) && f(i) == s;
        assert(taken.contains(numbered_name(base, ext, i as nat)));
    }
    taken.lemma_cardinality_of_set();
    vstd::set_lib::lemma_len_subset(y, taken.to_set());
}

/// The name a save of `{base}.{ext}` lands on when the names in `taken`
/// already exist: the first attempt whose name is not taken.
pub fn free_numbered_name(base: &str, ext: &str, taken: &Vec<String>) -> (r: String)
    requires
        taken.len() < u32::MAX,
    ensures
        !taken.deep_view().contains(r@),
        exists|n: nat|
            r@ == numbered_name(base@, ext@, n) && forall|m: nat|
                m < n ==> taken.deep_view().contains(#[trigger] numbered_name(base@, ext@, m)),
{
    let ghost names = taken.deep_view();
    let mut n: u32 = 0;
    loop
        invariant
            names == taken.deep_view(),
            taken.len() < u32::MAX,
            n <= taken.len(),
            forall|m: nat| m < n ==> names.contains(#[trigger] numbered_name(base@, ext@, m)),
        decreases taken.len() - n,
    {
        let candidate = numbered_file_name(base, ext, n);
        if !holds_name(taken, candidate.as_str()) {
            return candidate;
        }
        proof {
            lemma_taken_attempts_bound(base@, ext@, names, n as nat);
        }
        n = n + 1;
    }
}

} // verus!
