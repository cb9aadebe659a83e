//! Query strings for `/v1/squish` and `/v1/pdf`.

use vstd::prelude::*;
use crate::params::{PdfParams, PdfParamsView, ProcessParams, ProcessParamsView};
use crate::text::{bool_string, bool_text, decimal, owned, text_eq, u32_text};

verus! {

/// One query parameter: key and value.
pub type QueryPair = (Seq<char>, Seq<char>);

/// `q` with `(k, v)` appended when `cond` holds.
pub open spec fn push_when(q: Seq<QueryPair>, cond: bool, k: Seq<char>, v: Seq<char>) -> Seq<QueryPair> {
    if cond {
        q.push((k, v))
    } else {
        q
    }
}

/// The `/v1/squish` query for `p`, in order: type, width, height, crop,
/// rotate, clarity, removeBackground, background, stripExif. Zero widths
/// and heights are not sent; clarity and removeBackground are sent as "1"
/// only when set to true; stripExif only when set.
pub open spec fn squish_query(p: ProcessParamsView) -> Seq<QueryPair> {
    let q = Seq::<QueryPair>::empty();
    let q = push_when(q, p.format is Some, "type"@, p.format->0);
    let q = push_when(q, p.width is Some && p.width->0 > 0, "width"@, decimal(p.width->0 as nat));
    let q = push_when(q, p.height is Some && p.height->0 > 0, "height"@, decimal(p.height->0 as nat));
    let q = push_when(q, p.crop is Some, "crop"@, bool_text(p.crop->0));
    let q = push_when(q, p.rotation is Some, "rotate"@, decimal(p.rotation->0 as nat));
    let q = push_when(q, p.clarity == Some(true), "clarity"@, "1"@);
    let q = push_when(q, p.remove_background == Some(true), "removeBackground"@, "1"@);
    let q = push_when(q, p.background is Some, "background"@, p.background->0);
    let q = push_when(q, p.strip_exif is Some, "stripExif"@, bool_text(p.strip_exif->0));
    q
}

/// The `/v1/pdf` query for `p`: the operation, then — for "rasterize" only —
/// type, dpi and quality, each when set.
pub open spec fn pdf_query(p: PdfParamsView) -> Seq<QueryPair> {
    let raster = p.op == "rasterize"@;
    let q = seq![("op"@, p.op)];
    let q = push_when(q, raster && p.format is Some, "type"@, p.format->0);
    let q = push_when(q, raster && p.dpi is Some, "dpi"@, decimal(p.dpi->0 as nat));
    let q = push_when(q, raster && p.quality is Some, "quality"@, decimal(p.quality->0 as nat));
    q
}

/// No key occurs twice in `q`.
pub open spec fn keys_distinct(q: Seq<QueryPair>) -> bool {
    forall|i: int, j: int| 0 <= i < j < q.len() ==> #[trigger] q[i].0 != #[trigger] q[j].0
}

/// Every key of `q` is one of `ks`.
pub open spec fn keys_among(q: Seq<QueryPair>, ks: Seq<Seq<char>>) -> bool {
    forall|i: int| 0 <= i < q.len() ==> ks.contains(#[trigger] q[i].0)
}

proof fn lemma_push_new_key(q: Seq<QueryPair>, cond: bool, k: Seq<char>, v: Seq<char>, ks: Seq<Seq<char>>)
    requires
        keys_distinct(q),
        keys_among(q, ks),
        !ks.contains(k),
    ensures
        keys_distinct(push_when(q, cond, k, v)),
        keys_among(push_when(q, cond, k, v), ks.push(k)),
{
    let r = push_when(q, cond, k, v);
    assert forall|i: int| 0 <= i < r.len() implies ks.push(k).contains(#[trigger] r[i].0) by {
        if i < q.len() {
            let w = choose|w: int| 0 <= w < ks.len() && ks[w] == q[i].0;
            assert(ks.push(k)[w] == q[i].0);
        } else {
            assert(ks.push(k)[ks.len() as int] == k);
        }
    }
    assert forall|i: int, j: int| 0 <= i < j < r.len() implies #[trigger] r[i].0 != #[trigger] r[j].0 by {
        if j == q.len() {
            assert(ks.contains(q[i].0));
        }
    }
}

/// The `/v1/squish` query never names a parameter twice.
pub proof fn law_squish_query_keys_distinct(p: ProcessParamsView)
    ensures
        keys_distinct(squish_query(p)),
{
    reveal_strlit("type");
    reveal_strlit("width");
    reveal_strlit("height");
    reveal_strlit("crop");
    reveal_strlit("rotate");
    reveal_strlit("clarity");
    reveal_strlit("removeBackground");
    reveal_strlit("background");
    reveal_strlit("stripExif");
    let k1 = "type"@;
    let k2 = "width"@;
    let k3 = "height"@;
    let k4 = "crop"@;
    let k5 = "rotate"@;
    let k6 = "clarity"@;
    let k7 = "removeBackground"@;
    let k8 = "background"@;
    let k9 = "stripExif"@;
    assert(k1[0] != k4[0]);
    assert(k3[0] != k5[0]);
    let q = Seq::<QueryPair>::empty();
    let ks = Seq::<Seq<char>>::empty();
    lemma_push_new_key(q, p.format is Some, k1, p.format->0, ks);
    let q = push_when(q, p.format is Some, k1, p.format->0);
    let ks = ks.push(k1);
    let c = p.width is Some && p.width->0 > 0;
    let v = decimal(p.width->0 as nat);
    assert(!ks.contains(k2));
    lemma_push_new_key(q, c, k2, v, ks);
    let q = push_when(q, c, k2, v);
    let ks = ks.push(k2);
    let c = p.height is Some && p.height->0 > 0;
    let v = decimal(p.height->0 as nat);
    assert(!ks.contains(k3));
    lemma_push_new_key(q, c, k3, v, ks);
    let q = push_when(q, c, k3, v);
    let ks = ks.push(k3);
    let c = p.crop is Some;
    let v = bool_text(p.crop->0);
    assert(!ks.contains(k4));
    lemma_push_new_key(q, c, k4, v, ks);
    let q = push_when(q, c, k4, v);
    let ks = ks.push(k4);
    let c = p.rotation is Some;
    let v = decimal(p.rotation->0 as nat);
    assert(!ks.contains(k5));
    lemma_push_new_key(q, c, k5, v, ks);
    let q = push_when(q, c, k5, v);
    let ks = ks.push(k5);
    let c = p.clarity == Some(true);
    assert(ks =~= seq![k1, k2, k3, k4, k5]);
    assert(k6.len() == 7 && k1.len() == 4 && k2.len() == 5 && k3.len() == 6 && k4.len() == 4
        && k5.len() == 6);
    assert(!ks.contains(k6));
    lemma_push_new_key(q, c, k6, "1"@, ks);
    let q = push_when(q, c, k6, "1"@);
    let ks = ks.push(k6);
    let c = p.remove_background == Some(true);
    assert(ks =~= seq![k1, k2, k3, k4, k5, k6]);
    assert(k7.len() == 16);
    assert(!ks.contains(k7));
    lemma_push_new_key(q, c, k7, "1"@, ks);
    let q = push_when(q, c, k7, "1"@);
    let ks = ks.push(k7);
    let c = p.background is Some;
    assert(ks =~= seq![k1, k2, k3, k4, k5, k6, k7]);
    assert(k8.len() == 10);
    assert(!ks.contains(k8));
    lemma_push_new_key(q, c, k8, p.background->0, ks);
    let q = push_when(q, c, k8, p.background->0);
    let ks = ks.push(k8);
    let c = p.strip_exif is Some;
    let v = bool_text(p.strip_exif->0);
    assert(ks =~= seq![k1, k2, k3, k4, k5, k6, k7, k8]);
    assert(k8.len() == 10 && k9.len() == 9);
    assert(!ks.contains(k9));
    lemma_push_new_key(q, c, k9, v, ks);
}

/// `q` names the key `k`.
pub open spec fn names_key(q: Seq<QueryPair>, k: Seq<char>) -> bool {
    exists|i: int| 0 <= i < q.len() && #[trigger] q[i].0 == k
}

proof fn lemma_push_when_effect(
    q: Seq<QueryPair>,
    cond: bool,
    k: Seq<char>,
    v: Seq<char>,
    key: Seq<char>,
    pair: QueryPair,
)
    ensures
        names_key(push_when(q, cond, k, v), key) <==> names_key(q, key) || (cond && k == key),
        q.contains(pair) ==> push_when(q, cond, k, v).contains(pair),
        cond ==> push_when(q, cond, k, v).contains((k, v)),
{
    let r = push_when(q, cond, k, v);
    if names_key(q, key) {
        let i = choose|i: int| 0 <= i < q.len() && #[trigger] q[i].0 == key;
        assert(r[i].0 == key);
    }
    if cond && k == key {
        assert(r[q.len() as int].0 == key);
    }
    if names_key(r, key) && !(cond && k == key) {
        let i = choose|i: int| 0 <= i < r.len() && #[trigger] r[i].0 == key;
        if i < q.len() {
            assert(q[i].0 == key);
        }
    }
    if q.contains(pair) {
        let i = choose|i: int| 0 <= i < q.len() && q[i] == pair;
        assert(r[i] == pair);
    }
    if cond {
        assert(r[q.len() as int] == (k, v));
    }
}

/// The query made by the first `n` of the optional pushes `(ks[a], vals[a])`,
/// each made when `conds[a]` holds.
spec fn pushes(ks: Seq<Seq<char>>, conds: Seq<bool>, vals: Seq<Seq<char>>, n: nat) -> Seq<
    QueryPair,
>
    decreases n,
{
    if n == 0 {
        Seq::empty()
    } else {
        let m = (n - 1) as nat;
        push_when(pushes(ks, conds, vals, m), conds[m as int], ks[m as int], vals[m as int])
    }
}

proof fn lemma_pushes(ks: Seq<Seq<char>>, conds: Seq<bool>, vals: Seq<Seq<char>>, n: nat)
    requires
        n <= ks.len(),
        conds.len() == ks.len(),
        vals.len() == ks.len(),
        forall|a: int, b: int| 0 <= a < b < ks.len() ==> #[trigger] ks[a] != #[trigger] ks[b],
    ensures
        forall|a: int|
            0 <= a < ks.len() ==> (names_key(pushes(ks, conds, vals, n), #[trigger] ks[a]) <==> (a
                < n && conds[a])),
        forall|a: int|
            0 <= a < n && #[trigger] conds[a] ==> pushes(ks, conds, vals, n).contains(
                (ks[a], vals[a]),
            ),
    decreases n,
{
    if n > 0 {
        let m = (n - 1) as nat;
        lemma_pushes(ks, conds, vals, m);
        let q = pushes(ks, conds, vals, m);
        assert forall|a: int| 0 <= a < ks.len() implies (names_key(
            pushes(ks, conds, vals, n),
            #[trigger] ks[a],
        ) <==> (a < n && conds[a])) by {
            lemma_push_when_effect(q, conds[m as int], ks[m as int], vals[m as int], ks[a], (ks[a], vals[a]));
        }
        assert forall|a: int| 0 <= a < n && #[trigger] conds[a] implies pushes(
            ks,
            conds,
            vals,
            n,
        ).contains((ks[a], vals[a])) by {
            lemma_push_when_effect(q, conds[m as int], ks[m as int], vals[m as int], ks[a], (ks[a], vals[a]));
        }
    }
}

/// What the `/v1/squish` query sends, key by key: each parameter is named
/// exactly when it is set (width and height only when positive, clarity and
/// removeBackground only when set to true), and then with the value it is
/// set to, whatever the other parameters are.
pub proof fn law_squish_query_sends_what_is_set(p: ProcessParamsView)
    ensures
        ({
            let q = squish_query(p);
            &&& names_key(q, "type"@) <==> p.format is Some
            &&& p.format is Some ==> q.contains(("type"@, p.format->0))
            &&& names_key(q, "width"@) <==> (p.width is Some && p.width->0 > 0)
            &&& p.width is Some && p.width->0 > 0 ==> q.contains(
                ("width"@, decimal(p.width->0 as nat)),
            )
            &&& names_key(q, "height"@) <==> (p.height is Some && p.height->0 > 0)
            &&& p.height is Some && p.height->0 > 0 ==> q.contains(
                ("height"@, decimal(p.height->0 as nat)),
            )
            &&& names_key(q, "crop"@) <==> p.crop is Some
            &&& p.crop is Some ==> q.contains(("crop"@, bool_text(p.crop->0)))
            &&& names_key(q, "rotate"@) <==> p.rotation is Some
            &&& p.rotation is Some ==> q.contains(("rotate"@, decimal(p.rotation->0 as nat)))
            &&& names_key(q, "clarity"@) <==> p.clarity == Some(true)
            &&& p.clarity == Some(true) ==> q.contains(("clarity"@, "1"@))
            &&& names_key(q, "removeBackground"@) <==> p.remove_background == Some(true)
            &&& p.remove_background == Some(true) ==> q.contains(("removeBackground"@, "1"@))
            &&& names_key(q, "background"@) <==> p.background is Some
            &&& p.background is Some ==> q.contains(("background"@, p.background->0))
            &&& names_key(q, "stripExif"@) <==> p.strip_exif is Some
            &&& p.strip_exif is Some ==> q.contains(("stripExif"@, bool_text(p.strip_exif->0)))
        }),
{
    reveal_strlit("type");
    reveal_strlit("width");
    reveal_strlit("height");
    reveal_strlit("crop");
    reveal_strlit("rotate");
    reveal_strlit("clarity");
    reveal_strlit("removeBackground");
    reveal_strlit("background");
    reveal_strlit("stripExif");
    reveal_strlit("1");
    let ks = seq![
        "type"@,
        "width"@,
        "height"@,
        "crop"@,
        "rotate"@,
        "clarity"@,
        "removeBackground"@,
        "background"@,
        "stripExif"@,
    ];
    assert("type"@[0] != "crop"@[0]);
    assert("height"@[0] != "rotate"@[0]);
    assert(forall|a: int, b: int| 0 <= a < b < 9 ==> #[trigger] ks[a] != #[trigger] ks[b]) by {
        assert(ks[0].len() == 4 && ks[1].len() == 5 && ks[2].len() == 6 && ks[3].len() == 4);
        assert(ks[4].len() == 6 && ks[5].len() == 7 && ks[6].len() == 16 && ks[7].len() == 10);
        assert(ks[8].len() == 9);
    }
    let conds = seq![
        p.format is Some,
        p.width is Some && p.width->0 > 0,
        p.height is Some && p.height->0 > 0,
        p.crop is Some,
        p.rotation is Some,
        p.clarity == Some(true),
        p.remove_background == Some(true),
        p.background is Some,
        p.strip_exif is Some,
    ];
    let vals = seq![
        p.format->0,
        decimal(p.width->0 as nat),
        decimal(p.height->0 as nat),
        bool_text(p.crop->0),
        decimal(p.rotation->0 as nat),
        "1"@,
        "1"@,
        p.background->0,
        bool_text(p.strip_exif->0),
    ];
    lemma_pushes(ks, conds, vals, 9);
    let q = pushes(ks, conds, vals, 9);
    reveal_with_fuel(pushes, 10);
    assert(q == squish_query(p));
    assert(ks[0] == "type"@ && ks[1] == "width"@ && ks[2] == "height"@ && ks[3] == "crop"@);
    assert(ks[4] == "rotate"@ && ks[5] == "clarity"@ && ks[6] == "removeBackground"@);
    assert(ks[7] == "background"@ && ks[8] == "stripExif"@);
}

/// A split job sends only its operation; a rasterize job sends the
/// operation first and no parameter twice.
pub proof fn law_pdf_query_shape(p: PdfParamsView)
    ensures
        pdf_query(p)[0] == ("op"@, p.op),
        p.op != "rasterize"@ ==> pdf_query(p) == seq![("op"@, p.op)],
        keys_distinct(pdf_query(p)),
{
    reveal_strlit("op");
    reveal_strlit("type");
    reveal_strlit("dpi");
    reveal_strlit("quality");
    let raster = p.op == "rasterize"@;
    let k0 = "op"@;
    let k1 = "type"@;
    let k2 = "dpi"@;
    let k3 = "quality"@;
    assert(k0[0] != k1[0] && k0[0] != k2[0] && k1.len() != k2.len());
    let q = seq![(k0, p.op)];
    let ks = seq![k0];
    assert(ks[0] == q[0].0);
    assert(keys_among(q, ks));
    assert(!ks.contains(k1));
    lemma_push_new_key(q, raster && p.format is Some, k1, p.format->0, ks);
    let q = push_when(q, raster && p.format is Some, k1, p.format->0);
    let ks = ks.push(k1);
    let v = decimal(p.dpi->0 as nat);
    assert(!ks.contains(k2));
    lemma_push_new_key(q, raster && p.dpi is Some, k2, v, ks);
    let q = push_when(q, raster && p.dpi is Some, k2, v);
    let ks = ks.push(k2);
    let v = decimal(p.quality->0 as nat);
    assert(!ks.contains(k3));
    lemma_push_new_key(q, raster && p.quality is Some, k3, v, ks);
}

/// What the `/v1/pdf` query sends: the operation always; type, dpi and
/// quality each exactly when the job is a rasterize job and sets it, and
/// then with the value it is set to.
pub proof fn law_pdf_query_sends_what_is_set(p: PdfParamsView)
    ensures
        ({
            let q = pdf_query(p);
            let raster = p.op == "rasterize"@;
            &&& q.contains(("op"@, p.op))
            &&& names_key(q, "type"@) <==> (raster && p.format is Some)
            &&& raster && p.format is Some ==> q.contains(("type"@, p.format->0))
            &&& names_key(q, "dpi"@) <==> (raster && p.dpi is Some)
            &&& raster && p.dpi is Some ==> q.contains(("dpi"@, decimal(p.dpi->0 as nat)))
            &&& names_key(q, "quality"@) <==> (raster && p.quality is Some)
            &&& raster && p.quality is Some ==> q.contains(
                ("quality"@, decimal(p.quality->0 as nat)),
            )
        }),
{
    reveal_strlit("op");
    reveal_strlit("type");
    reveal_strlit("dpi");
    reveal_strlit("quality");
    let raster = p.op == "rasterize"@;
    let ks = seq!["type"@, "dpi"@, "quality"@];
    let conds = seq![raster && p.format is Some, raster && p.dpi is Some, raster && p.quality is Some];
    let vals = seq![p.format->0, decimal(p.dpi->0 as nat), decimal(p.quality->0 as nat)];
    assert(ks[0].len() == 4 && ks[1].len() == 3 && ks[2].len() == 7);
    lemma_pushes(ks, conds, vals, 3);
    let tail = pushes(ks, conds, vals, 3);
    reveal_with_fuel(pushes, 4);
    let head = seq![("op"@, p.op)];
    assert(pdf_query(p) =~= head + tail) by {
        lemma_push_onto_prefix(head, ks, conds, vals, 3);
    }
    let q = pdf_query(p);
    assert(q[0] == ("op"@, p.op));
    assert forall|a: int| 0 <= a < 3 implies (names_key(q, #[trigger] ks[a]) <==> conds[a]) by {
        if names_key(tail, ks[a]) {
            let i = choose|i: int| 0 <= i < tail.len() && #[trigger] tail[i].0 == ks[a];
            assert(q[i + 1] == tail[i]);
        }
        if names_key(q, ks[a]) {
            let i = choose|i: int| 0 <= i < q.len() && #[trigger] q[i].0 == ks[a];
            assert(i != 0);
            assert(tail[i - 1] == q[i]);
        }
    }
    assert forall|a: int| 0 <= a < 3 && #[trigger] conds[a] implies q.contains((ks[a], vals[a])) by {
        let i = choose|i: int| 0 <= i < tail.len() && tail[i] == (ks[a], vals[a]);
        assert(q[i + 1] == tail[i]);
    }
}

proof fn lemma_push_onto_prefix(
    head: Seq<QueryPair>,
    ks: Seq<Seq<char>>,
    conds: Seq<bool>,
    vals: Seq<Seq<char>>,
    n: nat,
)
    requires
        n <= ks.len(),
        conds.len() == ks.len(),
        vals.len() == ks.len(),
    ensures
        head + pushes(ks, conds, vals, n) == pushes_onto(head, ks, conds, vals, n),
    decreases n,
{
    if n > 0 {
        lemma_push_onto_prefix(head, ks, conds, vals, (n - 1) as nat);
        let m = (n - 1) as nat;
        let t = pushes(ks, conds, vals, m);
        if conds[m as int] {
            assert(head + t.push((ks[m as int], vals[m as int])) =~= (head + t).push(
                (ks[m as int], vals[m as int]),
            ));
        }
    }
}

/// `head` followed by the first `n` optional pushes.
spec fn pushes_onto(
    head: Seq<QueryPair>,
    ks: Seq<Seq<char>>,
    conds: Seq<bool>,
    vals: Seq<Seq<char>>,
    n: nat,
) -> Seq<QueryPair>
    decreases n,
{
    if n == 0 {
        head
    } else {
        let m = (n - 1) as nat;
        push_when(pushes_onto(head, ks, conds, vals, m), conds[m as int], ks[m as int], vals[m as int])
    }
}

fn push_pair(q: &mut Vec<(&'static str, String)>, k: &'static str, v: String)
    ensures
        final(q).deep_view() == old(q).deep_view().push((k@, v@)),
{
    q.push((k, v));
    assert(q.deep_view() =~= old(q).deep_view().push((k@, v@)));
}

/// Build the `/v1/squish` query from resolved params. Zero-valued width/height are dropped —
/// the NLP can echo 0 to mean "unspecified", and forwarding it would resize to nothing.
pub fn build_squish_query(params: &ProcessParams) -> (q: Vec<(&'static str, String)>)
    ensures
        q.deep_view() == squish_query(params@),
{
    let mut q: Vec<(&'static str, String)> = Vec::new();
    assert(q.deep_view() =~= Seq::<QueryPair>::empty());
    if let Some(fmt) = &params.format {
        push_pair(&mut q, "type", fmt.clone());
    }
    if let Some(w) = params.width {
        if w > 0 {
            push_pair(&mut q, "width", u32_text(w));
        }
    }
    if let Some(h) = params.height {
        if h > 0 {
            push_pair(&mut q, "height", u32_text(h));
        }
    }
    if let Some(c) = params.crop {
        push_pair(&mut q, "crop", bool_string(c));
    }
    if let Some(r) = params.rotation {
        push_pair(&mut q, "rotate", u32_text(r));
    }
    if params.clarity == Some(true) {
        push_pair(&mut q, "clarity", owned("1"));
    }
    if params.remove_background == Some(true) {
        push_pair(&mut q, "removeBackground", owned("1"));
    }
    if let Some(bg) = &params.background {
        push_pair(&mut q, "background", bg.clone());
    }
    // The API strips EXIF by default; only send the param when explicitly set.
    if let Some(strip) = params.strip_exif {
        push_pair(&mut q, "stripExif", bool_string(strip));
    }
    q
}

/// Build the `/v1/pdf` query. `type`/`dpi`/`quality` only apply to rasterize.
pub fn build_pdf_query(params: &PdfParams) -> (q: Vec<(&'static str, String)>)
    ensures
        q.deep_view() == pdf_query(params@),
{
    let mut q: Vec<(&'static str, String)> = Vec::new();
    push_pair(&mut q, "op", params.op.clone());
    assert(q.deep_view() =~= seq![("op"@, params.op@)]);
    let raster = text_eq(params.op.as_str(), "rasterize");
    if raster {
        if let Some(t) = &params.format {
            push_pair(&mut q, "type", t.clone());
        }
        if let Some(dpi) = params.dpi {
            push_pair(&mut q, "dpi", u32_text(dpi));
        }
        if let Some(quality) = params.quality {
            push_pair(&mut q, "quality", u32_text(quality));
        }
    }
    q
}

} // verus!
