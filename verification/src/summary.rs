//! Human-readable summaries: resolved parameters, prompt interpretation,
//! processing metadata and account usage.

use vstd::prelude::*;
use crate::api::{SquishMeta, UsageInfo};
use crate::params::{ProcessParams, ProcessParamsView};
use crate::prompt_map::PromptMap;
use crate::text::{
    bool_string, bool_text, decimal, i32_text, join, join_text, owned, push_str, push_text,
    signed_decimal, u32_text,
};
use crate::variants::params_views;

verus! {

/// `s` with `x` appended when `cond` holds.
pub open spec fn add_when(s: Seq<Seq<char>>, cond: bool, x: Seq<char>) -> Seq<Seq<char>> {
    if cond {
        s.push(x)
    } else {
        s
    }
}

/// The size part of a summary: `{w} × {h}`, `{w}w` or `{h}h`.
pub open spec fn size_part(w: Option<u32>, h: Option<u32>) -> Seq<char> {
    if w is Some && h is Some {
        decimal(w->0 as nat) + " × "@ + decimal(h->0 as nat)
    } else if w is Some {
        decimal(w->0 as nat) + "w"@
    } else {
        decimal(h->0 as nat) + "h"@
    }
}

/// The parts of a parameter summary, in order: format, size, crop,
/// non-zero rotation, clarity, background removal, background colour, kept
/// metadata.
pub open spec fn summary_parts(p: ProcessParamsView) -> Seq<Seq<char>> {
    let s = Seq::<Seq<char>>::empty();
    let s = add_when(s, p.format is Some, p.format->0);
    let s = add_when(s, p.width is Some || p.height is Some, size_part(p.width, p.height));
    let s = add_when(s, p.crop == Some(true), "crop"@);
    let s = add_when(
        s,
        p.rotation is Some && p.rotation->0 != 0,
        "rotate "@ + decimal(p.rotation->0 as nat) + "°"@,
    );
    let s = add_when(s, p.clarity == Some(true), "clarity"@);
    let s = add_when(s, p.remove_background == Some(true), "remove bg"@);
    let s = add_when(s, p.background is Some, "bg "@ + p.background->0);
    let s = add_when(s, p.strip_exif == Some(false), "keep metadata"@);
    s
}

/// The one-line summary of parameters: the parts joined by " · ", or
/// "original settings" when nothing is set.
pub open spec fn params_summary(p: ProcessParamsView) -> Seq<char> {
    if summary_parts(p).len() == 0 {
        "original settings"@
    } else {
        join(summary_parts(p), " · "@)
    }
}

/// Summarises parameters in one line, e.g. "webp · 1200 × 800 · remove bg".
pub fn format_params_summary(p: &ProcessParams) -> (s: String)
    ensures
        s@ == params_summary(p@),
{
    let mut parts: Vec<String> = Vec::new();
    assert(parts.deep_view() =~= Seq::<Seq<char>>::empty());
    if let Some(fmt) = &p.format {
        push_text(&mut parts, fmt.clone());
    }
    match (p.width, p.height) {
        (Some(w), Some(h)) => {
            let mut t = u32_text(w);
            push_str(&mut t, " × ");
            push_str(&mut t, u32_text(h).as_str());
            push_text(&mut parts, t);
        },
        (Some(w), None) => {
            let mut t = u32_text(w);
            push_str(&mut t, "w");
            push_text(&mut parts, t);
        },
        (None, Some(h)) => {
            let mut t = u32_text(h);
            push_str(&mut t, "h");
            push_text(&mut parts, t);
        },
        _ => {},
    }
    if p.crop == Some(true) {
        push_text(&mut parts, owned("crop"));
    }
    if let Some(r) = p.rotation {
        if r != 0 {
            let mut t = owned("rotate ");
            push_str(&mut t, u32_text(r).as_str());
            push_str(&mut t, "°");
            push_text(&mut parts, t);
        }
    }
    if p.clarity == Some(true) {
        push_text(&mut parts, owned("clarity"));
    }
    if p.remove_background == Some(true) {
        push_text(&mut parts, owned("remove bg"));
    }
    if let Some(bg) = &p.background {
        let mut t = owned("bg ");
        push_str(&mut t, bg.as_str());
        push_text(&mut parts, t);
    }
    if p.strip_exif == Some(false) {
        push_text(&mut parts, owned("keep metadata"));
    }
    if parts.len() == 0 {
        owned("original settings")
    } else {
        join_text(&parts, " · ")
    }
}

/// The summary lines for one file: nothing when the prompt gave nothing for
/// it; `  {name} → {summary}` for a single variant; otherwise `  {name} →`
/// followed by one indented line per variant.
pub open spec fn file_summary_lines(
    name: Seq<char>,
    map: Map<Seq<char>, Seq<ProcessParamsView>>,
) -> Seq<Seq<char>> {
    if !map.dom().contains(name) {
        Seq::empty()
    } else if map[name].len() == 1 {
        seq!["  "@ + name + " → "@ + params_summary(map[name][0])]
    } else {
        seq!["  "@ + name + " →"@] + map[name].map_values(
            |v: ProcessParamsView| "    "@ + params_summary(v),
        )
    }
}

/// The summary lines for the files named, in order.
pub open spec fn files_summary_lines(
    names: Seq<Seq<char>>,
    map: Map<Seq<char>, Seq<ProcessParamsView>>,
) -> Seq<Seq<char>>
    decreases names.len(),
{
    if names.len() == 0 {
        Seq::empty()
    } else {
        files_summary_lines(names.drop_last(), map) + file_summary_lines(names.last(), map)
    }
}

/// How the prompt was interpreted, one line each: the heading
/// "Interpreted:" then the lines for each input file.
pub fn prompt_summary_lines(file_names: &Vec<String>, map: &PromptMap) -> (lines: Vec<String>)
    ensures
        lines.deep_view() == seq!["Interpreted:"@] + files_summary_lines(file_names.deep_view(), map@),
{
    let ghost names = file_names.deep_view();
    let mut lines: Vec<String> = Vec::new();
    push_text(&mut lines, owned("Interpreted:"));
    assert(lines.deep_view() =~= seq!["Interpreted:"@]);
    let mut i: usize = 0;
    while i < file_names.len()
        invariant
            names == file_names.deep_view(),
            i <= file_names.len(),
            lines.deep_view() == seq!["Interpreted:"@] + files_summary_lines(
                names.take(i as int),
                map@,
            ),
        decreases file_names.len() - i,
    {
        let ghost before = lines.deep_view();
        let name = &file_names[i];
        match map.get(name.as_str()) {
            Some(variants) => {
                let ghost vv = params_views(variants@);
                if variants.len() == 1 {
                    let mut t = owned("  ");
                    push_str(&mut t, name.as_str());
                    push_str(&mut t, " → ");
                    push_str(&mut t, format_params_summary(&variants[0]).as_str());
                    push_text(&mut lines, t);
                } else {
                    let mut t = owned("  ");
                    push_str(&mut t, name.as_str());
                    push_str(&mut t, " →");
                    push_text(&mut lines, t);
                    let ghost head = lines.deep_view();
                    let mut k: usize = 0;
                    while k < variants.len()
                        invariant
                            vv == params_views(variants@),
                            k <= variants.len(),
                            lines.deep_view() == head + vv.take(k as int).map_values(
                                |v: ProcessParamsView| "    "@ + params_summary(v),
                            ),
                        decreases variants.len() - k,
                    {
                        let mut t = owned("    ");
                        push_str(&mut t, format_params_summary(&variants[k]).as_str());
                        push_text(&mut lines, t);
                        assert(vv.take(k + 1).map_values(
                            |v: ProcessParamsView| "    "@ + params_summary(v),
                        ) =~= vv.take(k as int).map_values(
                            |v: ProcessParamsView| "    "@ + params_summary(v),
                        ).push("    "@ + params_summary(vv[k as int])));
                        k = k + 1;
                    }
                    assert(vv.take(variants.len() as int) =~= vv);
                }
            },
            None => {},
        }
        assert(names.take(i + 1).drop_last() =~= names.take(i as int));
        assert(names.take(i + 1).last() == name@);
        assert(lines.deep_view() =~= seq!["Interpreted:"@] + files_summary_lines(
            names.take(i + 1),
            map@,
        ));
        i = i + 1;
    }
    assert(names.take(file_names.len() as int) =~= names);
    lines
}

/// The parts describing a processed image: latency, optimisation (with the
/// reason when not optimised), quality, saliency, background removal.
pub open spec fn meta_parts(m: SquishMeta) -> Seq<Seq<char>> {
    let s = Seq::<Seq<char>>::empty();
    let s = add_when(s, m.latency_ms is Some, m.latency_ms->0@ + "ms"@);
    let s = if m.optimized {
        s.push("optimized"@)
    } else {
        add_when(s.push("not optimized"@), m.reason is Some, "("@ + m.reason->0@ + ")"@)
    };
    let s = add_when(s, m.quality is Some, "quality "@ + m.quality->0@);
    let s = add_when(s, m.saliency is Some, "saliency "@ + m.saliency->0@);
    let s = add_when(s, m.bg_removed, "bg removed"@);
    s
}

/// The line describing a processed image, e.g. "  ← 120ms · optimized".
pub fn squish_meta_summary(meta: &SquishMeta) -> (s: String)
    ensures
        s@ == "  ← "@ + join(meta_parts(*meta), " · "@),
{
    let mut parts: Vec<String> = Vec::new();
    assert(parts.deep_view() =~= Seq::<Seq<char>>::empty());
    if let Some(ms) = &meta.latency_ms {
        let mut t = ms.clone();
        push_str(&mut t, "ms");
        push_text(&mut parts, t);
    }
    if meta.optimized {
        push_text(&mut parts, owned("optimized"));
    } else {
        push_text(&mut parts, owned("not optimized"));
        if let Some(r) = &meta.reason {
            let mut t = owned("(");
            push_str(&mut t, r.as_str());
            push_str(&mut t, ")");
            push_text(&mut parts, t);
        }
    }
    if let Some(q) = &meta.quality {
        let mut t = owned("quality ");
        push_str(&mut t, q.as_str());
        push_text(&mut parts, t);
    }
    if let Some(sal) = &meta.saliency {
        let mut t = owned("saliency ");
        push_str(&mut t, sal.as_str());
        push_text(&mut parts, t);
    }
    if meta.bg_removed {
        push_text(&mut parts, owned("bg removed"));
    }
    let mut s = owned("  ← ");
    push_str(&mut s, join_text(&parts, " · ").as_str());
    s
}

/// The usage report: the plan when known, the remaining requests (out of
/// the quota when there is one), and availability.
pub open spec fn usage_lines(u: UsageInfo) -> Seq<Seq<char>> {
    let s = add_when(Seq::<Seq<char>>::empty(), u.plan@.len() > 0, "Plan: "@ + u.plan@);
    let s = if u.quota > 0 {
        s.push("Remaining: "@ + signed_decimal(u.remaining as int) + " / "@ + signed_decimal(
            u.quota as int,
        ))
    } else {
        s.push("Remaining: "@ + signed_decimal(u.remaining as int))
    };
    s.push("Available: "@ + bool_text(u.available))
}

/// The lines printed for `mochify usage`.
pub fn usage_report(usage: &UsageInfo) -> (lines: Vec<String>)
    ensures
        lines.deep_view() == usage_lines(*usage),
{
    let mut lines: Vec<String> = Vec::new();
    assert(lines.deep_view() =~= Seq::<Seq<char>>::empty());
    if !usage.plan.as_str().is_empty() {
        let mut t = owned("Plan: ");
        push_str(&mut t, usage.plan.as_str());
        push_text(&mut lines, t);
    }
    let mut t = owned("Remaining: ");
    push_str(&mut t, i32_text(usage.remaining).as_str());
    if usage.quota > 0 {
        push_str(&mut t, " / ");
        push_str(&mut t, i32_text(usage.quota).as_str());
    }
    push_text(&mut lines, t);
    let mut t = owned("Available: ");
    push_str(&mut t, bool_string(usage.available).as_str());
    push_text(&mut lines, t);
    lines
}

/// A parameter summary is "original settings" exactly when nothing that it
/// reports is set.
pub proof fn law_summary_of_unset_params(p: ProcessParamsView)
    ensures
        summary_parts(p).len() == 0 <==> (p.format is None && p.width is None && p.height is None
            && p.crop != Some(true) && (p.rotation is None || p.rotation == Some(0u32))
            && p.clarity != Some(true) && p.remove_background != Some(true)
            && p.background is None && p.strip_exif != Some(false)),
{
}

} // verus!
