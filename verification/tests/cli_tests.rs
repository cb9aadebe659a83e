use mochify::params::{merge_params, PdfParams, ProcessParams};
use mochify::pdf::resolve_pdf_params;
use mochify::summary::format_params_summary;

#[test]
fn explicit_override_wins_unset_falls_back_to_prompt() {
    let base = ProcessParams {
        format: Some("jpg".into()),
        width: Some(800),
        ..Default::default()
    };
    let overrides = ProcessParams {
        format: Some("avif".into()),
        ..Default::default()
    };
    let merged = merge_params(base, overrides);
    assert_eq!(merged.format.as_deref(), Some("avif")); // explicit flag wins
    assert_eq!(merged.width, Some(800)); // unset → prompt value
}

#[test]
fn out_name_suffix_always_comes_from_prompt() {
    let base = ProcessParams {
        out_name_suffix: Some("_500w".into()),
        ..Default::default()
    };
    let overrides = ProcessParams {
        out_name_suffix: Some("_ignored".into()),
        ..Default::default()
    };
    let merged = merge_params(base, overrides);
    assert_eq!(merged.out_name_suffix.as_deref(), Some("_500w"));
}

#[test]
fn summary_lists_set_params() {
    let p = ProcessParams {
        format: Some("webp".into()),
        width: Some(1200),
        height: Some(800),
        remove_background: Some(true),
        ..Default::default()
    };
    let s = format_params_summary(&p);
    assert!(s.contains("webp"));
    assert!(s.contains("1200 × 800"));
    assert!(s.contains("remove bg"));
}

#[test]
fn summary_of_empty_params_is_original_settings() {
    assert_eq!(
        format_params_summary(&ProcessParams::default()),
        "original settings"
    );
}

#[test]
fn pdf_rasterize_applies_png_150_defaults() {
    let p = resolve_pdf_params(None, Some("rasterize".into()), None, None, None).unwrap();
    assert_eq!(p.op, "rasterize");
    assert_eq!(p.format.as_deref(), Some("png"));
    assert_eq!(p.dpi, Some(150));
}

#[test]
fn pdf_split_drops_render_params() {
    let p = resolve_pdf_params(
        None,
        Some("split".into()),
        Some("png".into()),
        Some(300),
        None,
    )
    .unwrap();
    assert_eq!(p.op, "split");
    assert_eq!(p.format, None);
    assert_eq!(p.dpi, None);
}

#[test]
fn pdf_explicit_flags_override_prompt() {
    let prompt = PdfParams {
        op: "rasterize".into(),
        format: Some("png".into()),
        dpi: Some(150),
        quality: None,
    };
    let p = resolve_pdf_params(Some(prompt), None, Some("webp".into()), Some(300), Some(80))
        .unwrap();
    assert_eq!(p.format.as_deref(), Some("webp")); // explicit flag wins
    assert_eq!(p.dpi, Some(300));
    assert_eq!(p.quality, Some(80));
}

#[test]
fn pdf_prompt_seeds_op_when_no_flag() {
    let prompt = PdfParams {
        op: "split".into(),
        format: None,
        dpi: None,
        quality: None,
    };
    let p = resolve_pdf_params(Some(prompt), None, None, None, None).unwrap();
    assert_eq!(p.op, "split");
}

#[test]
fn pdf_requires_op_or_prompt() {
    assert!(resolve_pdf_params(None, None, None, None, None).is_err());
}

#[test]
fn pdf_rejects_unknown_op() {
    assert!(resolve_pdf_params(None, Some("flatten".into()), None, None, None).is_err());
}
