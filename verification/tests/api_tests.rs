use mochify::params::{PdfParams, ProcessParams};
use mochify::query::{build_pdf_query, build_squish_query};
use mochify::naming::sanitize_output_name;
use mochify::variants::{expand_file_variants, PromptFileResult, SizeEntry};

fn sample_result() -> PromptFileResult {
    PromptFileResult {
        filename: "photo.jpg".into(),
        format: Some("webp".into()),
        width: Some(800),
        height: None,
        crop: None,
        rotate: 0,
        output_name: None,
        clarity: None,
        remove_background: None,
        background: None,
        types: None,
        sizes: None,
    }
}

#[test]
fn single_variant_has_no_suffix() {
    let v = expand_file_variants(&sample_result());
    assert_eq!(v.len(), 1);
    assert_eq!(v[0].format.as_deref(), Some("webp"));
    assert_eq!(v[0].width, Some(800));
    assert_eq!(v[0].out_name_suffix, None);
}

#[test]
fn multi_format_suffixes_each_variant() {
    let mut f = sample_result();
    f.types = Some(vec!["webp".into(), "avif".into()]);
    let v = expand_file_variants(&f);
    assert_eq!(v.len(), 2);
    assert_eq!(v[0].out_name_suffix.as_deref(), Some("_webp"));
    assert_eq!(v[1].out_name_suffix.as_deref(), Some("_avif"));
}

#[test]
fn multi_size_uses_dimension_suffix() {
    let mut f = sample_result();
    f.sizes = Some(vec![
        SizeEntry {
            width: 500,
            height: 0,
        },
        SizeEntry {
            width: 1000,
            height: 1000,
        },
    ]);
    let v = expand_file_variants(&f);
    assert_eq!(v.len(), 2);
    assert_eq!(v[0].out_name_suffix.as_deref(), Some("_500w"));
    assert_eq!(v[1].out_name_suffix.as_deref(), Some("_1000x1000"));
}

#[test]
fn multi_size_and_format_combine_suffixes() {
    let mut f = sample_result();
    f.types = Some(vec!["webp".into(), "avif".into()]);
    f.sizes = Some(vec![
        SizeEntry {
            width: 500,
            height: 0,
        },
        SizeEntry {
            width: 1000,
            height: 0,
        },
    ]);
    let v = expand_file_variants(&f);
    assert_eq!(v.len(), 4); // 2 sizes × 2 formats
    assert_eq!(v[0].out_name_suffix.as_deref(), Some("_500w_webp"));
    assert_eq!(v[1].out_name_suffix.as_deref(), Some("_500w_avif"));
    assert_eq!(v[2].out_name_suffix.as_deref(), Some("_1000w_webp"));
    assert_eq!(v[3].out_name_suffix.as_deref(), Some("_1000w_avif"));
}

#[test]
fn rotate_zero_is_omitted_nonzero_kept() {
    assert_eq!(expand_file_variants(&sample_result())[0].rotation, None);
    let mut f = sample_result();
    f.rotate = 90;
    assert_eq!(expand_file_variants(&f)[0].rotation, Some(90));
}

#[test]
fn propagates_remove_background_and_background() {
    let mut f = sample_result();
    f.remove_background = Some(true);
    f.background = Some("white".into());
    let v = expand_file_variants(&f);
    assert_eq!(v[0].remove_background, Some(true));
    assert_eq!(v[0].background.as_deref(), Some("white"));
}

#[test]
fn default_format_is_jpg_when_missing() {
    let mut f = sample_result();
    f.format = None;
    assert_eq!(expand_file_variants(&f)[0].format.as_deref(), Some("jpg"));
}

#[test]
fn build_query_drops_zero_dimensions() {
    let params = ProcessParams {
        format: Some("webp".into()),
        width: Some(0),
        height: Some(0),
        ..Default::default()
    };
    let q = build_squish_query(&params);
    assert!(q.iter().any(|(k, v)| *k == "type" && v == "webp"));
    assert!(!q.iter().any(|(k, _)| *k == "width"));
    assert!(!q.iter().any(|(k, _)| *k == "height"));
}

#[test]
fn strip_exif_only_sent_when_set() {
    // Default (None) — metadata handling left to the API default.
    let none = build_squish_query(&ProcessParams::default());
    assert!(!none.iter().any(|(k, _)| *k == "stripExif"));
    // Explicit preserve.
    let keep = build_squish_query(&ProcessParams {
        strip_exif: Some(false),
        ..Default::default()
    });
    assert!(keep.iter().any(|(k, v)| *k == "stripExif" && v == "false"));
}

#[test]
fn build_query_includes_all_flags() {
    let params = ProcessParams {
        format: Some("png".into()),
        width: Some(1200),
        crop: Some(true),
        rotation: Some(90),
        clarity: Some(true),
        remove_background: Some(true),
        background: Some("white".into()),
        ..Default::default()
    };
    let q = build_squish_query(&params);
    let has = |key: &str, val: &str| q.iter().any(|(k, v)| *k == key && v == val);
    assert!(has("width", "1200"));
    assert!(has("crop", "true"));
    assert!(has("rotate", "90"));
    assert!(has("clarity", "1"));
    assert!(has("removeBackground", "1"));
    assert!(has("background", "white"));
}

#[test]
fn sanitize_strips_invalid_chars_and_trims() {
    assert_eq!(
        sanitize_output_name("  hero/image:final  "),
        "heroimagefinal"
    );
    assert_eq!(sanitize_output_name("logo*?\"<>|"), "logo");
    assert_eq!(sanitize_output_name("clean-name_1"), "clean-name_1");
}

#[test]
fn pdf_split_query_is_op_only() {
    let params = PdfParams {
        op: "split".into(),
        format: Some("png".into()),
        dpi: Some(150),
        quality: Some(90),
    };
    let q = build_pdf_query(&params);
    assert_eq!(q, vec![("op", "split".to_string())]);
}

#[test]
fn pdf_rasterize_query_includes_render_params() {
    let params = PdfParams {
        op: "rasterize".into(),
        format: Some("webp".into()),
        dpi: Some(300),
        quality: Some(85),
    };
    let q = build_pdf_query(&params);
    let has = |key: &str, val: &str| q.iter().any(|(k, v)| *k == key && v == val);
    assert!(has("op", "rasterize"));
    assert!(has("type", "webp"));
    assert!(has("dpi", "300"));
    assert!(has("quality", "85"));
}
