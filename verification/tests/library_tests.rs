use mochify::api::{squish_meta_from_headers, usage_api_key, SquishMeta, UsageInfo};
use mochify::auth::{auth_login_url, auth_poll_url, auth_status_message, poll_outcome, state_token, PollOutcome};
use mochify::cli::{
    check_rotation, classify_inputs, explicit_params, input_paths_from_lines, variant_label, Args,
    InputKind,
};
use mochify::errors::{classify_status, rate_limit_error, MochifyError, StatusClass};
use mochify::mcp::{pdf_tool_params, saved_message, squish_tool_params, PdfInput, SquishInput};
use mochify::naming::{
    content_type_for, image_content_type, is_pdf, is_pdf_extension, numbered_file_name,
    free_numbered_name, pdf_zip_stem, sanitize_output_name, squish_output_extension,
    squish_output_extension_for, squish_output_stem,
};
use mochify::credentials::{api_key_from_line, api_key_from_lines, credentials_text};
use mochify::params::{merge_params, PdfParams, ProcessParams};
use mochify::pdf::{pdf_summary, resolve_lowered_pdf_params, resolve_pdf_params};
use mochify::prompt_map::{build_prompt_map, variants_for_file, PromptMap};
use mochify::query::{build_pdf_query, build_squish_query};
use mochify::summary::{format_params_summary, prompt_summary_lines, squish_meta_summary, usage_report};
use mochify::text::{i32_text, join_text, text_eq, text_eq_ignore_ascii_case, trim_text, u32_text};
use mochify::variants::{expand_file_variants, PromptFileResult, SizeEntry};

fn file_result(name: &str) -> PromptFileResult {
    PromptFileResult {
        filename: name.into(),
        format: Some("webp".into()),
        width: Some(800),
        height: None,
        crop: Some(true),
        rotate: 0,
        output_name: None,
        clarity: None,
        remove_background: None,
        background: None,
        types: None,
        sizes: None,
    }
}

fn no_flags() -> Args {
    Args {
        command: None,
        files: vec![],
        format: None,
        width: None,
        height: None,
        crop: false,
        rotation: None,
        output: None,
        name: None,
        clarity: false,
        remove_bg: false,
        background: None,
        keep_metadata: false,
        prompt: None,
        op: None,
        dpi: None,
        quality: None,
        api_key: None,
        verbose: false,
    }
}

#[test]
fn decimal_text_of_integers() {
    assert_eq!(u32_text(0), "0");
    assert_eq!(u32_text(1200), "1200");
    assert_eq!(u32_text(u32::MAX), "4294967295");
    assert_eq!(i32_text(-5), "-5");
    assert_eq!(i32_text(i32::MIN), "-2147483648");
    assert_eq!(i32_text(42), "42");
}

#[test]
fn text_helpers() {
    assert!(text_eq("abc", "abc"));
    assert!(!text_eq("abc", "abd"));
    assert!(text_eq_ignore_ascii_case("PdF", "pdf"));
    assert!(!text_eq_ignore_ascii_case("pdfx", "pdf"));
    assert_eq!(trim_text(" \t hi there \n"), "hi there");
    assert_eq!(trim_text("\u{a0}x\u{2003}"), "x");
    assert_eq!(trim_text("   "), "");
    assert_eq!(trim_text("\u{85}\u{1680}x\u{3000}\u{2028}"), "x");
    assert_eq!(trim_text("\u{200b}x"), "\u{200b}x");
    assert_eq!(join_text(&vec!["a".to_string(), "b".to_string(), "c".to_string()], " · "), "a · b · c");
    assert_eq!(join_text(&vec![], ", "), "");
}

#[test]
fn squish_query_order_and_values() {
    let params = ProcessParams {
        format: Some("avif".into()),
        width: Some(640),
        height: Some(480),
        crop: Some(false),
        rotation: Some(0),
        clarity: Some(false),
        remove_background: Some(false),
        background: Some("#000".into()),
        strip_exif: Some(true),
        ..Default::default()
    };
    let q = build_squish_query(&params);
    let expected: Vec<(&str, String)> = vec![
        ("type", "avif".into()),
        ("width", "640".into()),
        ("height", "480".into()),
        ("crop", "false".into()),
        ("rotate", "0".into()),
        ("background", "#000".into()),
        ("stripExif", "true".into()),
    ];
    assert_eq!(q, expected);
    assert!(build_squish_query(&ProcessParams::default()).is_empty());
}

#[test]
fn pdf_query_rasterize_order() {
    let params = PdfParams {
        op: "rasterize".into(),
        format: None,
        dpi: Some(72),
        quality: None,
    };
    assert_eq!(
        build_pdf_query(&params),
        vec![("op", "rasterize".to_string()), ("dpi", "72".to_string())]
    );
}

#[test]
fn merge_without_overrides_keeps_base() {
    let base = ProcessParams {
        format: Some("png".into()),
        width: Some(10),
        out_name_suffix: Some("_x".into()),
        strip_exif: Some(false),
        ..Default::default()
    };
    let m = merge_params(base.clone(), ProcessParams::default());
    assert_eq!(m.format.as_deref(), Some("png"));
    assert_eq!(m.width, Some(10));
    assert_eq!(m.out_name_suffix.as_deref(), Some("_x"));
    assert_eq!(m.strip_exif, Some(false));
    assert_eq!(m.height, None);
    let over = ProcessParams {
        width: Some(20),
        ..Default::default()
    };
    let once = merge_params(base.clone(), over.clone());
    let twice = merge_params(once.clone(), over);
    assert_eq!(once.width, Some(20));
    assert_eq!(twice.width, once.width);
    assert_eq!(twice.format, once.format);
}

#[test]
fn expand_counts_sizes_times_formats() {
    let mut f = file_result("a.jpg");
    f.types = Some(vec!["webp".into(), "avif".into()]);
    f.sizes = Some(vec![
        SizeEntry { width: 100, height: 0 },
        SizeEntry { width: 0, height: 200 },
        SizeEntry { width: 0, height: 0 },
    ]);
    let v = expand_file_variants(&f);
    assert_eq!(v.len(), 6);
    assert_eq!(v[2].out_name_suffix.as_deref(), Some("_200h_webp"));
    assert_eq!(v[5].out_name_suffix.as_deref(), Some("_avif"));
    assert_eq!(v[5].width, Some(0));
    assert_eq!(v[0].crop, Some(true));
    assert_eq!(v[0].strip_exif, None);
    // A single type in the list is not a multi-format job.
    let mut g = file_result("b.jpg");
    g.types = Some(vec!["png".into()]);
    let w = expand_file_variants(&g);
    assert_eq!(w.len(), 1);
    assert_eq!(w[0].format.as_deref(), Some("webp"));
    assert_eq!(w[0].out_name_suffix, None);
}

#[test]
fn prompt_map_keys_by_input_name() {
    let names = vec!["my photo.jpg".to_string(), "b.png".to_string()];
    let results = vec![file_result("my_photo.jpg"), file_result("b.png")];
    let m = build_prompt_map(&names, &results);
    assert_eq!(m.get("my photo.jpg").map(|v| v.len()), Some(1));
    assert!(m.get("my_photo.jpg").is_none());
    assert!(m.get("b.png").is_some());
    // More results than inputs: extras are keyed by the echoed name.
    let m2 = build_prompt_map(&vec![], &vec![file_result("z.jpg")]);
    assert!(m2.get("z.jpg").is_some());
}

#[test]
fn prompt_map_insert_replaces() {
    let mut m = PromptMap::new();
    assert!(m.get("a").is_none());
    m.insert("a".into(), vec![ProcessParams::default()]);
    m.insert("b".into(), vec![]);
    m.insert("a".into(), vec![ProcessParams::default(), ProcessParams::default()]);
    assert_eq!(m.get("a").map(|v| v.len()), Some(2));
    assert_eq!(m.get("b").map(|v| v.len()), Some(0));
}

#[test]
fn variants_for_file_merges_explicit() {
    let explicit = ProcessParams {
        format: Some("avif".into()),
        ..Default::default()
    };
    let none = variants_for_file(&None, "x.jpg", &explicit);
    assert_eq!(none.len(), 1);
    assert_eq!(none[0].format.as_deref(), Some("avif"));

    let mut f = file_result("x.jpg");
    f.types = Some(vec!["webp".into(), "png".into()]);
    let map = build_prompt_map(&vec!["x.jpg".to_string()], &vec![f]);
    let map = Some(map);
    let v = variants_for_file(&map, "x.jpg", &explicit);
    assert_eq!(v.len(), 2);
    assert_eq!(v[0].format.as_deref(), Some("avif"));
    assert_eq!(v[1].out_name_suffix.as_deref(), Some("_png"));
    assert_eq!(v[0].width, Some(800));
    let missing = variants_for_file(&map, "other.jpg", &explicit);
    assert_eq!(missing.len(), 1);
    assert_eq!(missing[0].format.as_deref(), Some("avif"));
    assert_eq!(missing[0].width, None);
}

#[test]
fn error_messages() {
    assert_eq!(
        rate_limit_error(true).message(),
        "Rate limit exceeded. You've hit your plan's monthly limit. Upgrade at https://mochify.app for higher limits (Seller: 300/month, Pro: 1200/month)."
    );
    assert_eq!(
        rate_limit_error(false).message(),
        "Rate limit exceeded. Unauthenticated requests are limited to 3/month per IP. Sign up at https://mochify.app, then run `mochify auth login` for 25 free requests/month."
    );
    assert_eq!(
        MochifyError::Api { status: "500 Internal Server Error".into(), body: "boom".into() }.message(),
        "API error 500 Internal Server Error: boom"
    );
    assert_eq!(
        MochifyError::InvalidRotation { rotation: 45 }.message(),
        "Invalid --rotation 45. Use 0, 90, 180, or 270."
    );
    assert_eq!(
        MochifyError::UnknownPdfOperation { op: "flatten".into() }.message(),
        "Unknown --op 'flatten'. Use 'split' or 'rasterize'."
    );
    assert_eq!(
        MochifyError::NoPdfOperation.message(),
        "Specify a PDF operation with --op split|rasterize, or describe it with --prompt."
    );
    assert_eq!(
        MochifyError::MixedInputs.message(),
        "Can't mix PDFs and images in one command — run them separately."
    );
    assert_eq!(
        MochifyError::UsageNeedsAuth.message(),
        "Usage tracking requires authentication. Run `mochify auth login` to sign in, or set MOCHIFY_API_KEY / pass --api-key for automation. Sign up at https://mochify.app if you don't have an account."
    );
    assert_eq!(
        MochifyError::AuthTimeout.message(),
        "Authorization timed out. Run `mochify auth login` to try again."
    );
}

#[test]
fn status_classes() {
    assert_eq!(classify_status(200), StatusClass::Success);
    assert_eq!(classify_status(299), StatusClass::Success);
    assert_eq!(classify_status(300), StatusClass::Failure);
    assert_eq!(classify_status(429), StatusClass::TooManyRequests);
    assert_eq!(classify_status(404), StatusClass::Failure);
    assert_eq!(classify_status(199), StatusClass::Failure);
}

#[test]
fn usage_needs_a_key() {
    assert!(matches!(usage_api_key(&None), Err(MochifyError::UsageNeedsAuth)));
    let key = Some("k".to_string());
    assert_eq!(usage_api_key(&key).unwrap(), "k");
}

#[test]
fn pdf_detection_by_extension() {
    assert!(is_pdf("report.pdf"));
    assert!(is_pdf("dir/Report.PDF"));
    assert!(!is_pdf("photo.jpg"));
    assert!(!is_pdf(".pdf"));
    assert!(!is_pdf("pdf"));
    assert!(is_pdf_extension(&Some("Pdf".into())));
    assert!(!is_pdf_extension(&None));
}

#[test]
fn pdf_detection_uses_the_last_extension_of_the_file_name() {
    assert!(is_pdf("a/Scan.PDF"));
    assert!(!is_pdf("a.pdf.zip"));
    assert!(is_pdf("archive.zip.pdf"));
    assert!(is_pdf("out/report.pdf/"));
    assert!(!is_pdf("reports.pdf/notes"));
    assert!(!is_pdf("dir/.pdf"));
    assert!(!is_pdf("report.pdf."));
}

#[test]
fn content_type_uses_the_last_extension_of_the_file_name() {
    assert_eq!(image_content_type("photos/cat.png"), "image/png");
    assert_eq!(image_content_type("cat.png.webp"), "image/webp");
    assert_eq!(image_content_type("pics.png/cat"), "application/octet-stream");
    assert_eq!(image_content_type(".gif"), "application/octet-stream");
}

#[test]
fn content_types() {
    assert_eq!(image_content_type("a/photo.jpeg"), "image/jpeg");
    assert_eq!(image_content_type("x.jxl"), "image/jxl");
    assert_eq!(image_content_type("x.JPG"), "application/octet-stream");
    assert_eq!(image_content_type("noext"), "application/octet-stream");
    assert_eq!(content_type_for(&Some("gif".into())), "image/gif");
}

#[test]
fn output_naming() {
    let plain = ProcessParams::default();
    assert_eq!(squish_output_stem("photo", &plain, false), "photo");
    assert_eq!(squish_output_stem("photo", &plain, true), "photo_mochified");
    let named = ProcessParams {
        output_name: Some(" hero:shot ".into()),
        ..Default::default()
    };
    assert_eq!(squish_output_stem("photo", &named, true), "heroshot");
    let suffixed = ProcessParams {
        out_name_suffix: Some("_500w_webp".into()),
        ..Default::default()
    };
    assert_eq!(squish_output_stem("photo", &suffixed, true), "photo_500w_webp");
    assert_eq!(numbered_file_name("out", "webp", 0), "out.webp");
    assert_eq!(numbered_file_name("out", "webp", 1), "out_1.webp");
    assert_eq!(numbered_file_name("out", "webp", 12), "out_12.webp");
    assert_eq!(pdf_zip_stem("doc", "split"), "doc_pages");
    assert_eq!(pdf_zip_stem("doc", "rasterize"), "doc_rasterized");
    let fmt = ProcessParams {
        format: Some("avif".into()),
        ..Default::default()
    };
    assert_eq!(squish_output_extension(&fmt, &Some("png".into())), "avif");
    assert_eq!(squish_output_extension(&plain, &Some("png".into())), "png");
    assert_eq!(squish_output_extension(&plain, &None), "jpg");
    assert_eq!(sanitize_output_name("\tname\u{a0}"), "name");
}

#[test]
fn pdf_resolution_lowercases_and_describes() {
    let p = resolve_pdf_params(None, Some("RASTERIZE".into()), Some("webp".into()), None, None).unwrap();
    assert_eq!(p.op, "rasterize");
    assert_eq!(pdf_summary(&p), "rasterize to WEBP at 150 DPI");
    let s = resolve_pdf_params(None, Some("Split".into()), None, None, Some(3)).unwrap();
    assert_eq!(s.op, "split");
    assert_eq!(s.quality, None);
    assert_eq!(pdf_summary(&s), "split into per-page PDFs");
    match resolve_pdf_params(None, Some("FLATTEN".into()), None, None, None) {
        Err(MochifyError::UnknownPdfOperation { op }) => assert_eq!(op, "flatten"),
        _ => panic!("expected unknown operation"),
    }
    assert!(matches!(
        resolve_pdf_params(None, None, None, None, None),
        Err(MochifyError::NoPdfOperation)
    ));
    assert!(matches!(
        resolve_lowered_pdf_params(None, Some("RASTERIZE".into()), None, None, None),
        Err(MochifyError::UnknownPdfOperation { .. })
    ));
}

#[test]
fn summaries() {
    let p = ProcessParams {
        width: Some(500),
        rotation: Some(90),
        background: Some("white".into()),
        strip_exif: Some(false),
        crop: Some(true),
        clarity: Some(true),
        ..Default::default()
    };
    assert_eq!(
        format_params_summary(&p),
        "500w · crop · rotate 90° · clarity · bg white · keep metadata"
    );
    let h = ProcessParams {
        height: Some(300),
        rotation: Some(0),
        ..Default::default()
    };
    assert_eq!(format_params_summary(&h), "300h");

    let meta = squish_meta_from_headers(
        &Some("12".into()),
        &Some("false".into()),
        &Some("already small".into()),
        &Some("80".into()),
        &None,
        &Some("true".into()),
    );
    assert!(!meta.optimized);
    assert!(meta.bg_removed);
    assert_eq!(
        squish_meta_summary(&meta),
        "  ← 12ms · not optimized · (already small) · quality 80 · bg removed"
    );
    let ok = SquishMeta {
        latency_ms: None,
        optimized: true,
        reason: Some("ignored".into()),
        quality: None,
        saliency: Some("0.5".into()),
        bg_removed: false,
    };
    assert_eq!(squish_meta_summary(&ok), "  ← optimized · saliency 0.5");
    let flag = squish_meta_from_headers(&None, &Some("TRUE".into()), &None, &None, &None, &None);
    assert!(!flag.optimized);
}

#[test]
fn prompt_summary_single_and_multi() {
    let mut multi = file_result("m.jpg");
    multi.types = Some(vec!["webp".into(), "avif".into()]);
    let names = vec!["s.jpg".to_string(), "m.jpg".to_string(), "none.jpg".to_string()];
    let map = build_prompt_map(&names, &vec![file_result("s.jpg"), multi]);
    let lines = prompt_summary_lines(&names, &map);
    assert_eq!(
        lines,
        vec![
            "Interpreted:".to_string(),
            "  s.jpg → webp · 800w · crop".to_string(),
            "  m.jpg →".to_string(),
            "    webp · 800w · crop".to_string(),
            "    avif · 800w · crop".to_string(),
        ]
    );
}

#[test]
fn usage_lines() {
    let u = UsageInfo {
        remaining: 20,
        quota: 25,
        plan: "free".into(),
        available: true,
    };
    assert_eq!(
        usage_report(&u),
        vec!["Plan: free".to_string(), "Remaining: 20 / 25".to_string(), "Available: true".to_string()]
    );
    let anon = UsageInfo {
        remaining: -1,
        quota: 0,
        plan: String::new(),
        available: false,
    };
    assert_eq!(
        usage_report(&anon),
        vec!["Remaining: -1".to_string(), "Available: false".to_string()]
    );
}

#[test]
fn sign_in_helpers() {
    assert_eq!(state_token(&vec![0x00, 0xab, 0x0f, 0xff]), "00ab0fff");
    assert_eq!(auth_login_url("abc"), "https://mochify.app/auth/cli?state=abc");
    assert_eq!(auth_poll_url("abc"), "https://id.mochify.app/v1/cli/poll/abc");
    assert_eq!(poll_outcome(Some(200)), PollOutcome::Authorized);
    assert_eq!(poll_outcome(Some(404)), PollOutcome::KeepWaiting);
    assert_eq!(poll_outcome(Some(500)), PollOutcome::KeepWaiting);
    assert_eq!(poll_outcome(None), PollOutcome::KeepWaiting);
    assert_eq!(
        auth_status_message(&Some("mk_1234567890".into())),
        "Authenticated (key: mk_12345…)"
    );
    assert_eq!(auth_status_message(&Some("short".into())), "Authenticated (key: short…)");
    assert_eq!(
        auth_status_message(&None),
        "Not authenticated. Run `mochify auth login` to sign in."
    );
}

#[test]
fn command_line_decisions() {
    assert!(check_rotation(None).is_ok());
    assert!(check_rotation(Some(270)).is_ok());
    assert!(matches!(
        check_rotation(Some(45)),
        Err(MochifyError::InvalidRotation { rotation: 45 })
    ));
    assert_eq!(classify_inputs(&vec![false, false]).unwrap(), InputKind::Images);
    assert_eq!(classify_inputs(&vec![true, true]).unwrap(), InputKind::Pdfs);
    assert_eq!(classify_inputs(&vec![]).unwrap(), InputKind::Images);
    assert!(matches!(classify_inputs(&vec![true, false]), Err(MochifyError::MixedInputs)));
    assert_eq!(
        input_paths_from_lines(&vec!["  a.jpg ".into(), "".into(), "   ".into(), "b.png".into()]),
        vec!["a.jpg".to_string(), "b.png".to_string()]
    );
    let mut args = no_flags();
    args.crop = true;
    args.keep_metadata = true;
    args.remove_bg = true;
    args.name = Some("hero".into());
    let p = explicit_params(&args);
    assert_eq!(p.crop, Some(true));
    assert_eq!(p.clarity, None);
    assert_eq!(p.remove_background, Some(true));
    assert_eq!(p.strip_exif, Some(false));
    assert_eq!(p.output_name.as_deref(), Some("hero"));
    assert_eq!(p.out_name_suffix, None);
    assert_eq!(variant_label("a.jpg", &Some("_webp".into())), "a.jpg_webp");
    assert_eq!(variant_label("a.jpg", &None), "a.jpg");
}

#[test]
fn mcp_tools() {
    let input = SquishInput {
        file_path: "/tmp/a.jpg".into(),
        format: Some("png".into()),
        width: None,
        height: Some(10),
        crop: None,
        rotation: Some(90),
        output_dir: None,
        output_name: Some("x".into()),
        clarity: Some(false),
        remove_background: None,
        background: None,
        strip_metadata: Some(false),
    };
    let p = squish_tool_params(&input);
    assert_eq!(p.format.as_deref(), Some("png"));
    assert_eq!(p.height, Some(10));
    assert_eq!(p.strip_exif, Some(false));
    assert_eq!(p.clarity, Some(false));
    let pdf = PdfInput {
        file_path: "/tmp/a.pdf".into(),
        op: None,
        format: None,
        dpi: None,
        quality: Some(70),
        output_dir: None,
    };
    let params = pdf_tool_params(&pdf).unwrap();
    assert_eq!(params.op, "rasterize");
    assert_eq!(params.format.as_deref(), Some("png"));
    assert_eq!(params.dpi, Some(150));
    assert_eq!(params.quality, Some(70));
    let bad = PdfInput {
        op: Some("Flatten".into()),
        ..pdf
    };
    assert_eq!(
        pdf_tool_params(&bad).unwrap_err(),
        "Error: unknown op 'flatten'. Use 'split' or 'rasterize'."
    );
    assert_eq!(saved_message("/tmp/a.webp", Some(3)), "Saved to /tmp/a.webp (3 requests remaining today)");
    assert_eq!(saved_message("/tmp/a.webp", None), "Saved to /tmp/a.webp");
}

#[test]
fn colon_inside_a_name_keeps_the_extension() {
    assert!(is_pdf("a/b:c.pdf"));
    assert_eq!(image_content_type("shots/12:30.png"), "image/png");
}

#[test]
fn output_extension_from_the_input_path() {
    let plain = ProcessParams::default();
    assert_eq!(squish_output_extension_for(&plain, "dir/photo.png"), "png");
    assert_eq!(squish_output_extension_for(&plain, "dir/a.b.jpeg"), "jpeg");
    assert_eq!(squish_output_extension_for(&plain, "dir/noext"), "jpg");
    assert_eq!(squish_output_extension_for(&plain, "dir/.hidden"), "jpg");
    let webp = ProcessParams {
        format: Some("webp".into()),
        ..Default::default()
    };
    assert_eq!(squish_output_extension_for(&webp, "dir/photo.png"), "webp");
}

#[test]
fn free_name_is_the_first_attempt_not_taken() {
    let none: Vec<String> = vec![];
    assert_eq!(free_numbered_name("out", "webp", &none), "out.webp");
    let some: Vec<String> = vec!["out.webp".into(), "other.png".into(), "out_1.webp".into()];
    assert_eq!(free_numbered_name("out", "webp", &some), "out_2.webp");
    let gap: Vec<String> = vec!["out_1.webp".into()];
    assert_eq!(free_numbered_name("out", "webp", &gap), "out.webp");
}

#[test]
fn credentials_line_parsing() {
    assert_eq!(api_key_from_line("api_key = \"sk_123\"").as_deref(), Some("sk_123"));
    assert_eq!(api_key_from_line("  api_key=sk_9  ").as_deref(), Some("sk_9"));
    assert_eq!(api_key_from_line("api_key = \"a=b\"").as_deref(), Some("a=b"));
    assert_eq!(api_key_from_line("api_key = \"\""), None);
    assert_eq!(api_key_from_line("other = \"x\""), None);
    assert_eq!(api_key_from_line("api_key"), None);
    let lines: Vec<String> = vec!["# saved".into(), "api_key = \"k1\"".into(), "api_key = \"k2\"".into()];
    assert_eq!(api_key_from_lines(&lines).as_deref(), Some("k1"));
    assert_eq!(api_key_from_lines(&vec![]), None);
}

#[test]
fn saved_credentials_read_back() {
    let text = credentials_text("sk_live_42");
    assert_eq!(text, "api_key = \"sk_live_42\"\n");
    let lines: Vec<String> = text.lines().map(String::from).collect();
    assert_eq!(api_key_from_lines(&lines).as_deref(), Some("sk_live_42"));
}
