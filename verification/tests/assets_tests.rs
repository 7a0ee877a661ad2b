use remote_mouse::assets::{has_extension, plan_response, ServePlan};
use remote_mouse::pairing::pairing_banner;

#[test]
fn extension_detection() {
    assert!(has_extension("index.html"));
    assert!(has_extension("assets/app.js"));
    assert!(has_extension("a.b.c"));
    assert!(has_extension("trailing.dot."));
    assert!(!has_extension(""));
    assert!(!has_extension("settings"));
    assert!(!has_extension("nested/route"));
    assert!(!has_extension(".gitignore"));
    assert!(!has_extension("dir.d/file"));
    assert!(!has_extension("route/"));
    assert!(has_extension("dir/page.html/"));
}

#[test]
fn found_asset_gets_its_media_type() {
    match plan_response("index.html", true, true) {
        ServePlan::Asset { mime } => assert_eq!(mime, "text/html"),
        _ => panic!("a found asset must be served"),
    }
}

#[test]
fn unknown_extension_falls_back_to_octet_stream() {
    match plan_response("data.unknownext", true, true) {
        ServePlan::Asset { mime } => assert_eq!(mime, "application/octet-stream"),
        _ => panic!("a found asset must be served"),
    }
}

#[test]
fn extensionless_miss_serves_the_entry_document() {
    match plan_response("settings", false, true) {
        ServePlan::IndexFallback { mime } => assert_eq!(mime, "text/html"),
        _ => panic!("an extensionless miss must fall back to the entry document"),
    }
}

#[test]
fn miss_with_extension_is_not_found() {
    assert!(matches!(plan_response("missing.png", false, true), ServePlan::NotFound));
}

#[test]
fn miss_without_entry_document_is_not_found() {
    assert!(matches!(plan_response("settings", false, false), ServePlan::NotFound));
}

#[test]
fn pairing_banner_renders_a_framed_qr_code() {
    let url = "http://192.168.0.17:8081";
    let banner = pairing_banner(url).expect("a short URL fits a QR code");
    assert!(banner.starts_with('\n') && banner.ends_with('\n'));
    assert!(banner.contains('\u{2588}'), "the dark modules must be rendered");
    assert!(banner.len() > url.len(), "a QR code is larger than its payload");
    assert!(!banner.contains(url), "the banner encodes the URL, it does not echo it");
}

#[test]
fn pairing_banner_rejects_oversized_payloads() {
    // No QR code version can hold this many bytes.
    let huge = "x".repeat(8000);
    assert!(pairing_banner(&huge).is_none());
}
