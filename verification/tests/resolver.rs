use site_mirror::errors::MirrorError;
use site_mirror::urls::{derive_filename, has_http_prefix, resolve};

#[test]
fn resolve_is_identity_on_http_reference() {
    let base = "https://example.com/page/index.html";
    let reference = "http://other.org/assets/pic.png";
    let resolved = resolve(base, reference).unwrap();
    assert_eq!(resolved, reference);
}

#[test]
fn resolve_is_identity_on_https_reference() {
    let base = "https://example.com/page/index.html";
    let reference = "https://cdn.example.net/lib.js";
    let resolved = resolve(base, reference).unwrap();
    assert_eq!(resolved, reference);
}

#[test]
fn resolve_relative_keeps_scheme_and_host() {
    let base = "https://example.com/a/b.html";
    let resolved = resolve(base, "img/logo.png").unwrap();
    assert_eq!(resolved, "https://example.com/a/img/logo.png");
    assert!(resolved.starts_with("https://example.com/"));
}

#[test]
fn resolve_root_relative_reference() {
    let base = "http://example.com/a/b/c.html";
    let resolved = resolve(base, "/style.css").unwrap();
    assert_eq!(resolved, "http://example.com/style.css");
}

#[test]
fn resolve_normalizes_parent_segments() {
    let base = "http://example.com/a/b/c.html";
    let resolved = resolve(base, "../d.png").unwrap();
    assert_eq!(resolved, "http://example.com/a/d.png");
}

#[test]
fn resolve_fails_on_unparsable_base() {
    let result = resolve("not a url", "style.css");
    assert!(matches!(result, Err(MirrorError::InvalidUrl)));
}

#[test]
fn http_prefix_detection() {
    assert!(has_http_prefix("http://a"));
    assert!(has_http_prefix("https://a"));
    assert!(has_http_prefix("http"));
    assert!(!has_http_prefix("htt"));
    assert!(!has_http_prefix("ftp://a"));
    assert!(!has_http_prefix(""));
    assert!(!has_http_prefix("/relative/path.css"));
}

#[test]
fn derive_filename_is_deterministic() {
    let url = "https://example.com/a/b/logo.png";
    assert_eq!(derive_filename(url), derive_filename(url));
}

#[test]
fn derive_filename_returns_last_segment() {
    assert_eq!(derive_filename("https://example.com/a/b/logo.png"), "logo.png");
}

#[test]
fn derive_filename_empty_without_path_segments() {
    assert_eq!(derive_filename("https://example.com"), "");
}

#[test]
fn derive_filename_empty_on_trailing_slash() {
    assert_eq!(derive_filename("https://example.com/a/b/"), "");
}

#[test]
fn derive_filename_empty_on_unparsable_url() {
    assert_eq!(derive_filename("not a url"), "");
}

#[test]
fn derive_filename_empty_on_cannot_be_a_base_url() {
    assert_eq!(derive_filename("mailto:someone@example.com"), "");
}
