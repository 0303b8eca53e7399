use http_source::policy::AllowedOrigins;
use http_source::source::HttpSourceAssetReader;
use http_source::uri::{build_meta_uri, build_uri};

#[test]
fn make_http_uri() {
    assert_eq!(
        HttpSourceAssetReader { secure: false, allowed_origins: AllowedOrigins::All }
            .make_uri("example.com/favicon.png")
            .as_str(),
        "http://example.com/favicon.png"
    );
}

#[test]
fn make_https_uri() {
    assert_eq!(
        HttpSourceAssetReader { secure: true, allowed_origins: AllowedOrigins::All }
            .make_uri("example.com/favicon.png")
            .as_str(),
        "https://example.com/favicon.png"
    );
}

#[test]
fn make_http_meta_uri() {
    assert_eq!(
        HttpSourceAssetReader { secure: false, allowed_origins: AllowedOrigins::All }
            .make_meta_uri("example.com/favicon.png")
            .as_str(),
        "http://example.com/favicon.png.meta"
    );
}

#[test]
fn make_https_meta_uri() {
    assert_eq!(
        HttpSourceAssetReader { secure: true, allowed_origins: AllowedOrigins::All }
            .make_meta_uri("example.com/favicon.png")
            .as_str(),
        "https://example.com/favicon.png.meta"
    );
}

#[test]
fn make_https_without_extension_meta_uri() {
    assert_eq!(
        HttpSourceAssetReader { secure: true, allowed_origins: AllowedOrigins::All }
            .make_meta_uri("example.com/favicon")
            .as_str(),
        "https://example.com/favicon.meta"
    );
}

#[test]
fn build_uri_prefixes_exactly() {
    assert_eq!(
        build_uri(false, "example.com/favicon.png").as_str(),
        "http://example.com/favicon.png"
    );
    assert_eq!(build_uri(true, "a/b c/d?e=f").as_str(), "https://a/b c/d?e=f");
    assert_eq!(build_uri(false, "").as_str(), "http://");
}

#[test]
fn build_meta_uri_appends_suffix_after_any_extension() {
    assert_eq!(
        build_meta_uri(true, "example.com/favicon.png").as_str(),
        "https://example.com/favicon.png.meta"
    );
    assert_eq!(
        build_meta_uri(true, "example.com/favicon").as_str(),
        "https://example.com/favicon.meta"
    );
}
