use http_source::cache::CacheStore;
use http_source::fetch::{
    classify_response, outcome_to_error, AssetReaderError, FetchOutcome, HttpResponse,
};
use http_source::policy::AllowedOrigins;
use http_source::source::{HttpSourceAssetReader, HttpSourcePlugin, ReadPlan};

fn reader(secure: bool) -> HttpSourceAssetReader {
    HttpSourceAssetReader { secure, allowed_origins: AllowedOrigins::All }
}

#[test]
fn simulated_404_yields_not_found() {
    let outcome = classify_response(
        "http://example.com/missing",
        HttpResponse::Status(404, vec![]),
    );
    match outcome {
        FetchOutcome::NotFound(uri) => assert_eq!(uri.as_str(), "http://example.com/missing"),
        _ => panic!("expected NotFound"),
    }
    let r = outcome_to_error(classify_response(
        "http://example.com/missing",
        HttpResponse::Status(404, vec![]),
    ));
    match r {
        Err(AssetReaderError::NotFound(uri)) => {
            assert_eq!(uri.as_str(), "http://example.com/missing")
        }
        _ => panic!("expected NotFound error"),
    }
}

#[test]
fn simulated_500_yields_http_error_with_code() {
    let r = outcome_to_error(classify_response(
        "http://example.com/x",
        HttpResponse::Status(500, vec![1, 2]),
    ));
    match r {
        Err(AssetReaderError::HttpError(code)) => assert_eq!(code, 500),
        _ => panic!("expected HttpError"),
    }
}

#[test]
fn simulated_connection_failure_yields_io() {
    let r = outcome_to_error(classify_response(
        "http://example.com/x",
        HttpResponse::Transport(String::from("connection refused")),
    ));
    match r {
        Err(AssetReaderError::Io(msg)) => {
            assert_eq!(
                msg.as_str(),
                "unexpected error while loading asset http://example.com/x: connection refused"
            );
        }
        _ => panic!("expected Io error"),
    }
}

#[test]
fn success_returns_whole_body() {
    let r = outcome_to_error(classify_response(
        "http://example.com/x",
        HttpResponse::Status(200, vec![5, 6, 7]),
    ));
    assert_eq!(r.expect("2xx is success"), vec![5u8, 6, 7]);
}

#[test]
fn access_denied_is_its_own_error() {
    match outcome_to_error(FetchOutcome::AccessDenied) {
        Err(AssetReaderError::AccessDenied) => {}
        _ => panic!("expected AccessDenied"),
    }
}

#[test]
fn second_read_is_a_cache_hit_with_identical_bytes() {
    let r = reader(false);
    let mut cache = CacheStore::new();
    let uri = match r.read_plan("example.com/a.png", &cache) {
        ReadPlan::Fetch(uri) => {
            assert_eq!(uri.as_str(), "http://example.com/a.png");
            uri
        }
        _ => panic!("first read must fetch"),
    };
    let body = vec![10u8, 20, 30];
    let got = r
        .finish_fetch(uri.as_str(), HttpResponse::Status(200, body.clone()), &mut cache)
        .expect("fetch succeeded");
    assert_eq!(got, body);
    match r.read_plan("example.com/a.png", &cache) {
        ReadPlan::Hit(bytes) => assert_eq!(bytes, body, "byte-identical, no network request"),
        _ => panic!("second read must not re-issue a network request"),
    }
}

#[test]
fn failed_fetch_leaves_cache_empty() {
    let r = reader(false);
    let mut cache = CacheStore::new();
    let res = r.finish_fetch(
        "http://example.com/a.png",
        HttpResponse::Status(500, vec![]),
        &mut cache,
    );
    assert!(res.is_err());
    match r.read_plan("example.com/a.png", &cache) {
        ReadPlan::Fetch(_) => {}
        _ => panic!("nothing may be cached after a failure"),
    }
}

#[test]
fn cross_origin_absolute_path_is_policy_checked() {
    let policy = AllowedOrigins::new(vec![String::from("https://a.com")]);
    let r = HttpSourceAssetReader { secure: true, allowed_origins: policy };
    let cache = CacheStore::new();
    match r.read_plan("https://b.com/x.png", &cache) {
        ReadPlan::Denied => {}
        _ => panic!("disallowed origin must be denied"),
    }
    match r.read_plan("https://a.com/x.png", &cache) {
        ReadPlan::Fetch(uri) => assert_eq!(uri.as_str(), "https://a.com/x.png"),
        _ => panic!("allowed origin must fetch the path as it stands"),
    }
    match r.read_plan("relative/x.png", &cache) {
        ReadPlan::Fetch(uri) => assert_eq!(uri.as_str(), "https://relative/x.png"),
        _ => panic!("a bare relative path resolves against the source's own prefix"),
    }
}

#[test]
fn meta_read_fetches_sidecar_uri() {
    let r = reader(true);
    let cache = CacheStore::new();
    match r.read_meta_plan("example.com/favicon.png", &cache) {
        ReadPlan::Fetch(uri) => assert_eq!(uri.as_str(), "https://example.com/favicon.png.meta"),
        _ => panic!("expected fetch"),
    }
    match r.read_meta_plan("https://a.com/favicon.png", &cache) {
        ReadPlan::Fetch(uri) => assert_eq!(uri.as_str(), "https://a.com/favicon.png.meta"),
        _ => panic!("expected fetch"),
    }
}

#[test]
fn is_directory_is_always_false() {
    let r = reader(false);
    assert_eq!(r.is_directory("example.com/dir").expect("never errors"), false);
    assert_eq!(r.is_directory("").expect("never errors"), false);
    assert_eq!(r.is_directory("https://a.com/").expect("never errors"), false);
}

#[test]
fn read_directory_always_fails_with_not_found() {
    let r = reader(false);
    match r.read_directory("example.com/dir") {
        Err(AssetReaderError::NotFound(uri)) => {
            assert_eq!(uri.as_str(), "http://example.com/dir")
        }
        _ => panic!("expected NotFound"),
    }
}

#[test]
fn plugin_builds_plain_and_secure_readers() {
    let plugin = HttpSourcePlugin {
        allowed_origins: AllowedOrigins::new(vec![String::from("https://a.com")]),
    };
    let http = plugin.http_reader();
    let https = plugin.https_reader();
    assert!(!http.secure);
    assert!(https.secure);
    assert!(https.allowed_origins.is_allowed("https://a.com/x"));
    assert!(!https.allowed_origins.is_allowed("http://a.com/x"));
    assert!(http.allowed_origins.is_allowed("https://a.com/x"));
}
