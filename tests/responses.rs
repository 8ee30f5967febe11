use crates_io_proxy::config_json::{format_config_json, gen_config_json_file, is_config_json_url};
use crates_io_proxy::index_entry::IndexEntry;
use crates_io_proxy::response::{
    error_response, format_json_error, index_data_response, not_modified_response, ContentType,
    ResponseBody,
};
use crates_io_proxy::upstream::{fetch_error_response, FetchError};
use crates_io_proxy::ProxyConfig;

fn config(proxy_url: &str, upstream_url: &str) -> ProxyConfig {
    ProxyConfig::new(
        "https://index.crates.io/".to_string(),
        upstream_url.to_string(),
        proxy_url.to_string(),
        3600,
    )
}

#[test]
fn config_json_document() {
    let c = config("http://p:3080/", "https://crates.io/");
    assert_eq!(
        gen_config_json_file(&c).as_deref(),
        Some(r#"{"dl":"http://p:3080/api/v1/crates","api":"https://crates.io"}"#)
    );
}

#[test]
fn config_json_join_replaces_path() {
    let c = config("http://p:3080/mirror/", "https://crates.io//");
    assert_eq!(
        gen_config_json_file(&c).as_deref(),
        Some(r#"{"dl":"http://p:3080/api/v1/crates","api":"https://crates.io"}"#)
    );
    assert_eq!(gen_config_json_file(&config("not a url", "https://crates.io/")), None);
}

#[test]
fn config_json_formatting() {
    assert_eq!(format_config_json("a///", "b"), r#"{"dl":"a","api":"b"}"#);
    assert_eq!(format_config_json("", "/"), r#"{"dl":"","api":""}"#);
}

#[test]
fn config_json_endpoint() {
    assert!(is_config_json_url("config.json"));
    assert!(!is_config_json_url("config.jso"));
    assert!(!is_config_json_url("/config.json"));
    assert!(!is_config_json_url(""));
}

#[test]
fn json_error_envelope() {
    assert_eq!(format_json_error("boom"), r#"{"errors":[{"detail":"boom"}]}"#);
    assert_eq!(
        format_json_error("say \"hi\"\\\n\u{1}"),
        r#"{"errors":[{"detail":"say \"hi\"\\\n\u0001"}]}"#
    );
    assert_eq!(format_json_error(""), r#"{"errors":[{"detail":""}]}"#);
}

#[test]
fn fetch_error_responses() {
    let r = fetch_error_response(FetchError::Upstream { status: 404, body: Ok("nope".to_string()) });
    assert_eq!(r.status, 404);
    assert_eq!(r.content_type, Some(ContentType::Json));
    assert!(matches!(r.body, ResponseBody::Text(ref t) if t == "nope"));

    let r = fetch_error_response(FetchError::Upstream { status: 500, body: Err("bad utf-8".to_string()) });
    assert_eq!(r.status, 500);
    assert!(matches!(r.body, ResponseBody::Text(ref t) if t == r#"{"errors":[{"detail":"bad utf-8"}]}"#));

    let r = fetch_error_response(FetchError::Transport("dns failed".to_string()));
    assert_eq!(r.status, 502);
    assert_eq!(r.content_type, Some(ContentType::Json));
    assert!(matches!(r.body, ResponseBody::Text(ref t) if t == r#"{"errors":[{"detail":"dns failed"}]}"#));
}

#[test]
fn index_responses_carry_validators() {
    let mut e = IndexEntry::new("serde");
    e.set_etag("\"e1\"");
    e.set_last_modified("Sun, 06 Nov 1994 08:49:37 GMT");
    let r = not_modified_response(&e);
    assert_eq!(r.status, 304);
    assert_eq!(r.content_type, None);
    assert_eq!(r.etag.as_deref(), Some("\"e1\""));
    assert_eq!(r.last_modified.as_deref(), Some("Sun, 06 Nov 1994 08:49:37 GMT"));
    assert!(matches!(r.body, ResponseBody::Empty));

    let r = index_data_response(&IndexEntry::new("serde"), 200, vec![1, 2, 3]);
    assert_eq!(r.status, 200);
    assert_eq!(r.content_type, Some(ContentType::IndexText));
    assert_eq!(r.etag, None);
    assert_eq!(r.last_modified, None);
    assert!(matches!(r.body, ResponseBody::Bytes(ref b) if b == &vec![1, 2, 3]));
}

#[test]
fn bare_error_response() {
    let r = error_response(404);
    assert_eq!(r.status, 404);
    assert_eq!(r.content_type, None);
    assert!(matches!(r.body, ResponseBody::Empty));
}

#[test]
fn content_type_headers() {
    assert_eq!(ContentType::Json.header_value(), "application/json; charset=utf-8");
    assert_eq!(ContentType::CrateFile.header_value(), "application/x-tar");
    assert_eq!(ContentType::IndexText.header_value(), "text/plain");
}
