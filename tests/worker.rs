use crates_io_proxy::index_entry::IndexEntry;
use crates_io_proxy::response::{ContentType, ResponseBody};
use crates_io_proxy::upstream::{FetchError, IndexResponse};
use crates_io_proxy::worker::{
    cached_index_reply, crate_fetched_response, failed_index_reply, fetched_reply,
    reads_cache_on_failure, stores_fetched_body, CachedReply, FetchedReply,
};

fn upstream_entry(etag: &str) -> IndexEntry {
    let mut e = IndexEntry::new("serde");
    e.set_etag(etag);
    e.set_last_modified("Sun, 06 Nov 1994 08:49:37 GMT");
    e.set_last_updated(10);
    e
}

#[test]
fn new_index_body_is_passed_on() {
    let resp = IndexResponse { entry: upstream_entry("\"e1\""), status: 200, data: b"B".to_vec() };
    assert!(stores_fetched_body(&resp));
    match fetched_reply(&IndexEntry::new("serde"), resp) {
        FetchedReply::Respond(r) => {
            assert_eq!(r.status, 200);
            assert_eq!(r.content_type, Some(ContentType::IndexText));
            assert_eq!(r.etag.as_deref(), Some("\"e1\""));
            assert_eq!(r.last_modified.as_deref(), Some("Sun, 06 Nov 1994 08:49:37 GMT"));
            assert!(matches!(r.body, ResponseBody::Bytes(ref b) if b == b"B"));
        }
        other => panic!("unexpected {other:?}"),
    }
}

#[test]
fn client_already_current_gets_not_modified() {
    let mut requested = IndexEntry::new("serde");
    requested.set_etag("\"e1\"");
    let resp = IndexResponse { entry: upstream_entry("\"e1\""), status: 304, data: vec![] };
    assert!(!stores_fetched_body(&resp));
    match fetched_reply(&requested, resp) {
        FetchedReply::Respond(r) => {
            assert_eq!(r.status, 304);
            assert_eq!(r.etag.as_deref(), Some("\"e1\""));
            assert!(matches!(r.body, ResponseBody::Empty));
        }
        other => panic!("unexpected {other:?}"),
    }
}

#[test]
fn upstream_not_modified_serves_cache_or_reports_loss() {
    let resp = IndexResponse { entry: upstream_entry("\"e1\""), status: 304, data: vec![] };
    let entry = match fetched_reply(&IndexEntry::new("serde"), resp) {
        FetchedReply::FromCache(e) => e,
        other => panic!("unexpected {other:?}"),
    };
    match cached_index_reply(&entry, Some(b"B".to_vec())) {
        CachedReply::Serve(r) => {
            assert_eq!(r.status, 200);
            assert_eq!(r.etag.as_deref(), Some("\"e1\""));
            assert!(matches!(r.body, ResponseBody::Bytes(ref b) if b == b"B"));
        }
        other => panic!("unexpected {other:?}"),
    }
    match cached_index_reply(&entry, None) {
        CachedReply::Lost(r) => {
            assert_eq!(r.status, 503);
            assert!(matches!(r.body, ResponseBody::Empty));
        }
        other => panic!("unexpected {other:?}"),
    }
}

#[test]
fn transport_failure_serves_stale_bytes() {
    let requested = IndexEntry::new("serde");
    let err = FetchError::Transport("connection refused".to_string());
    assert!(reads_cache_on_failure(&err));
    let r = failed_index_reply(&requested, err, Some(b"B".to_vec()));
    assert_eq!(r.status, 200);
    assert!(matches!(r.body, ResponseBody::Bytes(ref b) if b == b"B"));

    let r = failed_index_reply(&requested, FetchError::Transport("x".to_string()), None);
    assert_eq!(r.status, 502);
    assert!(matches!(r.body, ResponseBody::Text(ref t) if t == r#"{"errors":[{"detail":"x"}]}"#));
}

#[test]
fn upstream_error_is_forwarded() {
    let err = FetchError::Upstream { status: 404, body: Ok("missing".to_string()) };
    assert!(!reads_cache_on_failure(&err));
    let r = failed_index_reply(&IndexEntry::new("serde"), err, Some(b"B".to_vec()));
    assert_eq!(r.status, 404);
    assert!(matches!(r.body, ResponseBody::Text(ref t) if t == "missing"));
}

#[test]
fn crate_download_answers() {
    let r = crate_fetched_response(Ok(vec![9, 9]));
    assert_eq!(r.status, 200);
    assert_eq!(r.content_type, Some(ContentType::CrateFile));
    assert!(matches!(r.body, ResponseBody::Bytes(ref b) if b == &vec![9, 9]));
    let r = crate_fetched_response(Err(FetchError::Upstream {
        status: 507,
        body: Ok("Insufficient storage".to_string()),
    }));
    assert_eq!(r.status, 507);
}
