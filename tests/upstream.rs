use crates_io_proxy::crate_info::CrateInfo;
use crates_io_proxy::index_entry::IndexEntry;
use crates_io_proxy::upstream::{
    apply_upstream_validators, check_crate_body, conditional_header, crate_body_limit,
    crate_download_url, index_entry_url, ConditionalHeader, CrateBodyLimit, FetchError,
    MAX_CRATE_SIZE,
};

fn upstream_status(r: Result<CrateBodyLimit, FetchError>) -> Option<(u16, String)> {
    match r {
        Err(FetchError::Upstream { status, body: Ok(text) }) => Some((status, text)),
        _ => None,
    }
}

#[test]
fn content_length_limits() {
    assert_eq!(crate_body_limit(None).ok(), Some(CrateBodyLimit::Capped));
    assert_eq!(crate_body_limit(Some("100")).ok(), Some(CrateBodyLimit::Exact(100)));
    assert_eq!(crate_body_limit(Some("+7")).ok(), Some(CrateBodyLimit::Exact(7)));
    assert_eq!(crate_body_limit(Some("16777216")).ok(), Some(CrateBodyLimit::Exact(MAX_CRATE_SIZE)));
    assert_eq!(
        upstream_status(crate_body_limit(Some("17000000"))),
        Some((507, "Insufficient storage".to_string()))
    );
    assert_eq!(
        upstream_status(crate_body_limit(Some("16777217"))),
        Some((507, "Insufficient storage".to_string()))
    );
    assert_eq!(
        upstream_status(crate_body_limit(Some("99999999999999999999999999"))),
        Some((507, "Insufficient storage".to_string()))
    );
    for bad in ["", "+", "-1", "12a", " 12", "0x10"] {
        assert_eq!(
            upstream_status(crate_body_limit(Some(bad))),
            Some((400, "Invalid header".to_string()))
        );
    }
}

#[test]
fn capped_body_check() {
    assert_eq!(check_crate_body(CrateBodyLimit::Capped, vec![0; 10]).ok(), Some(vec![0; 10]));
    assert!(matches!(
        check_crate_body(CrateBodyLimit::Capped, vec![0; MAX_CRATE_SIZE]),
        Err(FetchError::Upstream { status: 507, .. })
    ));
    assert_eq!(check_crate_body(CrateBodyLimit::Exact(3), vec![1, 2, 3]).ok(), Some(vec![1, 2, 3]));
}

#[test]
fn upstream_urls() {
    let id = CrateInfo::new("foo", "1.0.0");
    assert_eq!(
        crate_download_url("https://crates.io/", &id).as_deref(),
        Some("https://crates.io/api/v1/crates/foo/1.0.0/download")
    );
    assert_eq!(
        index_entry_url("https://index.crates.io/", &IndexEntry::new("serde")).as_deref(),
        Some("https://index.crates.io/se/rd/serde")
    );
    assert_eq!(
        index_entry_url("http://mirror.local/index/", &IndexEntry::new("ab")).as_deref(),
        Some("http://mirror.local/index/2/ab")
    );
    assert_eq!(crate_download_url("nope", &id), None);
}

#[test]
fn conditional_headers() {
    let mut e = IndexEntry::new("serde");
    assert!(conditional_header(&e).is_none());
    e.set_last_modified("Sun, 06 Nov 1994 08:49:37 GMT");
    assert!(matches!(
        conditional_header(&e),
        Some(ConditionalHeader::IfModifiedSince(ref d)) if d == "Sun, 06 Nov 1994 08:49:37 GMT"
    ));
    e.set_etag("\"e1\"");
    assert!(matches!(
        conditional_header(&e),
        Some(ConditionalHeader::IfNoneMatch(ref t)) if t == "\"e1\""
    ));
}

#[test]
fn upstream_validators_update_entry() {
    let mut e = IndexEntry::with_file_mtime("serde", 784111777).unwrap();
    apply_upstream_validators(&mut e, Some("\"e1\""), Some("garbage"), 42);
    assert_eq!(e.etag(), Some("\"e1\""));
    assert_eq!(e.mtime(), Some(784111777));
    assert_eq!(e.atime(), Some(42));
    apply_upstream_validators(&mut e, None, Some("Sun, 02 Oct 2016 14:44:11 GMT"), 43);
    assert_eq!(e.etag(), Some("\"e1\""));
    assert_eq!(e.mtime(), Some(1475419451));
    assert_eq!(e.atime(), Some(43));
}
