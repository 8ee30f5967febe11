use crates_io_proxy::index_entry::IndexEntry;

#[test]
fn test_from_url() {
    assert_eq!(IndexEntry::try_from_index_url(""), None);
    assert_eq!(IndexEntry::try_from_index_url("abc"), None);
    assert_eq!(IndexEntry::try_from_index_url("a/bc"), None);
    assert_eq!(IndexEntry::try_from_index_url("a/b/c/d"), None);

    assert_eq!(
        IndexEntry::try_from_index_url("1/a"),
        Some(IndexEntry::new("a"))
    );
    assert_eq!(
        IndexEntry::try_from_index_url("2/ab"),
        Some(IndexEntry::new("ab"))
    );
    assert_eq!(
        IndexEntry::try_from_index_url("3/a/abc"),
        Some(IndexEntry::new("abc"))
    );
    assert_eq!(
        IndexEntry::try_from_index_url("ab/cd/abcd"),
        Some(IndexEntry::new("abcd"))
    );
}

#[test]
fn test_to_url() {
    assert_eq!(IndexEntry::new("").to_index_url(), "");
    assert_eq!(IndexEntry::new("a").to_index_url(), "1/a");
    assert_eq!(IndexEntry::new("ab").to_index_url(), "2/ab");
    assert_eq!(IndexEntry::new("abc").to_index_url(), "3/a/abc");
    assert_eq!(IndexEntry::new("abcd").to_index_url(), "ab/cd/abcd");
}

#[test]
fn index_path_table() {
    assert_eq!(IndexEntry::new("serde_json").to_index_url(), "se/rd/serde_json");
    assert_eq!(IndexEntry::new("serde_json").to_file_path(), "se/rd/serde_json");
}

#[test]
fn index_path_round_trip() {
    for name in ["a", "1", "ab", "xyz", "serde", "tokio-util", "z9_"] {
        let path = IndexEntry::new(name).to_index_url();
        assert_eq!(IndexEntry::try_from_index_url(&path), Some(IndexEntry::new(name)));
    }
}

#[test]
fn index_path_with_dot_does_not_round_trip() {
    let path = IndexEntry::new("a.b").to_index_url();
    assert_eq!(path, "3/a/a.b");
    assert_eq!(IndexEntry::try_from_index_url(&path), None);
}

#[test]
fn index_path_rejections() {
    assert_eq!(IndexEntry::try_from_index_url("config.json"), None);
    assert_eq!(IndexEntry::try_from_index_url("1/a.b"), None);
    assert_eq!(IndexEntry::try_from_index_url("3/abc"), None);
    assert_eq!(IndexEntry::try_from_index_url("1"), None);
    assert_eq!(IndexEntry::try_from_index_url("1/a/b"), None);
    assert_eq!(IndexEntry::try_from_index_url("ab/cd/ef/abcd"), None);
    assert_eq!(
        IndexEntry::try_from_index_url("xx/yy/serde"),
        Some(IndexEntry::new("serde"))
    );
}

#[test]
fn equivalence_by_validators() {
    let mut a = IndexEntry::new("serde");
    let mut b = IndexEntry::new("serde");
    assert!(!a.is_equivalent(&b));
    a.set_etag("\"e1\"");
    assert!(!a.is_equivalent(&b));
    assert!(!b.is_equivalent(&a));
    b.set_etag("\"e1\"");
    assert!(a.is_equivalent(&b));
    b.set_etag("\"e2\"");
    assert!(!a.is_equivalent(&b));
    a.set_last_modified("Sun, 06 Nov 1994 08:49:37 GMT");
    b.set_last_modified("Sun, 06 Nov 1994 08:49:37 GMT");
    assert!(a.is_equivalent(&b));
}

#[test]
fn http_dates_parse_and_format() {
    let mut e = IndexEntry::new("serde");
    e.set_last_modified("Sun, 06 Nov 1994 08:49:37 GMT");
    assert_eq!(e.mtime(), Some(784111777));
    assert_eq!(e.last_modified().as_deref(), Some("Sun, 06 Nov 1994 08:49:37 GMT"));
    e.set_last_modified("Sunday, 06-Nov-94 08:49:38 GMT");
    assert_eq!(e.mtime(), Some(784111778));
    e.set_last_modified("not a date");
    assert_eq!(e.mtime(), Some(784111778));
    assert_eq!(IndexEntry::new("x").last_modified(), None);
}

#[test]
fn expiry_by_ttl() {
    let mut e = IndexEntry::new("serde");
    assert!(!e.is_expired_with_ttl(1000, 1_000_000));
    e.set_last_updated(5000);
    assert_eq!(e.atime(), Some(5000));
    assert!(!e.is_expired_with_ttl(1000, 6000));
    assert!(e.is_expired_with_ttl(1000, 6001));
    assert!(!e.is_expired_with_ttl(1000, 4000));
}

#[test]
fn entry_from_file_mtime() {
    let e = IndexEntry::with_file_mtime("serde", 784111777).unwrap();
    assert_eq!(e.name(), "serde");
    assert_eq!(e.etag(), None);
    assert_eq!(e.last_modified().as_deref(), Some("Sun, 06 Nov 1994 08:49:37 GMT"));
    assert!(IndexEntry::with_file_mtime("serde", 253402300800).is_none());
    assert!(IndexEntry::with_file_mtime("serde", 253402300799).is_some());
}
