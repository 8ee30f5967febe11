use crates_io_proxy::crate_info::CrateInfo;

#[test]
fn download_url_round_trip() {
    for (name, version) in [("foo", "1.0.0"), ("serde_json", "1.0.108"), ("", ""), ("a-b", "0.1.0-rc.1")] {
        let id = CrateInfo::new(name, version);
        let url = id.to_download_url();
        assert_eq!(CrateInfo::try_from_download_url(&url), Some(id));
    }
}

#[test]
fn download_url_shape() {
    let id = CrateInfo::new("foo", "1.0.0");
    assert_eq!(id.to_download_url(), "foo/1.0.0/download");
    assert_eq!(id.name(), "foo");
    assert_eq!(id.version(), "1.0.0");
}

#[test]
fn download_url_rejections() {
    assert_eq!(CrateInfo::try_from_download_url("foo/1.0.0"), None);
    assert_eq!(CrateInfo::try_from_download_url("foo/download"), None);
    assert_eq!(CrateInfo::try_from_download_url("a/foo/1.0.0/download"), None);
    assert_eq!(CrateInfo::try_from_download_url("foo/1.0.0/download/"), None);
    assert_eq!(CrateInfo::try_from_download_url(""), None);
}

#[test]
fn crate_file_paths() {
    let id = CrateInfo::new("foo", "1.0.0");
    assert_eq!(id.to_file_name(), "foo-1.0.0.crate");
    assert_eq!(id.to_file_path(), "foo/foo-1.0.0.crate");
}

#[test]
fn crate_display_name() {
    assert_eq!(CrateInfo::new("foo", "1.0.0").display_name(), "foo v1.0.0");
}
