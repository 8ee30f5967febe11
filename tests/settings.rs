use crates_io_proxy::settings::{log_level_name, select_listen_address, version_banner, ListenAddress};
use crates_io_proxy::ProxyConfig;

#[test]
fn listen_address_prefers_unix_socket() {
    assert_eq!(
        select_listen_address(Some("/run/p.sock".to_string()), "0.0.0.0:3080".to_string()),
        ListenAddress::UnixPath("/run/p.sock".to_string())
    );
    assert_eq!(
        select_listen_address(None, "0.0.0.0:3080".to_string()),
        ListenAddress::SocketAddr("0.0.0.0:3080".to_string())
    );
}

#[test]
fn log_levels() {
    assert_eq!(log_level_name(0), "warn");
    assert_eq!(log_level_name(1), "info");
    assert_eq!(log_level_name(2), "debug");
    assert_eq!(log_level_name(7), "trace");
}

#[test]
fn version_banners() {
    assert_eq!(version_banner("1.2.3", None, None, None), "crates-io-proxy 1.2.3");
    assert_eq!(version_banner("1.2.3", Some("7"), Some("abc"), None), "crates-io-proxy 1.2.3");
    assert_eq!(
        version_banner("1.2.3", Some("7"), Some("abc"), Some("main")),
        "crates-io-proxy 1.2.3+7.gabc.main"
    );
}

#[test]
fn ttl_in_milliseconds() {
    let c = ProxyConfig::new(String::new(), String::new(), String::new(), 3600);
    assert_eq!(c.cache_ttl, 3_600_000);
    let c = ProxyConfig::new(String::new(), String::new(), String::new(), u64::MAX);
    assert_eq!(c.cache_ttl, u64::MAX);
}
