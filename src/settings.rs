//! Startup decisions: where to listen, how much to log, the version banner and
//! the cache time to live.

use vstd::prelude::*;

use crate::config_json::ProxyConfig;
use crate::text::{chars_of, push_all};

verus! {

/// Where the server listens.
#[derive(Debug, PartialEq, Eq)]
pub enum ListenAddress {
    /// An IP address and port, `host:port`.
    SocketAddr(String),
    /// The path of a Unix domain socket.
    UnixPath(String),
}

/// The listen address: the Unix socket path where one is given, else the TCP address.
pub fn select_listen_address(unix_path: Option<String>, socket_addr: String) -> (r: ListenAddress)
    ensures
        match unix_path {
            Some(p) => r matches ListenAddress::UnixPath(q) && q@ == p@,
            None => r matches ListenAddress::SocketAddr(a) && a@ == socket_addr@,
        },
{
    match unix_path {
        Some(p) => ListenAddress::UnixPath(p),
        None => ListenAddress::SocketAddr(socket_addr),
    }
}

/// The log filter for the number of `--verbose` flags given.
pub open spec fn log_level_of(verbose: u32) -> Seq<char> {
    if verbose == 0 {
        "warn"@
    } else if verbose == 1 {
        "info"@
    } else if verbose == 2 {
        "debug"@
    } else {
        "trace"@
    }
}

/// The log filter for the number of `--verbose` flags given.
pub fn log_level_name(verbose: u32) -> (r: &'static str)
    ensures
        r@ == log_level_of(verbose),
{
    match verbose {
        0 => "warn",
        1 => "info",
        2 => "debug",
        _ => "trace",
    }
}

/// `"crates-io-proxy "`, the start of the version banner.
pub open spec fn banner_head() -> Seq<char> {
    seq!['c', 'r', 'a', 't', 'e', 's', '-', 'i', 'o', '-', 'p', 'r', 'o', 'x', 'y', ' ']
}

/// The version banner: `crates-io-proxy <version>`, followed by
/// `+<build>.g<rev>.<tag>` where all three build details are known.
pub open spec fn version_banner_of(
    version: Seq<char>,
    build: Option<Seq<char>>,
    rev: Option<Seq<char>>,
    tag: Option<Seq<char>>,
) -> Seq<char> {
    match (build, rev, tag) {
        (Some(b), Some(r), Some(t)) => banner_head() + version + seq!['+'] + b + seq!['.', 'g'] + r
            + seq!['.'] + t,
        _ => banner_head() + version,
    }
}

/// The version banner.
pub fn version_banner(version: &str, build: Option<&str>, rev: Option<&str>, tag: Option<&str>) -> (r:
    String)
    ensures
        r@ == version_banner_of(
            version@,
            match build {
                Some(s) => Some(s@),
                None => None,
            },
            match rev {
                Some(s) => Some(s@),
                None => None,
            },
            match tag {
                Some(s) => Some(s@),
                None => None,
            },
        ),
{
    let mut out = String::new();
    let head = vec!['c', 'r', 'a', 't', 'e', 's', '-', 'i', 'o', '-', 'p', 'r', 'o', 'x', 'y', ' '];
    push_all(&mut out, &head);
    push_all(&mut out, &chars_of(version));
    if let (Some(b), Some(r), Some(t)) = (build, rev, tag) {
        out.push('+');
        push_all(&mut out, &chars_of(b));
        out.push('.');
        out.push('g');
        push_all(&mut out, &chars_of(r));
        out.push('.');
        push_all(&mut out, &chars_of(t));
    }
    assert(out@ =~= version_banner_of(
        version@,
        match build {
            Some(s) => Some(s@),
            None => None,
        },
        match rev {
            Some(s) => Some(s@),
            None => None,
        },
        match tag {
            Some(s) => Some(s@),
            None => None,
        },
    ));
    out
}

impl ProxyConfig {
    /// Settings with the given URLs and a time to live given in seconds, held in
    /// milliseconds (the largest `u64` where the product does not fit).
    pub fn new(index_url: String, upstream_url: String, proxy_url: String, cache_ttl_secs: u64) -> (r:
        ProxyConfig)
        ensures
            r.index_url@ == index_url@,
            r.upstream_url@ == upstream_url@,
            r.proxy_url@ == proxy_url@,
            r.cache_ttl == (if cache_ttl_secs * 1000 <= u64::MAX {
                cache_ttl_secs * 1000
            } else {
                u64::MAX as int
            }),
    {
        let cache_ttl = if cache_ttl_secs <= u64::MAX / 1000 {
            cache_ttl_secs * 1000
        } else {
            u64::MAX
        };
        ProxyConfig { index_url, upstream_url, proxy_url, cache_ttl }
    }
}

} // verus!
