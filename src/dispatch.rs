//! Request dispatch: which endpoint an inbound request is for, and how an index
//! request is answered from the caches or sent upstream.

use vstd::prelude::*;

use crate::config_json::{
    config_json_name, config_json_of, crates_api_path, crates_api_path_chars, crates_index_path,
    crates_index_path_chars, gen_config_json_file, is_config_json_url, ProxyConfig,
};
use crate::crate_info::{parse_download_url, CrateInfo, CrateInfoView};
use crate::index_entry::{
    bare_entry, equivalent, expired, parse_index_url, with_mtime, IndexEntry, IndexEntryView,
};
use crate::http_date::HTTP_DATE_END;
use crate::response::{
    bare_view, error_response, index_file_response, index_view, json_response, json_view,
    not_modified_response, BodyView, ContentType, ProxyResponse, ResponseView,
};
use crate::text::{chars_of, has_prefix, string_from};
use crate::url_text::url_join_text;

verus! {

/// The endpoint an inbound request is for.
#[derive(Debug)]
pub enum Route {
    /// Not a `GET`: refused with `403`.
    Forbidden,
    /// No endpoint of the proxy: `404`.
    NotFound,
    /// The registry configuration file.
    ConfigJson,
    /// An index entry; the entry holds only the crate name.
    Index(IndexEntry),
    /// A crate download.
    Download(CrateInfo),
}

/// A route as plain values.
pub ghost enum RouteView {
    Forbidden,
    NotFound,
    ConfigJson,
    Index(IndexEntryView),
    Download(CrateInfoView),
}

impl View for Route {
    type V = RouteView;

    open spec fn view(&self) -> RouteView {
        match self {
            Route::Forbidden => RouteView::Forbidden,
            Route::NotFound => RouteView::NotFound,
            Route::ConfigJson => RouteView::ConfigJson,
            Route::Index(e) => RouteView::Index(e@),
            Route::Download(c) => RouteView::Download(c@),
        }
    }
}

/// Whether `s` starts with `p`.
pub open spec fn starts_with(s: Seq<char>, p: Seq<char>) -> bool {
    p.len() <= s.len() && s.take(p.len() as int) == p
}

/// The endpoint of a request: only `GET` is served; under `/index/` the
/// configuration file or an index entry, under `/api/v1/crates/` a crate download.
pub open spec fn route_of(is_get: bool, url: Seq<char>) -> RouteView {
    if !is_get {
        RouteView::Forbidden
    } else if starts_with(url, crates_index_path()) {
        let rest = url.skip(crates_index_path().len() as int);
        if rest == config_json_name() {
            RouteView::ConfigJson
        } else {
            match parse_index_url(rest) {
                Some(name) => RouteView::Index(bare_entry(name)),
                None => RouteView::NotFound,
            }
        }
    } else if starts_with(url, crates_api_path()) {
        match parse_download_url(url.skip(crates_api_path().len() as int)) {
            Some(c) => RouteView::Download(c),
            None => RouteView::NotFound,
        }
    } else {
        RouteView::NotFound
    }
}

/// The endpoint of a request with the given method (`is_get`) and URL path.
pub fn route_request(is_get: bool, url: &str) -> (r: Route)
    ensures
        r@ == route_of(is_get, url@),
{
    if !is_get {
        return Route::Forbidden;
    }
    let chars = chars_of(url);
    let index_path = crates_index_path_chars();
    let api_path = crates_api_path_chars();
    if has_prefix(&chars, &index_path) {
        let rest = string_from(&chars, index_path.len());
        if is_config_json_url(rest.as_str()) {
            return Route::ConfigJson;
        }
        match IndexEntry::try_from_index_url(rest.as_str()) {
            Some(e) => Route::Index(e),
            None => Route::NotFound,
        }
    } else if has_prefix(&chars, &api_path) {
        let rest = string_from(&chars, api_path.len());
        match CrateInfo::try_from_download_url(rest.as_str()) {
            Some(c) => Route::Download(c),
            None => Route::NotFound,
        }
    } else {
        Route::NotFound
    }
}

/// The answer to a request for the registry configuration file; `500` where the
/// proxy URL cannot take the download API path.
pub open spec fn config_json_view(proxy_url: Seq<char>, upstream_url: Seq<char>) -> ResponseView {
    match url_join_text(proxy_url, crates_api_path()) {
        Some(dl) => json_view(200, config_json_of(dl, upstream_url)),
        None => bare_view(500),
    }
}

/// The answer to a request for the registry configuration file.
pub fn config_json_response(config: &ProxyConfig) -> (r: ProxyResponse)
    ensures
        r@ == config_json_view(config.proxy_url@, config.upstream_url@),
{
    match gen_config_json_file(config) {
        Some(json) => json_response(200, json),
        None => error_response(500),
    }
}

/// The next step of answering an index request.
#[derive(Debug)]
pub enum IndexLookup {
    /// Send this response; the request is answered.
    Respond(ProxyResponse),
    /// Read the cached copy of this entry's file, then go on with `on_cached_index`.
    ReadCache(IndexEntry),
    /// Look for a cached file of the requested entry, then go on with `on_recovered`.
    Recover,
    /// Ask upstream with the validators of this entry, in a worker of its own.
    Fetch(IndexEntry),
}

/// A lookup step as plain values.
pub ghost enum IndexLookupView {
    Respond(ResponseView),
    ReadCache(IndexEntryView),
    Recover,
    Fetch(IndexEntryView),
}

impl View for IndexLookup {
    type V = IndexLookupView;

    open spec fn view(&self) -> IndexLookupView {
        match self {
            IndexLookup::Respond(r) => IndexLookupView::Respond(r@),
            IndexLookup::ReadCache(e) => IndexLookupView::ReadCache(e@),
            IndexLookup::Recover => IndexLookupView::Recover,
            IndexLookup::Fetch(e) => IndexLookupView::Fetch(e@),
        }
    }
}

/// The first step for an index request with the client's validators in
/// `requested`, given what the metadata cache holds for the crate: an expired entry
/// is refreshed upstream; one equivalent to the client's copy gives `304`; another
/// is served from its cache file if that can be read. With nothing cached, the
/// cache file is looked for.
pub open spec fn index_lookup_of(
    requested: IndexEntryView,
    cached: Option<IndexEntryView>,
    ttl: u64,
    now: u64,
) -> IndexLookupView {
    match cached {
        Some(c) => if expired(c, ttl, now) {
            IndexLookupView::Fetch(c)
        } else if equivalent(c, requested) {
            IndexLookupView::Respond(index_view(c, 304, None, BodyView::Empty))
        } else {
            IndexLookupView::ReadCache(c)
        },
        None => IndexLookupView::Recover,
    }
}

/// The first step for an index request; `ttl` and `now` are in milliseconds of
/// the monotonic clock that stamps entries.
pub fn plan_index_lookup(
    requested: &IndexEntry,
    cached: Option<IndexEntry>,
    ttl: u64,
    now: u64,
) -> (r: IndexLookup)
    ensures
        r@ == index_lookup_of(
            requested@,
            match cached {
                Some(c) => Some(c@),
                None => None,
            },
            ttl,
            now,
        ),
{
    match cached {
        Some(c) => {
            if c.is_expired_with_ttl(ttl, now) {
                IndexLookup::Fetch(c)
            } else if c.is_equivalent(requested) {
                IndexLookup::Respond(not_modified_response(&c))
            } else {
                IndexLookup::ReadCache(c)
            }
        },
        None => IndexLookup::Recover,
    }
}

/// After reading the cache file of a cached entry: its bytes are served with the
/// entry's validators; without them, upstream is asked with those validators.
pub open spec fn cached_index_of(cached: IndexEntryView, data: Option<Seq<u8>>) -> IndexLookupView {
    match data {
        Some(d) => IndexLookupView::Respond(
            index_view(cached, 200, Some(ContentType::IndexText), BodyView::Bytes(d)),
        ),
        None => IndexLookupView::Fetch(cached),
    }
}

/// The step after reading the cache file of a cached entry.
pub fn on_cached_index(cached: IndexEntry, data: Option<Vec<u8>>) -> (r: IndexLookup)
    ensures
        r@ == cached_index_of(
            cached@,
            match data {
                Some(d) => Some(d@),
                None => None,
            },
        ),
{
    match data {
        Some(d) => IndexLookup::Respond(index_file_response(&cached, d)),
        None => IndexLookup::Fetch(cached),
    }
}

/// The entry whose validators go upstream when nothing was cached in memory: one
/// rebuilt from the cache file's modification time (seconds since the Unix epoch)
/// where there is a file and its time can be an HTTP date, else a bare entry.
pub open spec fn recovered_of(name: Seq<char>, file_mtime: Option<u64>) -> IndexEntryView {
    match file_mtime {
        Some(t) => if t < HTTP_DATE_END {
            with_mtime(bare_entry(name), t)
        } else {
            bare_entry(name)
        },
        None => bare_entry(name),
    }
}

/// The entry to ask upstream with after looking for the cache file of `requested`.
pub fn on_recovered(requested: &IndexEntry, file_mtime: Option<u64>) -> (r: IndexEntry)
    ensures
        r@ == recovered_of(requested@.name, file_mtime),
{
    match file_mtime {
        Some(t) => match IndexEntry::with_file_mtime(requested.name(), t) {
            Some(e) => e,
            None => IndexEntry::new(requested.name()),
        },
        None => IndexEntry::new(requested.name()),
    }
}

} // verus!
