//! What a fetch worker does with upstream's answer: which bytes to cache, and
//! what the client receives.

use vstd::prelude::*;

use crate::dispatch::{index_lookup_of, IndexLookupView};
use crate::index_entry::{equivalent, expired, IndexEntry, IndexEntryView};
use crate::response::{
    bare_view, crate_data_response, error_response, index_data_response, index_file_response,
    index_view, not_modified_response, BodyView, ContentType, ProxyResponse, ResponseView,
};
use crate::upstream::{
    conditional_of, fetch_error_response, fetch_error_view, FetchError, FetchErrorView,
    IndexResponse,
};
use crate::http_date::http_date_text;

verus! {

/// The answer to a crate download: the archive, or the fetch error.
pub fn crate_fetched_response(result: Result<Vec<u8>, FetchError>) -> (r: ProxyResponse)
    ensures
        match result {
            Ok(d) => r@ == (ResponseView {
                status: 200,
                content_type: Some(ContentType::CrateFile),
                etag: None,
                last_modified: None,
                body: BodyView::Bytes(d@),
            }),
            Err(e) => r@ == fetch_error_view(e@),
        },
{
    match result {
        Ok(d) => crate_data_response(d),
        Err(e) => fetch_error_response(e),
    }
}

/// Whether the body of upstream's answer goes to the index cache: only new
/// contents, status `200`.
pub fn stores_fetched_body(response: &IndexResponse) -> (r: bool)
    ensures
        r == (response.status == 200),
{
    response.status == 200
}

/// The index worker's next step once upstream has answered.
#[derive(Debug)]
pub enum FetchedReply {
    /// Send this response.
    Respond(ProxyResponse),
    /// Serve the cache file of this entry, with `cached_index_reply`.
    FromCache(IndexEntry),
}

/// A fetched reply as plain values.
pub ghost enum FetchedReplyView {
    Respond(ResponseView),
    FromCache(IndexEntryView),
}

impl View for FetchedReply {
    type V = FetchedReplyView;

    open spec fn view(&self) -> FetchedReplyView {
        match self {
            FetchedReply::Respond(r) => FetchedReplyView::Respond(r@),
            FetchedReply::FromCache(e) => FetchedReplyView::FromCache(e@),
        }
    }
}

/// Once upstream answered with `entry`, `status` and `data`: where the answer's
/// validators match the client's copy, `304`; new contents are passed on with
/// upstream's status; otherwise (upstream said `304`) the client gets the cache file.
pub open spec fn fetched_reply_of(
    requested: IndexEntryView,
    entry: IndexEntryView,
    status: u16,
    data: Seq<u8>,
) -> FetchedReplyView {
    if equivalent(entry, requested) {
        FetchedReplyView::Respond(index_view(entry, 304, None, BodyView::Empty))
    } else if status == 200 {
        FetchedReplyView::Respond(
            index_view(entry, status, Some(ContentType::IndexText), BodyView::Bytes(data)),
        )
    } else {
        FetchedReplyView::FromCache(entry)
    }
}

/// The index worker's next step once upstream has answered; `requested` holds the
/// client's validators.
pub fn fetched_reply(requested: &IndexEntry, response: IndexResponse) -> (r: FetchedReply)
    ensures
        r@ == fetched_reply_of(requested@, response.entry@, response.status, response.data@),
{
    if response.entry.is_equivalent(requested) {
        FetchedReply::Respond(not_modified_response(&response.entry))
    } else if response.status == 200 {
        FetchedReply::Respond(index_data_response(&response.entry, response.status, response.data))
    } else {
        FetchedReply::FromCache(response.entry)
    }
}

/// What the client gets after upstream confirmed the cached copy.
#[derive(Debug)]
pub enum CachedReply {
    /// The cached bytes.
    Serve(ProxyResponse),
    /// The cache file is gone: forget the entry in the metadata cache and send
    /// this response, so that the client asks again.
    Lost(ProxyResponse),
}

/// The cached bytes with the validators of `entry`, or `503` where they are gone.
pub open spec fn cached_reply_of(entry: IndexEntryView, data: Option<Seq<u8>>) -> (bool, ResponseView) {
    match data {
        Some(d) => (false, index_view(entry, 200, Some(ContentType::IndexText), BodyView::Bytes(d))),
        None => (true, bare_view(503)),
    }
}

/// What the client gets after upstream confirmed the cached copy, given the
/// bytes read from the cache file.
pub fn cached_index_reply(entry: &IndexEntry, data: Option<Vec<u8>>) -> (r: CachedReply)
    ensures
        cached_reply_of(
            entry@,
            match data {
                Some(d) => Some(d@),
                None => None,
            },
        ) == (match r {
            CachedReply::Serve(resp) => (false, resp@),
            CachedReply::Lost(resp) => (true, resp@),
        }),
{
    match data {
        Some(d) => CachedReply::Serve(index_file_response(entry, d)),
        None => CachedReply::Lost(error_response(503)),
    }
}

/// Whether a failed index fetch looks at the cache before answering: only when
/// upstream could not be reached.
pub fn reads_cache_on_failure(error: &FetchError) -> (r: bool)
    ensures
        r == (error@ is Transport),
{
    match error {
        FetchError::Transport(_) => true,
        FetchError::Upstream { .. } => false,
    }
}

/// The answer to a failed index fetch: where upstream could not be reached and the
/// cache holds bytes, those bytes with `200` and the client's validators; else the
/// fetch error.
pub open spec fn failed_reply_of(
    requested: IndexEntryView,
    error: FetchErrorView,
    cached: Option<Seq<u8>>,
) -> ResponseView {
    match (error, cached) {
        (FetchErrorView::Transport(_), Some(d)) => index_view(
            requested,
            200,
            Some(ContentType::IndexText),
            BodyView::Bytes(d),
        ),
        _ => fetch_error_view(error),
    }
}

/// The answer to a failed index fetch, given the bytes read from the cache file
/// where `reads_cache_on_failure` asked for them.
pub fn failed_index_reply(requested: &IndexEntry, error: FetchError, cached: Option<Vec<u8>>) -> (r:
    ProxyResponse)
    ensures
        r@ == failed_reply_of(
            requested@,
            error@,
            match cached {
                Some(d) => Some(d@),
                None => None,
            },
        ),
{
    match (error, cached) {
        (FetchError::Transport(_), Some(d)) => index_file_response(requested, d),
        (error, _) => fetch_error_response(error),
    }
}

/// An index entry cached within its time to live whose validators the client
/// already holds is answered with `304` and nothing else: no cache file is read
/// and upstream is not asked. The cached entry must carry a validator.
pub proof fn lemma_fresh_cache_hit(
    requested: IndexEntryView,
    cached: IndexEntryView,
    ttl: u64,
    now: u64,
)
    requires
        !expired(cached, ttl, now),
        cached.etag is Some || cached.mtime is Some,
        requested.etag == cached.etag,
        requested.mtime == cached.mtime,
    ensures
        index_lookup_of(requested, Some(cached), ttl, now) == IndexLookupView::Respond(
            index_view(cached, 304, None, BodyView::Empty),
        ),
{
}

/// An expired cached entry is refreshed upstream with its own validators, sending
/// the entity tag where it has one and the modification time otherwise.
pub proof fn lemma_expired_revalidates(
    requested: IndexEntryView,
    cached: IndexEntryView,
    ttl: u64,
    now: u64,
)
    requires
        expired(cached, ttl, now),
    ensures
        index_lookup_of(requested, Some(cached), ttl, now) == IndexLookupView::Fetch(cached),
        cached.etag matches Some(t) ==> conditional_of(cached) == Some((true, t)),
        cached.etag is None ==> (cached.mtime matches Some(m) ==> conditional_of(cached) == Some(
            (false, http_date_text(m)),
        )),
{
}

/// When upstream cannot be reached and the cache file holds bytes, the client gets
/// those bytes with `200`.
pub proof fn lemma_stale_on_transport_error(
    requested: IndexEntryView,
    why: Seq<char>,
    cached: Seq<u8>,
)
    ensures
        failed_reply_of(requested, FetchErrorView::Transport(why), Some(cached)).status == 200,
        failed_reply_of(requested, FetchErrorView::Transport(why), Some(cached)).body
            == BodyView::Bytes(cached),
{
}

} // verus!
