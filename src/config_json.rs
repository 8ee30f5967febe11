//! The registry configuration file that points clients back at this proxy.

use vstd::prelude::*;

use crate::text::{chars_of, push_all, push_range, string_of};
use crate::url_text::{join_url, url_join_text};

verus! {

/// The proxy's settings that the request logic reads. URLs are held as the text
/// of absolute URLs.
#[derive(Debug)]
pub struct ProxyConfig {
    /// Root of the upstream sparse index.
    pub index_url: String,
    /// Upstream server of crate downloads.
    pub upstream_url: String,
    /// The URL under which clients reach this proxy.
    pub proxy_url: String,
    /// How long, in milliseconds, an index entry is served without asking upstream.
    pub cache_ttl: u64,
}

/// `"/index/"`, where the sparse index is served.
pub open spec fn crates_index_path() -> Seq<char> {
    seq!['/', 'i', 'n', 'd', 'e', 'x', '/']
}

/// `"/api/v1/crates/"`, where crate downloads are served.
pub open spec fn crates_api_path() -> Seq<char> {
    seq!['/', 'a', 'p', 'i', '/', 'v', '1', '/', 'c', 'r', 'a', 't', 'e', 's', '/']
}

/// `"config.json"`, the name of the registry configuration file.
pub open spec fn config_json_name() -> Seq<char> {
    seq!['c', 'o', 'n', 'f', 'i', 'g', '.', 'j', 's', 'o', 'n']
}

/// The characters of `"/index/"`.
pub fn crates_index_path_chars() -> (r: Vec<char>)
    ensures
        r@ == crates_index_path(),
{
    let r = vec!['/', 'i', 'n', 'd', 'e', 'x', '/'];
    assert(r@ =~= crates_index_path());
    r
}

/// The characters of `"/api/v1/crates/"`.
pub fn crates_api_path_chars() -> (r: Vec<char>)
    ensures
        r@ == crates_api_path(),
{
    let r = vec!['/', 'a', 'p', 'i', '/', 'v', '1', '/', 'c', 'r', 'a', 't', 'e', 's', '/'];
    assert(r@ =~= crates_api_path());
    r
}

/// `s` without the `/` characters it ends with.
pub open spec fn trim_end_slashes(s: Seq<char>) -> Seq<char>
    decreases s.len(),
{
    if s.len() > 0 && s.last() == '/' {
        trim_end_slashes(s.drop_last())
    } else {
        s
    }
}

/// `{"dl":"<dl>","api":"<api>"}`, each URL without its trailing slashes.
pub open spec fn config_json_of(dl: Seq<char>, api: Seq<char>) -> Seq<char> {
    seq!['{', '"', 'd', 'l', '"', ':', '"'] + trim_end_slashes(dl) + seq![
        '"',
        ',',
        '"',
        'a',
        'p',
        'i',
        '"',
        ':',
        '"',
    ] + trim_end_slashes(api) + seq!['"', '}']
}

/// Whether the index path names the registry configuration file.
pub fn is_config_json_url(index_url: &str) -> (r: bool)
    ensures
        r == (index_url@ == config_json_name()),
{
    let chars = chars_of(index_url);
    let name = vec!['c', 'o', 'n', 'f', 'i', 'g', '.', 'j', 's', 'o', 'n'];
    assert(name@ =~= config_json_name());
    if chars.len() != name.len() {
        return false;
    }
    let mut i: usize = 0;
    while i < name.len()
        invariant
            chars@.len() == name@.len(),
            chars@ == index_url@,
            name@ == config_json_name(),
            i <= name@.len(),
            forall|j: int| 0 <= j < i ==> chars@[j] == name@[j],
        decreases name@.len() - i,
    {
        if chars[i] != name[i] {
            assert(chars@[i as int] != name@[i as int]);
            return false;
        }
        i = i + 1;
    }
    assert(chars@ =~= name@);
    true
}

/// Appends `s` without its trailing slashes.
fn push_trimmed(out: &mut String, s: &str)
    ensures
        final(out)@ == old(out)@ + trim_end_slashes(s@),
{
    let chars = chars_of(s);
    let mut end = chars.len();
    assert(chars@.take(end as int) =~= s@);
    while end > 0 && chars[end - 1] == '/'
        invariant
            end <= chars@.len(),
            trim_end_slashes(chars@.take(end as int)) == trim_end_slashes(s@),
        decreases end,
    {
        assert(chars@.take(end as int).drop_last() =~= chars@.take(end - 1));
        end = end - 1;
    }
    proof {
        assert(chars@.take(chars@.len() as int) =~= s@);
        if end > 0 {
            assert(chars@.take(end as int).last() == chars@[end - 1]);
        }
        assert(trim_end_slashes(chars@.take(end as int)) == chars@.take(end as int));
        assert(chars@.subrange(0, end as int) =~= chars@.take(end as int));
    }
    push_range(out, &chars, 0, end);
}

/// The configuration document for the download URL `dl` and the API URL `api`.
pub fn format_config_json(dl: &str, api: &str) -> (r: String)
    ensures
        r@ == config_json_of(dl@, api@),
{
    let mut out = String::new();
    push_all(&mut out, &vec!['{', '"', 'd', 'l', '"', ':', '"']);
    push_trimmed(&mut out, dl);
    push_all(&mut out, &vec!['"', ',', '"', 'a', 'p', 'i', '"', ':', '"']);
    push_trimmed(&mut out, api);
    push_all(&mut out, &vec!['"', '}']);
    assert(out@ =~= config_json_of(dl@, api@));
    out
}

/// The registry configuration file: crate downloads go through this proxy's
/// download API, the API is the upstream server. `None` where the proxy URL
/// cannot take the download API path.
pub fn gen_config_json_file(config: &ProxyConfig) -> (r: Option<String>)
    ensures
        r matches Some(s) ==> (url_join_text(config.proxy_url@, crates_api_path()) matches Some(
            dl,
        ) && s@ == config_json_of(dl, config.upstream_url@)),
        r is None ==> url_join_text(config.proxy_url@, crates_api_path()) is None,
{
    let api_path = string_of(&crates_api_path_chars());
    match join_url(config.proxy_url.as_str(), api_path.as_str()) {
        Some(dl) => Some(format_config_json(dl.as_str(), config.upstream_url.as_str())),
        None => None,
    }
}

} // verus!
