//! URL resolution on URL text.

use vstd::prelude::*;

verus! {

/// The serialization of `input` resolved against the URL whose text is `base`,
/// or `None` where `base` is no URL or the resolution fails.
pub uninterp spec fn url_join_text(base: Seq<char>, input: Seq<char>) -> Option<Seq<char>>;

/// Relies on `url::Url::join`: resolves `input` against `base`, the way a browser
/// resolves a link, and serializes the result. `url::Url::parse` only turns the
/// text of `base` into the `Url` that `join` takes.
#[verifier::external_body]
pub(crate) fn join_url(base: &str, input: &str) -> (r: Option<String>)
    ensures
        r matches Some(u) ==> url_join_text(base@, input@) == Some(u@),
        r is None ==> url_join_text(base@, input@) is None,
{
    match url::Url::parse(base) {
        Ok(b) => match b.join(input) {
            Ok(u) => Some(String::from(u)),
            Err(_) => None,
        },
        Err(_) => None,
    }
}

} // verus!
