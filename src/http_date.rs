//! HTTP dates (the `Last-Modified` / `If-Modified-Since` header values),
//! held as whole seconds since the Unix epoch.

use vstd::prelude::*;

verus! {

/// One past the last second that an HTTP date can name (the end of year 9999).
pub const HTTP_DATE_END: u64 = 253402300800;

/// The IMF-fixdate text of an instant, in whole seconds since the Unix epoch.
pub uninterp spec fn http_date_text(secs: u64) -> Seq<char>;

/// The instant, in whole seconds since the Unix epoch, that an HTTP date names,
/// if the text is one.
pub uninterp spec fn http_date_secs(text: Seq<char>) -> Option<u64>;

/// Relies on `httpdate::fmt_http_date`: the IMF-fixdate text of the instant.
/// It panics on instants from year 10000 on, which `requires` leaves out.
#[verifier::external_body]
pub(crate) fn format_http_date(secs: u64) -> (r: String)
    requires
        secs < HTTP_DATE_END,
    ensures
        r@ == http_date_text(secs),
{
    httpdate::fmt_http_date(std::time::UNIX_EPOCH + std::time::Duration::from_secs(secs))
}

/// Relies on `httpdate::parse_http_date`: the instant of an HTTP date in any of its
/// three formats. A date it accepts lies in years 1970 to 9999 and has no
/// fraction of a second.
#[verifier::external_body]
pub(crate) fn parse_http_date(text: &str) -> (r: Option<u64>)
    ensures
        r == http_date_secs(text@),
        r matches Some(t) ==> t < HTTP_DATE_END,
{
    match httpdate::parse_http_date(text) {
        Ok(t) => match t.duration_since(std::time::UNIX_EPOCH) {
            Ok(d) => Some(d.as_secs()),
            Err(_) => None,
        },
        Err(_) => None,
    }
}

} // verus!
