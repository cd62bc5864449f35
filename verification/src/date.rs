//! The date header of outgoing requests.

use vstd::prelude::*;

verus! {

/// The text chrono writes for a moment, given in seconds since the Unix
/// epoch, in the GMT zone with the pattern `%a, %d %b %Y %X %Z`; `None` for a
/// moment outside chrono's range.
pub uninterp spec fn http_date_text(unix_seconds: int) -> Option<Seq<char>>;

/// A moment written the way the `Date` header and the signing string carry it.
#[derive(Debug)]
pub struct HttpDate {
    pub text: String,
}

impl HttpDate {
    /// The date text of a moment given in seconds since the Unix epoch.
    pub fn from_unix_seconds(unix_seconds: i64) -> (r: Option<HttpDate>)
        ensures
            match r {
                Some(d) => http_date_text(unix_seconds as int) == Some(d.text@),
                None => http_date_text(unix_seconds as int).is_none(),
            },
    {
        match format_gmt(unix_seconds) {
            Some(text) => Some(HttpDate { text }),
            None => None,
        }
    }

    /// A date that is already written out, such as the value of a received
    /// `Date` header.
    pub fn from_text(text: &str) -> (d: HttpDate)
        ensures
            d.text@ == text@,
    {
        HttpDate { text: text.to_owned() }
    }
}

/// Builds the moment with `chrono::DateTime::from_timestamp`, moves it to
/// `chrono_tz::Etc::GMT` and writes it with `format`. The outcome is the
/// named text.
#[verifier::external_body]
fn format_gmt(unix_seconds: i64) -> (r: Option<String>)
    ensures
        match r {
            Some(text) => http_date_text(unix_seconds as int) == Some(text@),
            None => http_date_text(unix_seconds as int).is_none(),
        },
{
    chrono::DateTime::from_timestamp(unix_seconds, 0).map(
        |utc| utc.with_timezone(&chrono_tz::Etc::GMT).format("%a, %d %b %Y %X %Z").to_string(),
    )
}

} // verus!
