//! URIs as the engine reads them: the text and the parts that hyper's parser
//! finds in it.

use crate::text::opt_text;
use vstd::prelude::*;

verus! {

/// Whether hyper's `Uri` parser accepts the text.
pub uninterp spec fn uri_is_valid(text: Seq<char>) -> bool;

/// The host that hyper's `Uri::host` reports for the text.
pub uninterp spec fn uri_host(text: Seq<char>) -> Option<Seq<char>>;

/// The path that hyper's `Uri::path` reports for the text.
pub uninterp spec fn uri_path(text: Seq<char>) -> Seq<char>;

/// The path and query that hyper's `Uri::path_and_query` reports for the text.
pub uninterp spec fn uri_path_and_query(text: Seq<char>) -> Option<Seq<char>>;

/// A URI with the parts the engine reads: what the signing string, the
/// request and the profile lookup are made of.
#[derive(Debug)]
pub struct Uri {
    /// The text as it was given.
    pub text: String,
    /// The host, when the URI has an authority.
    pub host: Option<String>,
    /// The path; empty when the URI has none.
    pub path: String,
    /// The path with its query, as it stands in a request line.
    pub path_and_query: Option<String>,
}

/// What a URI holds.
pub struct UriView {
    pub text: Seq<char>,
    pub host: Option<Seq<char>>,
    pub path: Seq<char>,
    pub path_and_query: Option<Seq<char>>,
}

impl View for Uri {
    type V = UriView;

    open spec fn view(&self) -> UriView {
        UriView {
            text: self.text@,
            host: opt_text(self.host),
            path: self.path@,
            path_and_query: opt_text(self.path_and_query),
        }
    }
}

/// The URI that hyper reads in a text it accepts.
pub open spec fn parsed_uri(text: Seq<char>) -> UriView {
    UriView {
        text,
        host: uri_host(text),
        path: uri_path(text),
        path_and_query: uri_path_and_query(text),
    }
}

impl Uri {
    /// Parses `text` as hyper does.
    pub fn parse(text: &str) -> (r: Option<Uri>)
        ensures
            r.is_some() == uri_is_valid(text@),
            r matches Some(u) ==> u@ == parsed_uri(text@),
    {
        parse_with_hyper(text)
    }

    /// A copy of this URI.
    pub fn duplicate(&self) -> (u: Uri)
        ensures
            u@ == self@,
    {
        Uri {
            text: self.text.clone(),
            host: self.host.clone(),
            path: self.path.clone(),
            path_and_query: self.path_and_query.clone(),
        }
    }
}

/// Parses with `hyper::Uri::from_str` and copies out what `Uri::host`,
/// `Uri::path` and `Uri::path_and_query` return. The contract claims only
/// that these outcomes are functions of the text: it names them and says
/// nothing of their values.
#[verifier::external_body]
fn parse_with_hyper(text: &str) -> (r: Option<Uri>)
    ensures
        r.is_some() == uri_is_valid(text@),
        r matches Some(u) ==> u.text@ == text@ && opt_text(u.host) == uri_host(text@) && u.path@
            == uri_path(text@) && opt_text(u.path_and_query) == uri_path_and_query(text@),
{
    match text.parse::<hyper::Uri>() {
        Ok(uri) => Some(
            Uri {
                text: text.to_owned(),
                host: uri.host().map(|h| h.to_owned()),
                path: uri.path().to_owned(),
                path_and_query: uri.path_and_query().map(|p| p.as_str().to_owned()),
            },
        ),
        Err(_) => None,
    }
}

} // verus!
