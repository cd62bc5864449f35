//! What a request brings with it: the profile that signs, the session, and
//! the parts of the request line the routes read.

use crate::activitypub::{LONG_ACCEPT_HEADER, SHORT_ACCEPT_HEADER};
use crate::activitypub::signature::Method;
use crate::crypto::{public_half, public_pem_of};
use crate::form::pair_views;
use crate::numeral::{parse_i64, parsed_i64};
use crate::queries::is_bad_request;
use crate::router::Access;
use crate::server::error::{bad_request, body_too_large, forbidden, ServerError, FORBIDDEN};
use crate::text::{
    contains_text, find_char, find_last_piece, find_piece, from_chars, index_from, last_piece,
    occurs_at, opt_text, piece, starts_at, text_contains, to_chars,
};
use vstd::prelude::*;
use vstd::string::*;

verus! {

/// A local profile as the session lists it.
#[derive(Debug)]
pub struct Profile {
    pub profile_id: i64,
    pub nickname: String,
}

/// The capability to sign as a local profile: its id, the domain it lives
/// on and its private key in PEM.
#[derive(Debug)]
pub struct CurrentProfile {
    pub profile_id: i64,
    pub domain: String,
    pub private_key_pem: String,
}

impl CurrentProfile {
    /// The capability to sign as profile `profile_id` with the key the store
    /// holds for it, or `None` where that key cannot be read.
    pub fn new(profile_id: i64, domain: &str, private_key_pem: &str) -> (r: Option<CurrentProfile>)
        ensures
            r.is_some() == public_half(private_key_pem@).is_some(),
            r matches Some(p) ==> p.profile_id == profile_id && p.domain@ == domain@
                && p.private_key_pem@ == private_key_pem@,
    {
        match public_pem_of(private_key_pem) {
            Some(_) => Some(
                CurrentProfile {
                    profile_id,
                    domain: domain.to_owned(),
                    private_key_pem: private_key_pem.to_owned(),
                },
            ),
            None => None,
        }
    }

    /// A copy of this capability.
    pub fn duplicate(&self) -> (p: CurrentProfile)
        ensures
            p == *self,
    {
        CurrentProfile {
            profile_id: self.profile_id,
            domain: self.domain.clone(),
            private_key_pem: self.private_key_pem.clone(),
        }
    }
}

/// The state of a request that nobody has logged in for.
#[derive(Debug)]
pub struct NoAuth;

/// The state of a request whose sender is logged in but has no profile yet.
#[derive(Debug)]
pub struct SetupPhase;

/// The state of a request whose sender is logged in and acts as a profile.
#[derive(Debug)]
pub struct SessionData {
    pub profiles: Vec<Profile>,
    pub current_profile: CurrentProfile,
}

/// The three states a request can be in, by what it knows of its sender.
pub trait AuthState {
    /// Whether this state carries a session.
    spec fn has_session(&self) -> bool;

    /// The session, where the state carries one.
    fn get(&self) -> (r: Option<&SessionData>)
        ensures
            r.is_some() == self.has_session(),
    ;
}

impl AuthState for SetupPhase {
    open spec fn has_session(&self) -> bool {
        false
    }

    fn get(&self) -> (r: Option<&SessionData>) {
        None
    }
}

impl AuthState for NoAuth {
    open spec fn has_session(&self) -> bool {
        false
    }

    fn get(&self) -> (r: Option<&SessionData>) {
        None
    }
}

impl AuthState for SessionData {
    open spec fn has_session(&self) -> bool {
        true
    }

    fn get(&self) -> (r: Option<&SessionData>)
        ensures
            r == Some(self),
    {
        Some(self)
    }
}

/// A request as the routes read it.
#[derive(Debug)]
pub struct ServerRequest {
    pub method: Method,
    pub path: String,
    pub query: Option<String>,
    pub accept: Option<String>,
    pub domain: String,
    pub body: String,
}

/// Whether an `Accept` header asks for an ActivityPub document: it holds
/// one of the two ActivityPub media types.
pub open spec fn asks_for_activity_json(accept: Option<Seq<char>>) -> bool {
    match accept {
        None => false,
        Some(h) => contains_text(h, LONG_ACCEPT_HEADER@) || contains_text(h, SHORT_ACCEPT_HEADER@),
    }
}

impl ServerRequest {
    /// The piece number `pos` of the path, counting from zero, when the
    /// path is parted at its slashes; a bad request with `message` where the
    /// path has fewer pieces.
    pub fn get_url_param(&self, pos: usize, message: &str) -> (r: Result<String, ServerError>)
        ensures
            match r {
                Ok(param) => piece(self.path@, '/', pos as nat) == Some(param@),
                Err(e) => piece(self.path@, '/', pos as nat).is_none() && is_bad_request(
                    e,
                    message@,
                ),
            },
    {
        let path = to_chars(self.path.as_str());
        match find_piece(&path, '/', pos) {
            Some((a, b)) => Ok(from_chars(&path, a, b)),
            None => Err(bad_request(message)),
        }
    }

    /// The piece number `pos` of the path, read as a number.
    ///
    /// A missing piece is a bad request with `message`; one that is no
    /// number is a bad request of its own.
    pub fn get_int_url_param(&self, pos: usize, message: &str) -> (r: Result<i64, ServerError>)
        ensures
            match piece(self.path@, '/', pos as nat) {
                None => r matches Err(e) && is_bad_request(e, message@),
                Some(param) => match parsed_i64(param) {
                    Some(n) => r == Ok::<i64, ServerError>(n),
                    None => r matches Err(e) && is_bad_request(
                        e,
                        "Invalid URL parameter provided"@,
                    ),
                },
            },
    {
        match self.get_url_param(pos, message) {
            Ok(param) => match parse_i64(param.as_str()) {
                Some(n) => Ok(n),
                None => Err(bad_request("Invalid URL parameter provided")),
            },
            Err(e) => Err(e),
        }
    }

    /// The last piece of the path.
    pub fn get_trailing_param(&self) -> (param: String)
        ensures
            param@ == last_piece(self.path@, '/'),
    {
        let path = to_chars(self.path.as_str());
        let start = find_last_piece(&path, '/');
        from_chars(&path, start, path.len())
    }

    /// Whether the request asks for an ActivityPub document rather than a
    /// page.
    pub fn is_ap_req(&self) -> (r: bool)
        ensures
            r == asks_for_activity_json(opt_text(self.accept)),
    {
        match &self.accept {
            None => false,
            Some(h) => text_contains(h.as_str(), LONG_ACCEPT_HEADER) || text_contains(
                h.as_str(),
                SHORT_ACCEPT_HEADER,
            ),
        }
    }
}

/// The longest body, in bytes, that a request may bring.
pub const BODY_LIMIT: usize = 65536;

/// Holds a body to the limit: a longer one is refused at once.
pub fn check_body_length(length: usize) -> (r: Result<(), ServerError>)
    ensures
        match r {
            Ok(_) => length <= BODY_LIMIT,
            Err(e) => length > BODY_LIMIT && is_bad_request(e, "Body was too large"@),
        },
{
    if length <= BODY_LIMIT {
        Ok(())
    } else {
        Err(body_too_large())
    }
}

/// The position of the first `"; "` at or after `from`, or the length of
/// the text when there is none.
pub open spec fn cookie_end(s: Seq<char>, from: int) -> int
    decreases s.len() - from,
{
    if from < 0 || from >= s.len() {
        s.len() as int
    } else if occurs_at(s, "; "@, from) {
        from
    } else {
        cookie_end(s, from + 1)
    }
}

/// The pair that a piece of a `Cookie` header gives: name and value around
/// its first `=`. A piece without one gives nothing.
pub open spec fn cookie_pair(piece: Seq<char>) -> Option<(Seq<char>, Seq<char>)> {
    let eq = index_from(piece, '=', 0);
    if eq < piece.len() {
        Some((piece.subrange(0, eq), piece.subrange(eq + 1, piece.len() as int)))
    } else {
        None
    }
}

/// The cookies of a `Cookie` header from position `from` on: one pair for
/// each piece between `"; "` that holds a `=`, in order.
pub open spec fn cookies_from(s: Seq<char>, from: int) -> Seq<(Seq<char>, Seq<char>)>
    decreases s.len() - from,
    via cookies_from_decreases
{
    if from < 0 || from > s.len() {
        Seq::empty()
    } else {
        let end = cookie_end(s, from);
        let head = match cookie_pair(s.subrange(from, end)) {
            Some(pair) => seq![pair],
            None => Seq::empty(),
        };
        if end >= s.len() {
            head
        } else {
            head + cookies_from(s, end + 2)
        }
    }
}

/// Where a piece of a `Cookie` header ends: not before it starts, and not
/// behind the end of the header.
pub proof fn lemma_cookie_end(s: Seq<char>, from: int)
    requires
        0 <= from <= s.len(),
    ensures
        from <= cookie_end(s, from) <= s.len(),
        cookie_end(s, from) < s.len() ==> cookie_end(s, from) + 2 <= s.len(),
    decreases s.len() - from,
{
    if from < s.len() && !occurs_at(s, "; "@, from) {
        lemma_cookie_end(s, from + 1);
    }
    if from < s.len() && occurs_at(s, "; "@, from) {
        reveal_strlit("; ");
    }
}

#[via_fn]
proof fn cookies_from_decreases(s: Seq<char>, from: int) {
    if 0 <= from <= s.len() {
        lemma_cookie_end(s, from);
    }
}

/// Reads the cookies of a `Cookie` header.
pub fn parse_cookies(header: &str) -> (r: Vec<(String, String)>)
    ensures
        pair_views(r@) == cookies_from(header@, 0),
{
    let v = to_chars(header);
    let sep = to_chars("; ");
    let mut out: Vec<(String, String)> = Vec::new();
    let mut from: usize = 0;
    assert(pair_views(out@) =~= Seq::<(Seq<char>, Seq<char>)>::empty());
    loop
        invariant
            from <= v@.len(),
            v@ == header@,
            sep@ == "; "@,
            cookies_from(v@, 0) == pair_views(out@) + cookies_from(v@, from as int),
        decreases v@.len() - from,
    {
        let mut end: usize = from;
        while end < v.len() && !starts_at(&v, &sep, end)
            invariant
                from <= end <= v@.len(),
                sep@ == "; "@,
                cookie_end(v@, from as int) == cookie_end(v@, end as int),
            decreases v@.len() - end,
        {
            end = end + 1;
        }
        proof {
            lemma_cookie_end(v@, from as int);
        }
        let piece_text = from_chars(&v, from, end);
        let piece = to_chars(piece_text.as_str());
        let eq = find_char(&piece, '=', 0);
        let ghost before = pair_views(out@);
        if eq < piece.len() {
            let name = from_chars(&piece, 0, eq);
            let value = from_chars(&piece, eq + 1, piece.len());
            out.push((name, value));
            assert(pair_views(out@) =~= before + seq![cookie_pair(piece@).unwrap()]);
        } else {
            assert(pair_views(out@) =~= before + Seq::<(Seq<char>, Seq<char>)>::empty());
        }
        if end >= v.len() {
            assert(cookies_from(v@, 0) =~= pair_views(out@));
            return out;
        }
        assert(cookies_from(v@, 0) =~= pair_views(out@) + cookies_from(v@, end + 2));
        from = end + 2;
    }
}

/// The value of the last cookie before position `upto` that has the name
/// `name`: where a name is given more than once, the last one counts.
pub open spec fn cookie_named(
    pairs: Seq<(Seq<char>, Seq<char>)>,
    name: Seq<char>,
    upto: int,
) -> Option<Seq<char>>
    decreases upto,
{
    if upto <= 0 {
        None
    } else if pairs[upto - 1].0 == name {
        Some(pairs[upto - 1].1)
    } else {
        cookie_named(pairs, name, upto - 1)
    }
}

/// Finds the value of a cookie by its name.
pub fn find_cookie(pairs: &Vec<(String, String)>, name: &str) -> (r: Option<String>)
    ensures
        crate::text::opt_text(r) == cookie_named(pair_views(pairs@), name@, pairs@.len() as int),
{
    let ghost views = pair_views(pairs@);
    let mut i: usize = pairs.len();
    while i > 0
        invariant
            i <= pairs@.len(),
            views == pair_views(pairs@),
            cookie_named(views, name@, pairs@.len() as int) == cookie_named(views, name@, i as int),
        decreases i,
    {
        assert(views[i - 1] == (pairs@[i - 1].0@, pairs@[i - 1].1@));
        if crate::text::same_text(pairs[i - 1].0.as_str(), name) {
            return Some(pairs[i - 1].1.clone());
        }
        i = i - 1;
    }
    None
}

/// Whether a request comes from somebody who is logged in.
#[derive(Debug, Clone, Copy, PartialEq, Eq, Structural)]
pub enum AuthStatus {
    Success,
    Failure,
}

/// Decides whether a request comes from somebody who is logged in: it must
/// bring a token, and the store must know that token.
pub fn authenticate(token: Option<&str>, token_is_known: bool) -> (r: AuthStatus)
    ensures
        r == if token.is_some() && token_is_known {
            AuthStatus::Success
        } else {
            AuthStatus::Failure
        },
{
    match token {
        Some(_) => if token_is_known {
            AuthStatus::Success
        } else {
            AuthStatus::Failure
        },
        None => AuthStatus::Failure,
    }
}

/// The profile that a logged-in caller acts as: the one its cookie names,
/// if the cookie holds a number, else the first profile there is.
pub fn current_profile_id(cookie: Option<&str>, first_profile: Option<i64>) -> (r: Option<i64>)
    ensures
        r == match cookie {
            Some(c) => match parsed_i64(c@) {
                Some(id) => Some(id),
                None => first_profile,
            },
            None => first_profile,
        },
{
    match cookie {
        Some(c) => match parse_i64(c) {
            Some(id) => Some(id),
            None => first_profile,
        },
        None => first_profile,
    }
}

/// Whether a logged-in caller has a profile to act as.
#[derive(Debug)]
pub enum SetupStatus {
    Complete(SessionData),
    Incomplete,
}

/// Decides whether a logged-in caller has a profile to act as.
pub fn has_passed_setup(profiles: Vec<Profile>, current_profile: Option<CurrentProfile>) -> (r:
    SetupStatus)
    ensures
        match current_profile {
            Some(p) => r matches SetupStatus::Complete(data) && data.current_profile == p
                && data.profiles == profiles,
            None => r is Incomplete,
        },
{
    match current_profile {
        Some(p) => SetupStatus::Complete(SessionData { profiles, current_profile: p }),
        None => SetupStatus::Incomplete,
    }
}

/// What becomes of a request before its route is run.
#[derive(Debug)]
pub enum MiddlewareResult {
    /// The route is run, as the profile given where the route needs one.
    Continue(Option<SessionData>),
    /// The caller is sent on to this path.
    Redirect(&'static str),
    /// The caller is refused.
    Finish(ServerError),
}

/// Holds a caller to what a route asks of it.
///
/// Anybody may call an open route. Any other route refuses a caller who is
/// not logged in; a route that needs a profile sends a caller who has none
/// on to the page that makes one.
pub fn require(needed: Access, auth: AuthStatus, setup: SetupStatus) -> (r: MiddlewareResult)
    ensures
        match needed {
            Access::Any => r matches MiddlewareResult::Continue(None),
            Access::Authenticated => match auth {
                AuthStatus::Success => r matches MiddlewareResult::Continue(None),
                AuthStatus::Failure => r matches MiddlewareResult::Finish(e) && e.status_code
                    == FORBIDDEN,
            },
            Access::FullSetup => match auth {
                AuthStatus::Failure => r matches MiddlewareResult::Finish(e) && e.status_code
                    == FORBIDDEN,
                AuthStatus::Success => match setup {
                    SetupStatus::Complete(data) => r matches MiddlewareResult::Continue(Some(d))
                        && d == data,
                    SetupStatus::Incomplete => r matches MiddlewareResult::Redirect(path)
                        && path@ == "/profiles/new"@,
                },
            },
        },
{
    match needed {
        Access::Any => MiddlewareResult::Continue(None),
        Access::Authenticated => match auth {
            AuthStatus::Success => MiddlewareResult::Continue(None),
            AuthStatus::Failure => MiddlewareResult::Finish(forbidden()),
        },
        Access::FullSetup => match auth {
            AuthStatus::Failure => MiddlewareResult::Finish(forbidden()),
            AuthStatus::Success => match setup {
                SetupStatus::Complete(data) => MiddlewareResult::Continue(Some(data)),
                SetupStatus::Incomplete => MiddlewareResult::Redirect("/profiles/new"),
            },
        },
    }
}

} // verus!
