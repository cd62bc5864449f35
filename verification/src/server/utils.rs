//! Small things the server needs on its way.

use vstd::prelude::*;
use vstd::string::*;

verus! {

/// The attributes every cookie is set with.
pub const COOKIE_ATTRIBUTES: &'static str = "; SameSite=Lax; Secure; HttpOnly; Path=/";

/// The value of a `Set-Cookie` header: the pair, then the attributes that
/// keep the cookie to this site, to HTTPS and away from scripts.
pub open spec fn cookie_text(key: Seq<char>, value: Seq<char>) -> Seq<char> {
    key + "="@ + value + COOKIE_ATTRIBUTES@
}

/// Writes the value of a `Set-Cookie` header.
pub fn make_cookie(key: &str, value: &str) -> (s: String)
    ensures
        s@ == cookie_text(key@, value@),
{
    let mut s = key.to_owned();
    s.append("=");
    s.append(value);
    s.append(COOKIE_ATTRIBUTES);
    s
}

} // verus!
