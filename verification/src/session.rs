//! Identity sessions.
//!
//! A session token binds a session to a username. The binding itself is the
//! whole token: the HTTP layer transports it inside a signed and encrypted
//! cookie, so the core never needs to detect tampering — a token that fails
//! the cookie check simply never reaches `resolve`. Tokens are stateless:
//! there is no server-side session table, and revocation amounts to the
//! client discarding the cookie.

use vstd::prelude::*;

verus! {

/// The token that `issue` binds to a username.
pub open spec fn token_of(username: Seq<char>) -> Seq<char> {
    username
}

/// The username a token is bound to. A present token always resolves:
/// "not logged in" is represented by the absence of a token, not by an
/// invalid one.
pub open spec fn bound_username(token: Seq<char>) -> Seq<char> {
    token
}

/// Issue a session token bound to `username`.
pub fn issue(username: &str) -> (t: String)
    ensures
        t@ == token_of(username@),
{
    username.to_owned()
}

/// Resolve an optional session token to the username it is bound to.
/// Returns `None` exactly when no token was presented.
pub fn resolve(token: Option<&str>) -> (r: Option<String>)
    ensures
        r is Some <==> token is Some,
        token matches Some(t) ==> r matches Some(u) && u@ == bound_username(t@),
{
    match token {
        Some(t) => Some(t.to_owned()),
        None => None,
    }
}

/// A token issued for a username resolves back to that username.
pub proof fn lemma_issue_resolve_round_trip(username: Seq<char>)
    ensures
        bound_username(token_of(username)) == username,
{
}

} // verus!
