//! The shared-secret check made before a client's session exists.
use vstd::prelude::*;

verus! {

#[derive(Clone, Copy, Debug, PartialEq, Eq, Structural)]
pub enum AuthDecision {
    Allow,
    Deny,
}

/// The text held by an optional string.
pub open spec fn text_of(o: &Option<String>) -> Option<Seq<char>> {
    match o {
        Some(s) => Some(s@),
        None => None,
    }
}

/// The authorization header value that carries `secret`.
pub open spec fn bearer(secret: Seq<char>) -> Seq<char> {
    "Bearer "@ + secret
}

/// With no secret configured everyone is let in; otherwise a query token
/// equal to the secret, or a header `Bearer <secret>`, lets a client in.
pub open spec fn allows(
    token: Option<Seq<char>>,
    query: Option<Seq<char>>,
    header: Option<Seq<char>>,
) -> bool {
    match token {
        None => true,
        Some(t) => query == Some(t) || header == Some(bearer(t)),
    }
}

/// Decides whether a client that supplied `query_token` and the
/// authorization header `header` may open a session, given the configured
/// secret `token`.
pub fn check_auth(token: &Option<String>, query_token: &Option<String>, header: &Option<String>) -> (r:
    AuthDecision)
    ensures
        r is Allow <==> allows(text_of(token), text_of(query_token), text_of(header)),
{
    match token {
        None => AuthDecision::Allow,
        Some(expected) => {
            if let Some(q) = query_token {
                if q.eq(expected) {
                    return AuthDecision::Allow;
                }
            }
            if let Some(h) = header {
                let wanted = String::from_str("Bearer ").concat(expected.as_str());
                if h.eq(&wanted) {
                    return AuthDecision::Allow;
                }
            }
            AuthDecision::Deny
        },
    }
}

} // verus!
