//! Who may use the gateway: users present the access token, backend clients
//! present the client token on the websocket route, both as bearer tokens.
use vstd::prelude::*;

use crate::server::AppState;
use crate::text::str_eq;

verus! {

/// Why a request was turned away.
#[derive(Clone, Copy, Debug, PartialEq, Eq, Structural)]
pub enum AuthError {
    MissingAuthorizationHeader,
    InvalidAccessToken,
}

/// HTTP status 401 Unauthorized.
pub const UNAUTHORIZED: u16 = 401;

impl AuthError {
    /// The HTTP status of the answer to a refused request.
    pub fn status(&self) -> (s: u16)
        ensures
            s == UNAUTHORIZED,
    {
        UNAUTHORIZED
    }

    /// The text of the answer to a refused request.
    pub fn message(&self) -> (s: String)
        ensures
            s@ == match self {
                AuthError::MissingAuthorizationHeader => "Missing Authorization header"@,
                AuthError::InvalidAccessToken => "Invalid access token"@,
            },
    {
        match self {
            AuthError::MissingAuthorizationHeader => String::from_str("Missing Authorization header"),
            AuthError::InvalidAccessToken => String::from_str("Invalid access token"),
        }
    }
}

/// The scheme word that precedes a token in an `Authorization` header.
pub open spec fn bearer_prefix() -> Seq<char> {
    seq!['B', 'e', 'a', 'r', 'e', 'r', ' ']
}

/// The token of a bearer `Authorization` header value, if it is one.
pub open spec fn bearer_token(h: Seq<char>) -> Option<Seq<char>> {
    if h.len() >= 7 && h.subrange(0, 7) == bearer_prefix() {
        Some(h.subrange(7, h.len() as int))
    } else {
        None
    }
}

/// The route on which backend clients connect.
pub open spec fn ws_path() -> Seq<char> {
    seq!['/', 'w', 's']
}

/// The token that a request for `path` must present.
pub open spec fn expected_token(state: AppState, path: Seq<char>) -> Seq<char> {
    if path == ws_path() { state.client_token@ } else { state.access_token@ }
}

/// Strips the bearer scheme off an `Authorization` header value.
pub fn extract_bearer(header: &str) -> (r: Option<&str>)
    ensures
        match bearer_token(header@) {
            Some(t) => r matches Some(s) && s@ == t,
            None => r is None,
        },
{
    proof {
        reveal_strlit("Bearer ");
        assert("Bearer "@ =~= bearer_prefix());
    }
    let n = header.unicode_len();
    if n < 7 {
        return None;
    }
    let head = header.substring_char(0, 7);
    if str_eq(head, "Bearer ") {
        Some(header.substring_char(7, n))
    } else {
        None
    }
}

/// Whether a request for `path` may go through, `authorization` being the
/// value of its `Authorization` header (`None` when it is absent or not text).
pub fn check_authorization(state: &AppState, path: &str, authorization: Option<&str>) -> (r: Result<(), AuthError>)
    ensures
        match authorization {
            None => r == Err::<(), AuthError>(AuthError::MissingAuthorizationHeader),
            Some(h) => match bearer_token(h@) {
                None => r == Err::<(), AuthError>(AuthError::MissingAuthorizationHeader),
                Some(t) => if t == expected_token(*state, path@) {
                    r == Ok::<(), AuthError>(())
                } else {
                    r == Err::<(), AuthError>(AuthError::InvalidAccessToken)
                },
            },
        },
{
    let token = match authorization {
        None => { return Err(AuthError::MissingAuthorizationHeader); },
        Some(h) => match extract_bearer(h) {
            None => { return Err(AuthError::MissingAuthorizationHeader); },
            Some(t) => t,
        },
    };
    proof {
        reveal_strlit("/ws");
        assert("/ws"@ =~= ws_path());
    }
    if str_eq(path, "/ws") {
        if !str_eq(token, state.client_token.as_str()) {
            return Err(AuthError::InvalidAccessToken);
        }
    } else if !str_eq(token, state.access_token.as_str()) {
        return Err(AuthError::InvalidAccessToken);
    }
    Ok(())
}

/// Users and backend clients are told apart by route alone: on the websocket
/// route only the client token is accepted, elsewhere only the access token,
/// so when the two tokens differ neither opens the other's door.
pub proof fn lemma_tokens_not_interchangeable(state: AppState, path: Seq<char>, token: Seq<char>)
    requires
        state.access_token@ != state.client_token@,
        token == expected_token(state, path),
    ensures
        path == ws_path() ==> token != state.access_token@,
        path != ws_path() ==> token != state.client_token@,
{
}

} // verus!
