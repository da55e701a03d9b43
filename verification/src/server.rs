//! Gateway settings: the two tokens that guard it, how the client token is
//! chosen, the size of its thread pool, and its errors.
use vstd::prelude::*;

use crate::text::push_char;

verus! {

broadcast use vstd::utf8::is_ascii_chars_encode_utf8;

/// The tokens the gateway checks: `access_token` for users, `client_token`
/// for backend clients connecting on the websocket route.
pub struct AppState {
    pub access_token: String,
    pub client_token: String,
}

impl Clone for AppState {
    fn clone(&self) -> (r: Self)
        ensures
            r == *self,
    {
        AppState { access_token: self.access_token.clone(), client_token: self.client_token.clone() }
    }
}

/// Why the gateway could not run.
pub enum WebServerError {
    Io(String),
    Axum(String),
    InvalidAccessToken,
    InvalidClientToken,
}

impl WebServerError {
    /// The human-readable text of the error.
    pub fn message(&self) -> (s: String)
        ensures
            s@ == match self {
                WebServerError::Io(m) => "IO error: "@ + m@,
                WebServerError::Axum(m) => "Axum error: "@ + m@,
                WebServerError::InvalidAccessToken => "Invalid access token"@,
                WebServerError::InvalidClientToken => "Invalid client token"@,
            },
    {
        match self {
            WebServerError::Io(m) => {
                let mut s = String::from_str("IO error: ");
                s.append(m.as_str());
                s
            },
            WebServerError::Axum(m) => {
                let mut s = String::from_str("Axum error: ");
                s.append(m.as_str());
                s
            },
            WebServerError::InvalidAccessToken => String::from_str("Invalid access token"),
            WebServerError::InvalidClientToken => String::from_str("Invalid client token"),
        }
    }
}

/// The least length, in bytes, of a client token; generated tokens have
/// exactly this many characters.
pub const CLIENT_TOKEN_LEN: usize = 32;

/// An ASCII letter or digit.
pub open spec fn is_alphanumeric(c: char) -> bool {
    ('A' <= c <= 'Z') || ('a' <= c <= 'z') || ('0' <= c <= '9')
}

/// A random ASCII letter or digit, drawn through `rand::thread_rng()` and the
/// `rand::distributions::Alphanumeric` distribution, whose source picks from
/// the 62 letters and digits. Which one comes out is left open. The thread's
/// generator is seeded from the operating system on first use and rand
/// panics if the system cannot supply randomness at all, a failure of the
/// machine like running out of memory, which no `requires` can rule out.
#[verifier::external_body]
fn random_alphanumeric() -> (b: u8)
    ensures
        is_alphanumeric(b as char),
{
    rand::Rng::sample(&mut rand::thread_rng(), rand::distributions::Alphanumeric)
}

/// The text spelled by the bytes `drawn`, one character per byte.
pub fn token_from_bytes(drawn: &Vec<u8>) -> (s: String)
    ensures
        s@ == drawn@.map_values(|b: u8| b as char),
{
    let mut s = String::new();
    let mut i: usize = 0;
    while i < drawn.len()
        invariant
            i <= drawn@.len(),
            s@ =~= drawn@.take(i as int).map_values(|b: u8| b as char),
        decreases drawn@.len() - i,
    {
        push_char(&mut s, drawn[i] as char);
        i = i + 1;
    }
    assert(drawn@.take(drawn@.len() as int) =~= drawn@);
    s
}

/// A fresh random client token of `CLIENT_TOKEN_LEN` letters and digits.
pub fn generate_client_token() -> (s: String)
    ensures
        s@.len() == CLIENT_TOKEN_LEN,
        forall|i: int| 0 <= i < s@.len() ==> is_alphanumeric(#[trigger] s@[i]),
{
    let mut drawn: Vec<u8> = Vec::new();
    let mut i: usize = 0;
    while i < CLIENT_TOKEN_LEN
        invariant
            i <= CLIENT_TOKEN_LEN,
            drawn@.len() == i,
            forall|k: int| 0 <= k < drawn@.len() ==> is_alphanumeric(#[trigger] drawn@[k] as char),
        decreases CLIENT_TOKEN_LEN - i,
    {
        drawn.push(random_alphanumeric());
        i = i + 1;
    }
    let s = token_from_bytes(&drawn);
    assert forall|k: int| 0 <= k < s@.len() implies is_alphanumeric(#[trigger] s@[k]) by {
        assert(s@[k] == drawn@[k] as char);
    }
    s
}

/// The length in bytes of the UTF-8 encoding of `s`.
pub open spec fn byte_len(s: Seq<char>) -> nat {
    vstd::utf8::encode_utf8(s).len()
}

/// Accepts a client token of at least `CLIENT_TOKEN_LEN` bytes.
pub fn check_client_token(token: String) -> (r: Result<String, WebServerError>)
    ensures
        byte_len(token@) >= CLIENT_TOKEN_LEN ==> r == Ok::<String, WebServerError>(token),
        byte_len(token@) < CLIENT_TOKEN_LEN ==> r == Err::<String, WebServerError>(WebServerError::InvalidClientToken),
{
    if token.as_str().as_bytes().len() < CLIENT_TOKEN_LEN {
        Err(WebServerError::InvalidClientToken)
    } else {
        Ok(token)
    }
}

/// The client token the gateway runs with: the one given, or a fresh random
/// one, provided it is long enough. A generated token is always accepted.
pub fn resolve_client_token(given: Option<String>) -> (r: Result<String, WebServerError>)
    ensures
        given matches Some(t) ==> (byte_len(t@) >= CLIENT_TOKEN_LEN ==> r == Ok::<String, WebServerError>(t)),
        given matches Some(t) ==> (byte_len(t@) < CLIENT_TOKEN_LEN ==> r == Err::<String, WebServerError>(WebServerError::InvalidClientToken)),
        given is None ==> (r matches Ok(t) && t@.len() == CLIENT_TOKEN_LEN
            && forall|i: int| 0 <= i < t@.len() ==> is_alphanumeric(#[trigger] t@[i])),
{
    match given {
        Some(t) => check_client_token(t),
        None => {
            let t = generate_client_token();
            proof {
                assert(vstd::utf8::is_ascii_chars(t@));
            }
            check_client_token(t)
        },
    }
}

/// The number of processors available, through `num_cpus::get`, which
/// documents that it returns at least one. The count depends on the machine.
#[verifier::external_body]
fn available_cpus() -> (n: usize)
    ensures
        n >= 1,
{
    num_cpus::get()
}

/// The size of the worker pool for `cpus` processors: the requested size,
/// or else twice `cpus` when that fits a `usize`.
pub open spec fn pool_size(requested: Option<usize>, cpus: usize) -> Option<usize> {
    match requested {
        Some(k) => Some(k),
        None => if cpus * 2 <= usize::MAX { Some((cpus * 2) as usize) } else { None },
    }
}

/// The size of the worker pool: the requested size, or twice the number
/// `cpus` of processors; `None` when that double does not fit a `usize`.
pub fn worker_threads_for(requested: Option<usize>, cpus: usize) -> (n: Option<usize>)
    ensures
        n == pool_size(requested, cpus),
{
    match requested {
        Some(k) => Some(k),
        None => {
            if cpus <= usize::MAX / 2 {
                Some(cpus * 2)
            } else {
                None
            }
        },
    }
}

/// The size of the worker pool: the requested size, or twice the number of
/// processors of this machine; `None` when that double does not fit a `usize`.
pub fn worker_threads(requested: Option<usize>) -> (n: Option<usize>)
    ensures
        requested matches Some(k) ==> n == Some(k),
        requested is None ==> exists|cpus: usize| cpus >= 1 && n == #[trigger] pool_size(requested, cpus),
{
    match requested {
        Some(k) => Some(k),
        None => {
            let cpus = available_cpus();
            let n = worker_threads_for(None, cpus);
            assert(cpus >= 1 && n == pool_size(requested, cpus));
            n
        },
    }
}

/// The origins from which browsers may call the gateway.
pub enum AllowedOrigins {
    /// Any origin.
    Any,
    /// Exactly these origins.
    List(Vec<String>),
}

/// The cross-origin policy: the origins configured, or any origin when none
/// are; the methods GET, POST, PUT and DELETE; the headers `authorization`
/// and `content-type`.
pub struct CorsPolicy {
    pub origins: AllowedOrigins,
    pub methods: Vec<&'static str>,
    pub headers: Vec<&'static str>,
}

/// The cross-origin policy for the configured origins.
pub fn cors_policy(allow_origin: Option<Vec<String>>) -> (p: CorsPolicy)
    ensures
        match allow_origin {
            Some(list) => p.origins == AllowedOrigins::List(list),
            None => p.origins == AllowedOrigins::Any,
        },
        p.methods@.len() == 4,
        p.methods@[0]@ == "GET"@,
        p.methods@[1]@ == "POST"@,
        p.methods@[2]@ == "PUT"@,
        p.methods@[3]@ == "DELETE"@,
        p.headers@.len() == 2,
        p.headers@[0]@ == "authorization"@,
        p.headers@[1]@ == "content-type"@,
{
    let origins = match allow_origin {
        Some(list) => AllowedOrigins::List(list),
        None => AllowedOrigins::Any,
    };
    let mut methods: Vec<&'static str> = Vec::new();
    methods.push("GET");
    methods.push("POST");
    methods.push("PUT");
    methods.push("DELETE");
    let mut headers: Vec<&'static str> = Vec::new();
    headers.push("authorization");
    headers.push("content-type");
    CorsPolicy { origins, methods, headers }
}

/// The body of the answer to a request for an unknown route.
pub fn not_found_message(path: &str) -> (s: String)
    ensures
        s@ == path@ + " not found"@,
{
    let mut s = String::from_str(path);
    s.append(" not found");
    s
}

} // verus!
