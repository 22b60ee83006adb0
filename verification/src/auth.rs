use vstd::prelude::*;
use crate::errors::{AuthError, FdwError, FetchError};

verus! {

/// Whether the bytes of a key string decode as service-account key material.
/// The outcome is fixed by the characters alone.
pub uninterp spec fn sa_key_wf(key: Seq<char>) -> bool;

/// Relies on yup_oauth2::ServiceAccountKey: the decoded key material, carried
/// opaquely from parsing to the authenticator that performs the exchange.
#[verifier::external_type_specification]
#[verifier::external_body]
pub struct ExServiceAccountKey(yup_oauth2::ServiceAccountKey);

/// Relies on yup_oauth2::parse_service_account_key: decodes JSON key material,
/// and succeeds exactly on well-formed key JSON.
#[verifier::external_body]
fn parse_sa_key_raw(key: &str) -> (r: Option<yup_oauth2::ServiceAccountKey>)
    ensures
        (r is Some) == sa_key_wf(key@),
{
    yup_oauth2::parse_service_account_key(key.as_bytes()).ok()
}

/// Parses raw service-account key material; key material that does not decode
/// is a malformed-key error. No retry happens at this layer.
pub fn parse_key(key: &str) -> (r: Result<yup_oauth2::ServiceAccountKey, AuthError>)
    ensures
        sa_key_wf(key@) ==> r is Ok,
        !sa_key_wf(key@) ==> r == Err::<yup_oauth2::ServiceAccountKey, AuthError>(
            AuthError::MalformedKey,
        ),
{
    match parse_sa_key_raw(key) {
        Some(k) => Ok(k),
        None => Err(AuthError::MalformedKey),
    }
}

/// What the blocking token exchange against the authority came to: either no
/// exchange succeeded, or the authority granted a token container whose token
/// string may still be absent.
pub enum TokenExchange {
    Refused,
    Granted(Option<String>),
}

/// Decides the outcome of credential acquisition: a refused exchange and a
/// granted-but-empty token container are distinct failures; only a granted,
/// present token string is a usable bearer token.
pub fn acquire_outcome(exchange: TokenExchange) -> (r: Result<String, AuthError>)
    ensures
        match exchange {
            TokenExchange::Refused => r == Err::<String, AuthError>(
                AuthError::TokenExchangeFailed,
            ),
            TokenExchange::Granted(t) => match t {
                None => r == Err::<String, AuthError>(AuthError::EmptyToken),
                Some(tok) => r == Ok::<String, AuthError>(tok),
            },
        },
{
    match exchange {
        TokenExchange::Refused => Err(AuthError::TokenExchangeFailed),
        TokenExchange::Granted(t) => match t {
            None => Err(AuthError::EmptyToken),
            Some(tok) => Ok(tok),
        },
    }
}

/// What the fetch pipeline came to after its retry budget: either no final
/// response at all, or a final response with its status code and raw body.
pub enum FetchEvent {
    NoResponse,
    Response(u16, Vec<u8>),
}

/// Decides the outcome of the fetch: no final response is a transport failure,
/// a final non-2xx status is reported with its code, and only a 2xx response
/// hands its body on to the parser.
pub fn fetch_outcome(event: FetchEvent) -> (r: Result<Vec<u8>, FdwError>)
    ensures
        match event {
            FetchEvent::NoResponse => r == Err::<Vec<u8>, FdwError>(
                FdwError::Fetch(FetchError::Transport),
            ),
            FetchEvent::Response(status, body) => if 200 <= status < 300 {
                r == Ok::<Vec<u8>, FdwError>(body)
            } else {
                r == Err::<Vec<u8>, FdwError>(FdwError::Fetch(FetchError::HttpStatus(status)))
            },
        },
{
    match event {
        FetchEvent::NoResponse => Err(FdwError::Fetch(FetchError::Transport)),
        FetchEvent::Response(status, body) => {
            if 200 <= status && status < 300 {
                Ok(body)
            } else {
                Err(FdwError::Fetch(FetchError::HttpStatus(status)))
            }
        },
    }
}

} // verus!
