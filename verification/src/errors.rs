use vstd::prelude::*;

verus! {

/// Failures of the credential acquisition step.
#[derive(Debug, Clone, PartialEq, Eq)]
pub enum AuthError {
    /// The service-account key material could not be decoded.
    MalformedKey,
    /// The authority rejected the exchange or the transport failed.
    TokenExchangeFailed,
    /// The authority answered, but the token container held no token string.
    EmptyToken,
}

/// Failures of the fetch step, after the retry budget is spent.
#[derive(Debug, Clone, PartialEq, Eq)]
pub enum FetchError {
    /// A network-level failure: no final response was obtained.
    Transport,
    /// A final response arrived with the given non-2xx status code.
    HttpStatus(u16),
}

/// Failures of the response-envelope parsing step.
#[derive(Debug, Clone, PartialEq, Eq)]
pub enum ParseError {
    /// The body does not begin with the fixed anti-hijacking sentinel.
    UnexpectedFormat,
    /// The text after the sentinel is not valid JSON.
    InvalidJson,
    /// The decoded tree has no array at the fixed row path.
    MissingRows,
}

/// Failures of the per-cell type coercion, carrying the 1-based ordinal of the
/// column at fault.
#[derive(Debug, Clone, PartialEq, Eq)]
pub enum TypeError {
    /// The column's declared type is one the connector cannot produce at all.
    UnsupportedColumnType(usize),
    /// A present source value does not fit the column's declared type.
    UnsupportedConversion(usize),
}

/// Lifecycle calls the connector refuses outright.
#[derive(Debug, Clone, PartialEq, Eq)]
pub enum UnsupportedOperation {
    /// Rewinding a scan: the fetch model is single-shot per scan.
    ReScan,
    /// The write path.
    Modify,
}

/// Any failure a lifecycle call can surface to the host.
#[derive(Debug, Clone, PartialEq, Eq)]
pub enum FdwError {
    Auth(AuthError),
    Fetch(FetchError),
    Parse(ParseError),
    Type(TypeError),
    /// A required option was not supplied; carries the option's key.
    MissingOption(String),
    Unsupported(UnsupportedOperation),
}

} // verus!
