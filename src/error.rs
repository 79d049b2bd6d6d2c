//! The errors that a request can end in.
use vstd::prelude::*;

verus! {

#[verifier::external_type_specification]
#[verifier::external_body]
pub struct ExParseError(url::ParseError);

#[verifier::external_type_specification]
#[verifier::external_body]
pub struct ExJsonError(serde_json::Error);

#[verifier::external_type_specification]
#[verifier::external_body]
pub struct ExJsonValue(serde_json::Value);

/// Why a request failed.
#[derive(Debug)]
pub enum ErrorKind {
    /// The request could not be sent or its response not read.
    Network(String),
    /// The request's URL could not be parsed.
    Url(url::ParseError),
    /// A body could not be encoded or decoded as JSON.
    Codec(serde_json::Error),
    /// The server answered with a status that is neither success nor
    /// "not modified", and this error payload.
    Fault { code: u16, error: serde_json::Value },
    /// The server's call quota is used up; it renews after this many seconds.
    RateLimit { reset: u64 },
    /// The server answered "not modified", and no cached response stands for
    /// the request.
    Cache,
}

} // verus!
