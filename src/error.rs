//! The error taxonomy that every fallible operation funnels into.

use vstd::prelude::*;

verus! {

#[verifier::external_type_specification]
#[verifier::external_body]
pub struct ExParseError(url::ParseError);

/// One failure, carrying exactly one underlying cause.
#[derive(Debug)]
pub enum Error {
    /// A base location or a joined path did not parse as an absolute URL.
    UrlParse(url::ParseError),
    /// The transport failed (network, TLS, connection).
    Transport(String),
    /// A deadline elapsed while waiting for the response head or body.
    Timeout,
    /// The timer driving a deadline failed, as opposed to expiring.
    Timer(String),
    /// A status check found `received` where `expected` was asked for.
    UnexpectedStatus { received: u16, expected: u16 },
    /// The response declared a media type whose subtype is not `json`.
    NoJson,
    /// The payload was not a valid JSON document; the parser's message.
    Decode(String),
    /// A collaborator failure with no dedicated kind.
    Unknown(String),
}

} // verus!
