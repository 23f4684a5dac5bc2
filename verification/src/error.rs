//! The error type of the client.

use vstd::prelude::*;

use crate::client::Span;

verus! {

/// The transport error of the HTTP client, carried through unchanged.
#[verifier::external_type_specification]
#[verifier::external_body]
pub struct ExTransportError(reqwest::Error);

/// Anything that can go wrong talking to Granite.
///
/// `Status` keeps the HTTP code and body so a caller can tell an auth failure
/// from a missing record from a bad body; `Decode` carries the decoder's
/// message so a contract drift (notably an unknown approval status) surfaces
/// as a real error rather than a silent default.
#[derive(Debug)]
pub enum GraniteError {
    /// The HTTP request itself failed (connect, timeout, TLS).
    Http(reqwest::Error),
    /// Granite answered with a status outside `200..300`.
    Status {
        /// The HTTP status code.
        status: u16,
        /// The response body (often a JSON error message).
        body: String,
    },
    /// The response body did not match the expected wire type.
    Decode(String),
    /// Awaiting a decision gave up before the request reached a terminal
    /// state; the request itself is unaffected and can be awaited again.
    Timeout(Span),
    /// An approval minted in one trust environment was presented in another.
    EnvironmentMismatch {
        /// The environment the caller is running in.
        expected: String,
        /// The environment the approval was actually minted in.
        found: String,
    },
}

} // verus!
