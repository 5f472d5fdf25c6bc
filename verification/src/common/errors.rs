//! The flat error taxonomy of the client.

use vstd::prelude::*;

verus! {

/// `reqwest::Error`, the transport's own error. Nothing is known of what
/// it holds; it is carried through untouched.
#[verifier::external_type_specification]
#[verifier::external_body]
pub struct ExTransportError(reqwest::Error);

/// Everything that can go wrong between building a request and decoding
/// its response.
#[derive(Debug)]
#[allow(inconsistent_fields)]
pub enum HttpError {
    /// The client was configured with a timeout below one second.
    InvalidTimeout(u64),
    /// A read request was built without its query parameters. Nothing in
    /// this crate produces it.
    MissingQueryParams,
    /// The endpoint path could not be joined onto the base address.
    UrlParseError(String),
    /// A number search answered with an error payload. Nothing in this
    /// crate produces it: such a payload comes back as a `JsonError`.
    SearchItemError {
        number: String,
        message: String,
        status: String,
        dnd_active: bool,
        network: String,
        network_code: String,
    },
    /// The body did not have the expected shape; holds the status code and
    /// the raw body text.
    JsonError { status: usize, message: String },
    /// A number status query answered with an error payload. Nothing in
    /// this crate produces it: such a payload comes back as a `JsonError`.
    NetworkError(String),
    /// The transport failed: connection, DNS, TLS or timeout.
    Io(reqwest::Error),
}

/// A transport failure becomes the `Io` error that holds it.
impl From<reqwest::Error> for HttpError {
    fn from(error: reqwest::Error) -> (wrapped: HttpError) {
        HttpError::Io(error)
    }
}

impl vstd::std_specs::convert::FromSpecImpl<reqwest::Error> for HttpError {
    open spec fn obeys_from_spec() -> bool {
        true
    }

    open spec fn from_spec(error: reqwest::Error) -> HttpError {
        HttpError::Io(error)
    }
}

} // verus!
