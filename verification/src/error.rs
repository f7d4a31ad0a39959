//! The one error type every operation of the library reports.

use crate::api::ApiError;
use vstd::prelude::*;

verus! {

/// A failure of the connection, as `hyper` reports it.
#[verifier::external_type_specification]
#[verifier::external_body]
pub struct ExTransportError(hyper::Error);

/// A request that could not be put together, as `http` reports it.
#[verifier::external_type_specification]
#[verifier::external_body]
pub struct ExRequestError(hyper::http::Error);

/// A URL that `http` does not accept.
#[verifier::external_type_specification]
#[verifier::external_body]
pub struct ExInvalidUri(hyper::http::uri::InvalidUri);

/// A failure to write parameters as a query string.
#[verifier::external_type_specification]
#[verifier::external_body]
pub struct ExParamsError(serde_url_params::Error);

/// A failure to write or read JSON.
#[verifier::external_type_specification]
#[verifier::external_body]
pub struct ExJsonError(serde_json::Error);

/// Everything that can go wrong between asking for an operation and holding
/// its result.
#[derive(Debug)]
pub enum ClientError {
    /// The server could not be reached, or the connection broke.
    Client(hyper::Error),
    /// The request could not be constructed.
    Connection(hyper::http::Error),
    /// The server answered and rejected the request.
    Api(ApiError),
    /// The URL assembled for the request is malformed.
    Uri(hyper::http::uri::InvalidUri),
    /// Parameters could not be written as a query string.
    Params(serde_url_params::Error),
    /// A body could not be written as JSON, or a reply could not be read.
    JsonError(serde_json::Error),
    /// The server's reply lacks the document it was asked to return.
    Insertion(String),
    /// A value failed a check of the caller's before any request was built.
    Validation(String),
}

pub type Result<T> = std::result::Result<T, ClientError>;

/// Renders a `ClientError` with the alternate form of its derived `Debug`.
/// Nothing is claimed of the text: it is whatever the errors held inside
/// print.
#[verifier::external_body]
fn inspect(error: &ClientError) -> (text: String) {
    format!("{:#?}", error)
}

impl ClientError {
    pub fn validation_error(message: String) -> (error: Self)
        ensures
            error == ClientError::Validation(message),
    {
        Self::Validation(message)
    }

    pub fn insertion_error(message: String) -> (error: Self)
        ensures
            error == ClientError::Insertion(message),
    {
        Self::Insertion(message)
    }

    /// The text shown for this error: a fixed prefix, then the error's own
    /// rendering.
    pub fn to_string(&self) -> (text: String)
        ensures
            "client error "@.is_prefix_of(text@),
    {
        let text = String::from_str("client error ").concat(inspect(self).as_str());
        assert("client error "@ =~= text@.subrange(0, "client error "@.len() as int));
        text
    }
}

impl From<hyper::Error> for ClientError {
    fn from(value: hyper::Error) -> (error: ClientError) {
        ClientError::Client(value)
    }
}

impl vstd::std_specs::convert::FromSpecImpl<hyper::Error> for ClientError {
    open spec fn obeys_from_spec() -> bool {
        true
    }

    open spec fn from_spec(value: hyper::Error) -> ClientError {
        ClientError::Client(value)
    }
}

impl From<serde_json::Error> for ClientError {
    fn from(value: serde_json::Error) -> (error: ClientError) {
        ClientError::JsonError(value)
    }
}

impl vstd::std_specs::convert::FromSpecImpl<serde_json::Error> for ClientError {
    open spec fn obeys_from_spec() -> bool {
        true
    }

    open spec fn from_spec(value: serde_json::Error) -> ClientError {
        ClientError::JsonError(value)
    }
}

impl From<hyper::http::uri::InvalidUri> for ClientError {
    fn from(value: hyper::http::uri::InvalidUri) -> (error: ClientError) {
        ClientError::Uri(value)
    }
}

impl vstd::std_specs::convert::FromSpecImpl<hyper::http::uri::InvalidUri> for ClientError {
    open spec fn obeys_from_spec() -> bool {
        true
    }

    open spec fn from_spec(value: hyper::http::uri::InvalidUri) -> ClientError {
        ClientError::Uri(value)
    }
}

impl From<ApiError> for ClientError {
    fn from(value: ApiError) -> (error: ClientError) {
        ClientError::Api(value)
    }
}

impl vstd::std_specs::convert::FromSpecImpl<ApiError> for ClientError {
    open spec fn obeys_from_spec() -> bool {
        true
    }

    open spec fn from_spec(value: ApiError) -> ClientError {
        ClientError::Api(value)
    }
}

impl From<hyper::http::Error> for ClientError {
    fn from(value: hyper::http::Error) -> (error: ClientError) {
        ClientError::Connection(value)
    }
}

impl vstd::std_specs::convert::FromSpecImpl<hyper::http::Error> for ClientError {
    open spec fn obeys_from_spec() -> bool {
        true
    }

    open spec fn from_spec(value: hyper::http::Error) -> ClientError {
        ClientError::Connection(value)
    }
}

impl From<serde_url_params::Error> for ClientError {
    fn from(value: serde_url_params::Error) -> (error: ClientError) {
        ClientError::Params(value)
    }
}

impl vstd::std_specs::convert::FromSpecImpl<serde_url_params::Error> for ClientError {
    open spec fn obeys_from_spec() -> bool {
        true
    }

    open spec fn from_spec(value: serde_url_params::Error) -> ClientError {
        ClientError::Params(value)
    }
}

} // verus!
