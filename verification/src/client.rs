//! The transport client: what is needed to reach a database, the requests it
//! sends and how a reply becomes a result.

use crate::api::ApiError;
use crate::error::{ClientError, Result};
use vstd::prelude::*;

verus! {

/// Where the database is and who asks.
#[derive(Clone, Debug)]
pub struct Config {
    pub host: String,
    pub database: String,
    pub user: String,
    pub password: String,
}

/// The prefix of every URL of one database on one host.
pub open spec fn base_url(host: Seq<char>, database: Seq<char>) -> Seq<char> {
    host + "/_db/"@ + database + "/"@
}

impl Config {
    pub fn to_base(&self) -> (base: String)
        ensures
            base@ == base_url(self.host@, self.database@),
    {
        self.host.clone().concat("/_db/").concat(self.database.as_str()).concat("/")
    }
}

/// The standard base64 encoding, with padding, of the UTF-8 bytes of `text`.
pub uninterp spec fn base64_standard(text: Seq<char>) -> Seq<char>;

/// Calls `encode` of `base64`'s `STANDARD` engine on the bytes of `text`. The
/// result is the encoding of those bytes, named `base64_standard`.
#[verifier::external_body]
fn encode_base64(text: &str) -> (encoded: String)
    ensures
        encoded@ == base64_standard(text@),
{
    base64::Engine::encode(&base64::engine::general_purpose::STANDARD, text.as_bytes())
}

/// The credential sent with every request of `user`.
pub open spec fn credential(user: Seq<char>, password: Seq<char>) -> Seq<char> {
    base64_standard(user + ":"@ + password)
}

/// The verb of a request.
#[derive(Clone, Copy, Debug, PartialEq, Eq, Structural)]
pub enum Method {
    Head,
    Get,
    Post,
    Put,
    Patch,
    Delete,
}

impl Method {
    /// The verb as it is written in a request.
    pub open spec fn token(self) -> Seq<char> {
        match self {
            Method::Head => "HEAD"@,
            Method::Get => "GET"@,
            Method::Post => "POST"@,
            Method::Put => "PUT"@,
            Method::Patch => "PATCH"@,
            Method::Delete => "DELETE"@,
        }
    }

    pub fn as_str(&self) -> (token: &'static str)
        ensures
            token@ == self.token(),
    {
        match self {
            Method::Head => "HEAD",
            Method::Get => "GET",
            Method::Post => "POST",
            Method::Put => "PUT",
            Method::Patch => "PATCH",
            Method::Delete => "DELETE",
        }
    }
}

/// An HTTP request, as `http` holds it.
#[verifier::external_type_specification]
#[verifier::external_body]
#[verifier::reject_recursive_types(T)]
pub struct ExHttpRequest<T>(hyper::Request<T>);

/// The body of an HTTP request or response, as `hyper` streams it.
#[verifier::external_type_specification]
#[verifier::external_body]
pub struct ExHttpBody(hyper::Body);

/// A URL, as `http` holds it.
#[verifier::external_type_specification]
#[verifier::external_body]
pub struct ExUri(hyper::Uri);

/// Whether `http` reads `url` as a URL.
pub uninterp spec fn is_url(url: Seq<char>) -> bool;

/// Calls `str::parse` for `http`'s `Uri`. It hands back the URL, or the
/// error that says why the text is none; which of the two is named
/// `is_url`.
#[verifier::external_body]
fn parse_url(url: &str) -> (parsed: std::result::Result<hyper::Uri, hyper::http::uri::InvalidUri>)
    ensures
        parsed is Ok == is_url(url@),
{
    url.parse::<hyper::Uri>()
}

/// The name of the header that carries the credential.
pub const AUTHORIZATION: &'static str = "Authorization";

/// How long, in milliseconds, a connection may idle in the pool before it is
/// closed. Stale connections fail silently, so this is short.
pub const POOL_IDLE_TIMEOUT_MILLIS: u64 = 100;

/// How long, in seconds, HTTP/2 waits for the answer to a keep-alive ping.
pub const HTTP2_KEEP_ALIVE_TIMEOUT_SECS: u64 = 0;

/// Whether `http` admits a request of these parts: the verb, the URL, and
/// one header with its value.
pub uninterp spec fn is_admitted(method: Seq<char>, url: Seq<char>, header: Seq<char>, value: Seq<char>) -> bool;

/// Calls `http`'s request builder: `method`, `uri`, `header` and `body`, in
/// that order. The builder hands back the request, or the first of its
/// parts that it does not accept; whether it accepts them all is named
/// `is_admitted`, and does not depend on the body. Nothing is claimed of
/// what the request holds.
#[verifier::external_body]
fn build(method: &str, url: &str, header: &str, value: &str, body: String) -> (request:
    std::result::Result<hyper::Request<hyper::Body>, hyper::http::Error>)
    ensures
        request is Ok == is_admitted(method@, url@, header@, value@),
{
    hyper::Request::builder().method(method).uri(url).header(header, value).body(
        hyper::Body::from(body),
    )
}

/// A request, ready to be sent.
#[derive(Debug)]
pub struct Dispatch {
    pub method: Method,
    /// The absolute URL.
    pub url: String,
    /// The value of the `Authorization` header.
    pub authorization: String,
    /// The body; empty where the verb carries none.
    pub body: String,
}

pub struct DispatchView {
    pub method: Method,
    pub url: Seq<char>,
    pub authorization: Seq<char>,
    pub body: Seq<char>,
}

impl View for Dispatch {
    type V = DispatchView;

    open spec fn view(&self) -> DispatchView {
        DispatchView {
            method: self.method,
            url: self.url@,
            authorization: self.authorization@,
            body: self.body@,
        }
    }
}

/// How the value asked for sits in the body of a successful reply.
#[derive(Clone, Copy, Debug, PartialEq, Eq, Structural)]
pub enum Envelope {
    /// The body is the value.
    Bare,
    /// The body holds `error`, `code` and the value under `result`.
    Nested,
    /// The body holds `error`, `code` and, beside them, the fields of the
    /// value.
    Flat,
    /// The body holds snapshots of a document; the value is the one under
    /// `new`.
    New,
    /// The body holds snapshots of a document; the value is the one under
    /// `old`.
    Old,
}

/// One operation of the database as a facade plans it: the verb, the
/// endpoint below the database's base URL, and where the result will sit in
/// the reply.
#[derive(Debug)]
pub struct Call {
    pub method: Method,
    pub endpoint: String,
    pub envelope: Envelope,
}

pub struct CallView {
    pub method: Method,
    pub endpoint: Seq<char>,
    pub envelope: Envelope,
}

impl View for Call {
    type V = CallView;

    open spec fn view(&self) -> CallView {
        CallView { method: self.method, endpoint: self.endpoint@, envelope: self.envelope }
    }
}

impl Call {
    /// The call of `method` on `endpoint`, or the failure to write the
    /// endpoint.
    pub fn to(method: Method, endpoint: Result<String>, envelope: Envelope) -> (call: Result<Call>)
        ensures
            match endpoint {
                Ok(path) => call is Ok && call->Ok_0@ == (CallView {
                    method,
                    endpoint: path@,
                    envelope,
                }),
                Err(error) => call == Err::<Call, ClientError>(error),
            },
    {
        match endpoint {
            Ok(endpoint) => Ok(Call { method, endpoint, envelope }),
            Err(error) => Err(error),
        }
    }
}

impl Dispatch {
    /// The request as the transport takes it. A URL that is malformed is a
    /// URI error; a verb or a credential that HTTP does not admit is a
    /// failure to construct the request.
    pub fn into_http(self) -> (request: Result<hyper::Request<hyper::Body>>)
        ensures
            !is_url(self.url@) ==> request is Err && request->Err_0 is Uri,
            is_url(self.url@) ==> (request is Ok) == is_admitted(
                self.method.token(),
                self.url@,
                AUTHORIZATION@,
                self.authorization@,
            ),
            is_url(self.url@) && request is Err ==> request->Err_0 is Connection,
    {
        match parse_url(self.url.as_str()) {
            Err(error) => Err(ClientError::from(error)),
            Ok(_) => match build(
                self.method.as_str(),
                self.url.as_str(),
                AUTHORIZATION,
                self.authorization.as_str(),
                self.body,
            ) {
                Ok(request) => Ok(request),
                Err(error) => Err(ClientError::from(error)),
            },
        }
    }
}

/// Which shape the body of a reply is to be read as.
#[derive(Clone, Copy, Debug, PartialEq, Eq, Structural)]
pub enum Decoding {
    /// The value the caller asked for.
    Payload,
    /// The server's description of a failure.
    Failure,
}

/// The body of a reply, once read.
pub enum Reply<T> {
    Payload(T),
    Failure(ApiError),
}

/// Whether an HTTP status reports success.
pub open spec fn is_success(status: u16) -> bool {
    200 <= status < 300
}

/// How a reply with `status` is to be read.
pub open spec fn expected(status: u16) -> Decoding {
    if is_success(status) {
        Decoding::Payload
    } else {
        Decoding::Failure
    }
}

/// What the error says when a reply was not read as its status asks.
pub const MISREAD: &'static str = "the reply was not read as its status asks";

/// Whether `result` is the result of a call whose reply had `status` and was
/// read as `reply`. A body that could not be read is a JSON error. A value
/// under a success is the result; a failure under any other status is the
/// error of the server. A reply read against its status is a validation
/// error.
pub open spec fn is_handled<T>(
    status: u16,
    reply: std::result::Result<Reply<T>, serde_json::Error>,
    result: Result<T>,
) -> bool {
    match reply {
        Err(error) => result == Err::<T, ClientError>(ClientError::JsonError(error)),
        Ok(Reply::Payload(data)) => if is_success(status) {
            result == Ok::<T, ClientError>(data)
        } else {
            result matches Err(ClientError::Validation(message)) && message@ == MISREAD@
        },
        Ok(Reply::Failure(error)) => if is_success(status) {
            result matches Err(ClientError::Validation(message)) && message@ == MISREAD@
        } else {
            result == Err::<T, ClientError>(ClientError::Api(error))
        },
    }
}

/// A reply whose status is not a success is read as the server's
/// description of a failure, and a body of that shape becomes the error of
/// the call with every field as the server sent it.
pub proof fn lemma_failure_is_reported<T>(status: u16, error: ApiError, result: Result<T>)
    requires
        !is_success(status),
        is_handled(status, Ok(Reply::Failure(error)), result),
    ensures
        expected(status) == Decoding::Failure,
        result == Err::<T, ClientError>(ClientError::Api(error)),
{
}

/// A reply whose status is a success is read as the value asked for, and
/// that value is the result of the call.
pub proof fn lemma_success_is_returned<T>(status: u16, data: T, result: Result<T>)
    requires
        is_success(status),
        is_handled(status, Ok(Reply::Payload(data)), result),
    ensures
        expected(status) == Decoding::Payload,
        result == Ok::<T, ClientError>(data),
{
}

/// A call succeeds only under a success status, and reports an error of the
/// server only under another.
pub proof fn lemma_result_follows_the_status<T>(
    status: u16,
    reply: std::result::Result<Reply<T>, serde_json::Error>,
    result: Result<T>,
)
    requires
        is_handled(status, reply, result),
    ensures
        result is Ok ==> is_success(status),
        result is Err && result->Err_0 is Api ==> !is_success(status),
{
}

/// The transport client of one database: its address and the credential it
/// was built with.
#[derive(Debug)]
pub struct Client {
    host: String,
    database: String,
    secret: String,
}

pub struct ClientView {
    pub host: Seq<char>,
    pub database: Seq<char>,
    pub secret: Seq<char>,
}

impl View for Client {
    type V = ClientView;

    closed spec fn view(&self) -> ClientView {
        ClientView { host: self.host@, database: self.database@, secret: self.secret@ }
    }
}

impl Clone for Client {
    fn clone(&self) -> (copy: Self)
        ensures
            copy@ == self@,
    {
        Self {
            host: self.host.clone(),
            database: self.database.clone(),
            secret: self.secret.clone(),
        }
    }
}

impl ClientView {
    /// The client that `config` describes.
    pub open spec fn of(config: &Config) -> ClientView {
        ClientView {
            host: config.host@,
            database: config.database@,
            secret: credential(config.user@, config.password@),
        }
    }

    /// The request this client sends for `endpoint`.
    pub open spec fn request(self, method: Method, endpoint: Seq<char>, body: Seq<char>) -> DispatchView {
        DispatchView {
            method,
            url: base_url(self.host, self.database) + endpoint,
            authorization: "Basic "@ + self.secret,
            body,
        }
    }
}

impl Client {
    pub fn new(config: &Config) -> (client: Self)
        ensures
            client@ == ClientView::of(config),
    {
        let up: String = config.user.clone().concat(":").concat(config.password.as_str());
        let b64: String = encode_base64(up.as_str());
        Self { host: config.host.clone(), database: config.database.clone(), secret: b64 }
    }

    pub fn to_base(&self) -> (base: String)
        ensures
            base@ == base_url(self@.host, self@.database),
    {
        self.host.clone().concat("/_db/").concat(self.database.as_str()).concat("/")
    }

    /// The value of the `Authorization` header of every request.
    pub fn authorization(&self) -> (value: String)
        ensures
            value@ == "Basic "@ + self@.secret,
    {
        String::from_str("Basic ").concat(self.secret.as_str())
    }

    fn request(&self, method: Method, endpoint: String, body: String) -> (request: Dispatch)
        ensures
            request@ == self@.request(method, endpoint@, body@),
    {
        Dispatch {
            method,
            url: self.to_base().concat(endpoint.as_str()),
            authorization: self.authorization(),
            body,
        }
    }

    fn request_with(
        &self,
        method: Method,
        endpoint: String,
        data: std::result::Result<String, serde_json::Error>,
    ) -> (request: Result<Dispatch>)
        ensures
            match data {
                Ok(body) => request is Ok && request->Ok_0@ == self@.request(
                    method,
                    endpoint@,
                    body@,
                ),
                Err(error) => request == Err::<Dispatch, ClientError>(ClientError::JsonError(error)),
            },
    {
        match data {
            Ok(body) => Ok(self.request(method, endpoint, body)),
            Err(error) => Err(ClientError::from(error)),
        }
    }

    pub fn head(&self, endpoint: String) -> (request: Dispatch)
        ensures
            request@ == self@.request(Method::Head, endpoint@, Seq::empty()),
    {
        self.request(Method::Head, endpoint, String::new())
    }

    pub fn get(&self, endpoint: String) -> (request: Dispatch)
        ensures
            request@ == self@.request(Method::Get, endpoint@, Seq::empty()),
    {
        self.request(Method::Get, endpoint, String::new())
    }

    /// `data` is the payload written as JSON, or the failure to write it.
    pub fn post(&self, endpoint: String, data: std::result::Result<String, serde_json::Error>) -> (request:
        Result<Dispatch>)
        ensures
            match data {
                Ok(body) => request is Ok && request->Ok_0@ == self@.request(
                    Method::Post,
                    endpoint@,
                    body@,
                ),
                Err(error) => request == Err::<Dispatch, ClientError>(ClientError::JsonError(error)),
            },
    {
        self.request_with(Method::Post, endpoint, data)
    }

    /// `data` is the payload written as JSON, or the failure to write it.
    pub fn patch(&self, endpoint: String, data: std::result::Result<String, serde_json::Error>) -> (request:
        Result<Dispatch>)
        ensures
            match data {
                Ok(body) => request is Ok && request->Ok_0@ == self@.request(
                    Method::Patch,
                    endpoint@,
                    body@,
                ),
                Err(error) => request == Err::<Dispatch, ClientError>(ClientError::JsonError(error)),
            },
    {
        self.request_with(Method::Patch, endpoint, data)
    }

    /// `data` is the payload written as JSON, or the failure to write it.
    pub fn put(&self, endpoint: String, data: std::result::Result<String, serde_json::Error>) -> (request:
        Result<Dispatch>)
        ensures
            match data {
                Ok(body) => request is Ok && request->Ok_0@ == self@.request(
                    Method::Put,
                    endpoint@,
                    body@,
                ),
                Err(error) => request == Err::<Dispatch, ClientError>(ClientError::JsonError(error)),
            },
    {
        self.request_with(Method::Put, endpoint, data)
    }

    pub fn delete(&self, endpoint: String) -> (request: Dispatch)
        ensures
            request@ == self@.request(Method::Delete, endpoint@, Seq::empty()),
    {
        self.request(Method::Delete, endpoint, String::new())
    }

    /// A deletion that names its targets in a body. `data` is that body
    /// written as JSON, or the failure to write it.
    pub fn delete_many(&self, endpoint: String, data: std::result::Result<String, serde_json::Error>) -> (request:
        Result<Dispatch>)
        ensures
            match data {
                Ok(body) => request is Ok && request->Ok_0@ == self@.request(
                    Method::Delete,
                    endpoint@,
                    body@,
                ),
                Err(error) => request == Err::<Dispatch, ClientError>(ClientError::JsonError(error)),
            },
    {
        self.request_with(Method::Delete, endpoint, data)
    }

    /// The request that carries out `call`. `data` is the body written as
    /// JSON, or the failure to write it; a call without one carries no body.
    pub fn dispatch(
        &self,
        call: Call,
        data: Option<std::result::Result<String, serde_json::Error>>,
    ) -> (request: Result<Dispatch>)
        ensures
            match data {
                Some(Err(error)) => request == Err::<Dispatch, ClientError>(
                    ClientError::JsonError(error),
                ),
                Some(Ok(body)) => request is Ok && request->Ok_0@ == self@.request(
                    call.method,
                    call.endpoint@,
                    body@,
                ),
                None => request is Ok && request->Ok_0@ == self@.request(
                    call.method,
                    call.endpoint@,
                    Seq::empty(),
                ),
            },
    {
        match data {
            Some(data) => self.request_with(call.method, call.endpoint, data),
            None => Ok(self.request(call.method, call.endpoint, String::new())),
        }
    }

    /// How the body of a reply with this status is to be read.
    pub fn expects(status: u16) -> (decoding: Decoding)
        ensures
            decoding == expected(status),
    {
        if 200 <= status && status < 300 {
            Decoding::Payload
        } else {
            Decoding::Failure
        }
    }

    /// Turns the body of a reply with `status`, read as `Client::expects`
    /// said, into the result of the call.
    pub fn handler<T>(status: u16, reply: std::result::Result<Reply<T>, serde_json::Error>) -> (result:
        Result<T>)
        ensures
            is_handled(status, reply, result),
    {
        let success = 200 <= status && status < 300;
        match reply {
            Err(error) => Err(ClientError::from(error)),
            Ok(Reply::Payload(data)) => {
                if success {
                    Ok(data)
                } else {
                    Err(ClientError::validation_error(MISREAD.to_owned()))
                }
            },
            Ok(Reply::Failure(error)) => {
                if success {
                    Err(ClientError::validation_error(MISREAD.to_owned()))
                } else {
                    Err(ClientError::from(error))
                }
            },
        }
    }
}

} // verus!
