//! The client configuration and the requests it describes.
//!
//! A [`Request`] says everything the transport needs to make one call:
//! verb, address, deadline, query parameters and body. Nothing here opens
//! a connection.

use vstd::prelude::*;
use crate::common::errors::HttpError;

verus! {

/// The address every endpoint path is joined onto.
pub const BASE_URL: &'static str = "https://api.ng.termii.com/api/";

/// The name under which the key travels, in a query string and in a body.
pub const API_KEY: &'static str = "api_key";

/// The HTTP verbs that the API uses.
#[derive(Debug, Clone, Copy, PartialEq, Eq)]
pub enum Method {
    /// Reads; the key travels in the query string.
    Get,
    /// Creates and sends; the key travels in the body.
    Post,
    /// Updates; the key travels in the body.
    Patch,
    /// Deletes.
    Delete,
}

/// One call, ready to be sent.
#[derive(Debug)]
pub struct Request<'a, T> {
    /// The verb.
    pub method: Method,
    /// The absolute address.
    pub url: String,
    /// The deadline of the call, in seconds.
    pub timeout: u64,
    /// The query parameters, as name and value, in the order given.
    pub params: Option<Vec<(&'a str, &'a str)>>,
    /// The body, to be sent as JSON.
    pub data: Option<T>,
}

/// Query parameters as pairs of character sequences.
pub open spec fn pairs(params: Seq<(&str, &str)>) -> Seq<(Seq<char>, Seq<char>)> {
    params.map_values(|p: (&str, &str)| (p.0@, p.1@))
}

/// Optional query parameters as pairs of character sequences.
pub open spec fn query(params: Option<Vec<(&str, &str)>>) -> Option<Seq<(Seq<char>, Seq<char>)>> {
    match params {
        Some(list) => Some(pairs(list@)),
        None => None,
    }
}

impl<'a, T> Request<'a, T> {
    /// Whether the query string carries `key` under the key's name.
    pub open spec fn key_in_query(self, key: Seq<char>) -> bool {
        self.params is Some && exists|i: int|
            0 <= i < self.params->Some_0@.len() && #[trigger] pairs(self.params->Some_0@)[i] == (
                API_KEY@,
                key,
            )
    }

    /// Whether no query parameter goes by the key's name.
    pub open spec fn no_key_in_query(self) -> bool {
        self.params is Some ==> forall|i: int|
            0 <= i < self.params->Some_0@.len() ==> (#[trigger] pairs(self.params->Some_0@)[i]).0
                != API_KEY@
    }

    /// Whether no two query parameters go by the same name: the
    /// parameters are a map from name to value, written down in one order.
    pub open spec fn distinct_names(self) -> bool {
        self.params is Some ==> forall|i: int, j: int|
            0 <= i < j < self.params->Some_0@.len() ==> (#[trigger] pairs(
                self.params->Some_0@,
            )[i]).0 != (#[trigger] pairs(self.params->Some_0@)[j]).0
    }

    /// Puts a request together from the outcome of joining the endpoint
    /// path onto the base address: the joined address on success, the
    /// parser's message on failure.
    pub fn assemble(
        joined: Result<String, String>,
        method: Method,
        timeout: u64,
        params: Option<Vec<(&'a str, &'a str)>>,
        data: Option<T>,
    ) -> (request: Result<Request<'a, T>, HttpError>)
        ensures
            match joined {
                Ok(url) => request == Ok::<Request<'a, T>, HttpError>(
                    Request { method, url, timeout, params, data },
                ),
                Err(message) => request == Err::<Request<'a, T>, HttpError>(
                    HttpError::UrlParseError(message),
                ),
            },
    {
        match joined {
            Ok(url) => Ok(Request { method, url, timeout, params, data }),
            Err(message) => Err(HttpError::UrlParseError(message)),
        }
    }
}

/// What joining `path` onto the absolute address `base` gives: the
/// resulting absolute address, or the parser's message when either does
/// not parse.
pub uninterp spec fn joined_url(base: Seq<char>, path: Seq<char>) -> Result<Seq<char>, Seq<char>>;

/// Calls `reqwest::Url::parse` on `base` and `Url::join` with `path` on
/// the result. The contract names the outcome and claims nothing else of
/// it: the same two texts always give the same address or the same
/// message.
#[verifier::external_body]
fn join_url(base: &str, path: &str) -> (joined: Result<String, String>)
    ensures
        match joined {
            Ok(url) => joined_url(base@, path@) == Ok::<Seq<char>, Seq<char>>(url@),
            Err(message) => joined_url(base@, path@) == Err::<Seq<char>, Seq<char>>(message@),
        },
{
    match reqwest::Url::parse(base) {
        Ok(parsed) => match parsed.join(path) {
            Ok(url) => Ok(String::from(url)),
            Err(error) => Err(error.to_string()),
        },
        Err(error) => Err(error.to_string()),
    }
}

/// The client configuration: the deadline that every call gets.
#[derive(Debug, Clone, Copy)]
pub struct HttpClient {
    timeout: u64,
}

impl HttpClient {
    /// The deadline of every call, in seconds. At least 1.
    pub closed spec fn deadline(self) -> u64 {
        self.timeout
    }

    #[verifier::type_invariant]
    spec fn deadline_is_positive(self) -> bool {
        self.timeout >= 1
    }

    /// What a builder returns for the given verb, endpoint path and query
    /// parameters: a request to the joined address with this client's
    /// deadline, or the failure to join.
    pub open spec fn builds<T>(
        self,
        request: Result<Request<'_, T>, HttpError>,
        method: Method,
        path: Seq<char>,
        params: Option<Seq<(Seq<char>, Seq<char>)>>,
    ) -> bool {
        match joined_url(BASE_URL@, path) {
            Ok(url) => {
                &&& request is Ok
                &&& request->Ok_0.method == method
                &&& request->Ok_0.url@ == url
                &&& request->Ok_0.timeout == self.deadline()
                &&& query(request->Ok_0.params) == params
            },
            Err(message) => {
                &&& request is Err
                &&& request->Err_0 is UrlParseError
                &&& request->Err_0->UrlParseError_0@ == message
            },
        }
    }

    /// A client whose calls time out after `timeout` seconds. A timeout
    /// below one second is refused.
    pub fn new(timeout: u64) -> (client: Result<HttpClient, HttpError>)
        ensures
            timeout < 1 ==> client == Err::<HttpClient, HttpError>(
                HttpError::InvalidTimeout(timeout),
            ),
            timeout >= 1 ==> client is Ok && client->Ok_0.deadline() == timeout,
    {
        if timeout < 1 {
            return Err(HttpError::InvalidTimeout(timeout));
        }
        Ok(HttpClient { timeout })
    }

    /// The deadline of every call, in seconds.
    pub fn timeout(&self) -> (timeout: u64)
        ensures
            timeout == self.deadline(),
            timeout >= 1,
    {
        proof {
            use_type_invariant(self);
        }
        self.timeout
    }

    fn request<'a, T>(
        &self,
        url: &str,
        method: Method,
        params: Option<Vec<(&'a str, &'a str)>>,
        _headers: Option<Vec<(&'a str, &'a str)>>,
        data: Option<T>,
    ) -> (request: Result<Request<'a, T>, HttpError>)
        ensures
            self.builds(request, method, url@, query(params)),
            request is Ok ==> request->Ok_0.params == params && request->Ok_0.data == data,
    {
        let joined = join_url(BASE_URL, url);
        Request::assemble(joined, method, self.timeout, params, data)
    }

    /// Describes a read of `url` with the given query parameters.
    pub fn get<'a>(
        &self,
        url: &str,
        params: Option<Vec<(&'a str, &'a str)>>,
        headers: Option<Vec<(&'a str, &'a str)>>,
    ) -> (request: Result<Request<'a, u8>, HttpError>)
        ensures
            self.builds(request, Method::Get, url@, query(params)),
            request is Ok ==> request->Ok_0.params == params && request->Ok_0.data is None,
    {
        self.request(url, Method::Get, params, headers, None::<u8>)
    }

    /// Describes a create or send at `url` with `data` as its body.
    pub fn post<'a, T>(
        &self,
        url: &str,
        params: Option<Vec<(&'a str, &'a str)>>,
        headers: Option<Vec<(&'a str, &'a str)>>,
        data: Option<T>,
    ) -> (request: Result<Request<'a, T>, HttpError>)
        ensures
            self.builds(request, Method::Post, url@, query(params)),
            request is Ok ==> request->Ok_0.params == params && request->Ok_0.data == data,
    {
        self.request(url, Method::Post, params, headers, data)
    }

    /// Describes an update at `url` with `data` as its body.
    pub fn patch<'a, T>(
        &self,
        url: &str,
        params: Option<Vec<(&'a str, &'a str)>>,
        headers: Option<Vec<(&'a str, &'a str)>>,
        data: Option<T>,
    ) -> (request: Result<Request<'a, T>, HttpError>)
        ensures
            self.builds(request, Method::Patch, url@, query(params)),
            request is Ok ==> request->Ok_0.params == params && request->Ok_0.data == data,
    {
        self.request(url, Method::Patch, params, headers, data)
    }

    /// Describes a delete of `url`.
    pub fn delete<'a>(
        &self,
        url: &str,
        params: Option<Vec<(&'a str, &'a str)>>,
        headers: Option<Vec<(&'a str, &'a str)>>,
    ) -> (request: Result<Request<'a, u8>, HttpError>)
        ensures
            self.builds(request, Method::Delete, url@, query(params)),
            request is Ok ==> request->Ok_0.params == params && request->Ok_0.data is None,
    {
        self.request(url, Method::Delete, params, headers, None::<u8>)
    }
}

} // verus!
