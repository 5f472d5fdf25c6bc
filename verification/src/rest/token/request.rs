//! One-time passwords sent to a phone.

use vstd::prelude::*;
use crate::common::errors::HttpError;
use crate::common::token::request::RequestTokenRequest;
use crate::http::client::{HttpClient, Method, Request};

verus! {

/// Has passwords sent.
#[derive(Debug)]
pub struct RequestToken<'a> {
    api_key: &'a str,
    client: HttpClient,
}

impl<'a> RequestToken<'a> {
    /// The key that every request of this client carries.
    pub closed spec fn key(&self) -> Seq<char> {
        self.api_key@
    }

    /// The configuration that every request of this client is built with.
    pub closed spec fn transport(&self) -> HttpClient {
        self.client
    }

    /// A client that stamps `api_key` on the requests it builds with
    /// `client`.
    pub fn new(api_key: &'a str, client: HttpClient) -> (request_token: RequestToken<'a>)
        ensures
            request_token.key() == api_key@,
            request_token.transport() == client,
    {
        RequestToken { api_key, client }
    }

    /// Describes the request to send a password. The key is stamped on the
    /// body.
    pub fn send(
        &self,
        otp_payload: RequestTokenRequest,
    ) -> (request: Result<Request<'a, RequestTokenRequest>, HttpError>)
        ensures
            self.transport().builds(request, Method::Post, "sms/otp/send"@, None),
            request is Ok ==> {
                &&& request->Ok_0.no_key_in_query()
                &&& request->Ok_0.data is Some
                &&& request->Ok_0.data->Some_0.stamped(otp_payload, self.key())
            },
    {
        let mut stamped = otp_payload;
        stamped.set_api_key(self.api_key);
        self.client.post("sms/otp/send", None, None, Some(stamped))
    }
}

} // verus!
