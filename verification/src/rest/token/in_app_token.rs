//! One-time passwords that are shown in the application instead of being sent.

use vstd::prelude::*;
use crate::common::errors::HttpError;
use crate::common::token::in_app_token::InAppTokenRequest;
use crate::http::client::{HttpClient, Method, Request};

verus! {

/// Requests passwords to show in the application.
#[derive(Debug)]
pub struct InAppToken<'a> {
    api_key: &'a str,
    client: HttpClient,
}

impl<'a> InAppToken<'a> {
    /// The key that every request of this client carries.
    pub closed spec fn key(&self) -> Seq<char> {
        self.api_key@
    }

    /// The configuration that every request of this client is built with.
    pub closed spec fn transport(&self) -> HttpClient {
        self.client
    }

    /// A client that stamps `api_key` on the requests it builds with
    /// `client`.
    pub fn new(api_key: &'a str, client: HttpClient) -> (in_app_token: InAppToken<'a>)
        ensures
            in_app_token.key() == api_key@,
            in_app_token.transport() == client,
    {
        InAppToken { api_key, client }
    }

    /// Describes the request for a password. The key is stamped on the body.
    pub fn send(
        &self,
        otp_payload: InAppTokenRequest,
    ) -> (request: Result<Request<'a, InAppTokenRequest>, HttpError>)
        ensures
            self.transport().builds(request, Method::Post, "sms/otp/generate"@, None),
            request is Ok ==> {
                &&& request->Ok_0.no_key_in_query()
                &&& request->Ok_0.data is Some
                &&& request->Ok_0.data->Some_0.stamped(otp_payload, self.key())
            },
    {
        let mut stamped = otp_payload;
        stamped.set_api_key(self.api_key);
        self.client.post("sms/otp/generate", None, None, Some(stamped))
    }
}

} // verus!
