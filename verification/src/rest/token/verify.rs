//! Checking a one-time password.

use vstd::prelude::*;
use crate::common::errors::HttpError;
use crate::common::token::verify::VerifyTokenRequest;
use crate::http::client::{HttpClient, Method, Request};

verus! {

/// Checks passwords.
#[derive(Debug)]
pub struct VerifyToken<'a> {
    api_key: &'a str,
    client: HttpClient,
}

impl<'a> VerifyToken<'a> {
    /// The key that every request of this client carries.
    pub closed spec fn key(&self) -> Seq<char> {
        self.api_key@
    }

    /// The configuration that every request of this client is built with.
    pub closed spec fn transport(&self) -> HttpClient {
        self.client
    }

    /// A client that stamps `api_key` on the requests it builds with
    /// `client`.
    pub fn new(api_key: &'a str, client: HttpClient) -> (verify_token: VerifyToken<'a>)
        ensures
            verify_token.key() == api_key@,
            verify_token.transport() == client,
    {
        VerifyToken { api_key, client }
    }

    /// Describes the check of a password. The key is stamped on the body.
    pub fn send(
        &self,
        otp_payload: VerifyTokenRequest,
    ) -> (request: Result<Request<'a, VerifyTokenRequest>, HttpError>)
        ensures
            self.transport().builds(request, Method::Post, "sms/otp/verify"@, None),
            request is Ok ==> {
                &&& request->Ok_0.no_key_in_query()
                &&& request->Ok_0.data is Some
                &&& request->Ok_0.data->Some_0.stamped(otp_payload, self.key())
            },
    {
        let mut stamped = otp_payload;
        stamped.set_api_key(self.api_key);
        self.client.post("sms/otp/verify", None, None, Some(stamped))
    }
}

} // verus!
