//! Messages sent from an automatically chosen number.

use vstd::prelude::*;
use crate::common::errors::HttpError;
use crate::common::switch::number::NumberMessageRequest;
use crate::http::client::{HttpClient, Method, Request};

verus! {

/// Sends messages from an automatically chosen number.
#[derive(Debug)]
pub struct Number<'a> {
    api_key: &'a str,
    client: HttpClient,
}

impl<'a> Number<'a> {
    /// The key that every request of this client carries.
    pub closed spec fn key(&self) -> Seq<char> {
        self.api_key@
    }

    /// The configuration that every request of this client is built with.
    pub closed spec fn transport(&self) -> HttpClient {
        self.client
    }

    /// A client that stamps `api_key` on the requests it builds with
    /// `client`.
    pub fn new(api_key: &'a str, client: HttpClient) -> (number: Number<'a>)
        ensures
            number.key() == api_key@,
            number.transport() == client,
    {
        Number { api_key, client }
    }

    /// Describes the sending of a message. The key is stamped on the body.
    pub fn send(
        &self,
        message: NumberMessageRequest,
    ) -> (request: Result<Request<'a, NumberMessageRequest>, HttpError>)
        ensures
            self.transport().builds(request, Method::Post, "sms/number/send"@, None),
            request is Ok ==> {
                &&& request->Ok_0.no_key_in_query()
                &&& request->Ok_0.data is Some
                &&& request->Ok_0.data->Some_0.stamped(message, self.key())
            },
    {
        let mut stamped = message;
        stamped.set_api_key(self.api_key);
        self.client.post("sms/number/send", None, None, Some(stamped))
    }
}

} // verus!
