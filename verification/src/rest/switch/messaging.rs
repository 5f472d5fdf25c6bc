//! Messages to one recipient or to many.

use vstd::prelude::*;
use crate::common::errors::HttpError;
use crate::common::switch::messaging::{MessageBulkRequest, MessageRequest};
use crate::http::client::{HttpClient, Method, Request};

verus! {

/// Sends messages.
#[derive(Debug)]
pub struct Messaging<'a> {
    api_key: &'a str,
    client: HttpClient,
}

impl<'a> Messaging<'a> {
    /// The key that every request of this client carries.
    pub closed spec fn key(&self) -> Seq<char> {
        self.api_key@
    }

    /// The configuration that every request of this client is built with.
    pub closed spec fn transport(&self) -> HttpClient {
        self.client
    }

    /// A client that stamps `api_key` on the requests it builds with
    /// `client`.
    pub fn new(api_key: &'a str, client: HttpClient) -> (messaging: Messaging<'a>)
        ensures
            messaging.key() == api_key@,
            messaging.transport() == client,
    {
        Messaging { api_key, client }
    }

    /// Describes the sending of a message to one recipient. The key is stamped
    /// on the body.
    pub fn send(
        &self,
        message: MessageRequest,
    ) -> (request: Result<Request<'a, MessageRequest>, HttpError>)
        ensures
            self.transport().builds(request, Method::Post, "sms/send"@, None),
            request is Ok ==> {
                &&& request->Ok_0.no_key_in_query()
                &&& request->Ok_0.data is Some
                &&& request->Ok_0.data->Some_0.stamped(message, self.key())
            },
    {
        let mut stamped = message;
        stamped.set_api_key(self.api_key);
        self.client.post("sms/send", None, None, Some(stamped))
    }

    /// Describes the sending of a message to many recipients. The key is
    /// stamped on the body.
    pub fn send_bulk(
        &self,
        message: MessageBulkRequest,
    ) -> (request: Result<Request<'a, MessageBulkRequest>, HttpError>)
        ensures
            self.transport().builds(request, Method::Post, "sms/send/bulk"@, None),
            request is Ok ==> {
                &&& request->Ok_0.no_key_in_query()
                &&& request->Ok_0.data is Some
                &&& request->Ok_0.data->Some_0.stamped(message, self.key())
            },
    {
        let mut stamped = message;
        stamped.set_api_key(self.api_key);
        self.client.post("sms/send/bulk", None, None, Some(stamped))
    }
}

} // verus!
