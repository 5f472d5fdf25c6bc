//! Messages made from a template registered with the service.

use vstd::prelude::*;
use crate::common::errors::HttpError;
use crate::common::switch::templates::TemplatesRequest;
use crate::http::client::{HttpClient, Method, Request};

verus! {

/// Sends template messages.
#[derive(Debug)]
pub struct Templates<'a> {
    api_key: &'a str,
    client: HttpClient,
}

impl<'a> Templates<'a> {
    /// The key that every request of this client carries.
    pub closed spec fn key(&self) -> Seq<char> {
        self.api_key@
    }

    /// The configuration that every request of this client is built with.
    pub closed spec fn transport(&self) -> HttpClient {
        self.client
    }

    /// A client that stamps `api_key` on the requests it builds with
    /// `client`.
    pub fn new(api_key: &'a str, client: HttpClient) -> (templates: Templates<'a>)
        ensures
            templates.key() == api_key@,
            templates.transport() == client,
    {
        Templates { api_key, client }
    }

    /// Describes the sending of a template message. The key is stamped on the
    /// body.
    pub fn send(
        &self,
        payload: TemplatesRequest,
    ) -> (request: Result<Request<'a, TemplatesRequest>, HttpError>)
        ensures
            self.transport().builds(request, Method::Post, "send/templates"@, None),
            request is Ok ==> {
                &&& request->Ok_0.no_key_in_query()
                &&& request->Ok_0.data is Some
                &&& request->Ok_0.data->Some_0.stamped(payload, self.key())
            },
    {
        let mut stamped = payload;
        stamped.set_api_key(self.api_key);
        self.client.post("send/templates", None, None, Some(stamped))
    }
}

} // verus!
