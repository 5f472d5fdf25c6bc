//! Whether a number is on do-not-disturb.

use vstd::prelude::*;
use crate::common::errors::HttpError;
use crate::http::client::{API_KEY, HttpClient, Method, Request, pairs};

verus! {

/// Looks a number up.
#[derive(Debug)]
pub struct Search<'a> {
    api_key: &'a str,
    client: HttpClient,
}

impl<'a> Search<'a> {
    /// The key that every request of this client carries.
    pub closed spec fn key(&self) -> Seq<char> {
        self.api_key@
    }

    /// The configuration that every request of this client is built with.
    pub closed spec fn transport(&self) -> HttpClient {
        self.client
    }

    /// A client that stamps `api_key` on the requests it builds with
    /// `client`.
    pub fn new(api_key: &'a str, client: HttpClient) -> (search: Search<'a>)
        ensures
            search.key() == api_key@,
            search.transport() == client,
    {
        Search { api_key, client }
    }

    /// Describes the lookup of `phone_number`.
    pub fn get<'b>(&'b self, phone_number: &'b str) -> (request: Result<Request<'b, u8>, HttpError>)
        ensures
            self.transport().builds(
                request,
                Method::Get,
                "check/dnd"@,
                Some(seq![(API_KEY@, self.key()), ("phone_number"@, phone_number@)]),
            ),
            request is Ok ==> {
                &&& request->Ok_0.key_in_query(self.key())
                &&& request->Ok_0.distinct_names()
                &&& request->Ok_0.data is None
            },
    {
        let mut params: Vec<(&str, &str)> = Vec::new();
        params.push((API_KEY, self.api_key));
        params.push(("phone_number", phone_number));
        proof {
            reveal_strlit("api_key");
            reveal_strlit("phone_number");
            assert(API_KEY@.len() != "phone_number"@.len());
            assert(pairs(params@) =~= seq![
                (API_KEY@, self.key()),
                ("phone_number"@, phone_number@),
            ]);
            assert(pairs(params@)[0] == (API_KEY@, self.key()));
        }
        self.client.get("check/dnd", Some(params), None)
    }
}

} // verus!
