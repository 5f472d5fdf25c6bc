//! The balance of the account.

use vstd::prelude::*;
use crate::common::errors::HttpError;
use crate::http::client::{API_KEY, HttpClient, Method, Request, pairs};

verus! {

/// Reads the balance of the account.
#[derive(Debug)]
pub struct Balance<'a> {
    api_key: &'a str,
    client: HttpClient,
}

impl<'a> Balance<'a> {
    /// The key that every request of this client carries.
    pub closed spec fn key(&self) -> Seq<char> {
        self.api_key@
    }

    /// The configuration that every request of this client is built with.
    pub closed spec fn transport(&self) -> HttpClient {
        self.client
    }

    /// A client that stamps `api_key` on the requests it builds with
    /// `client`.
    pub fn new(api_key: &'a str, client: HttpClient) -> (balance: Balance<'a>)
        ensures
            balance.key() == api_key@,
            balance.transport() == client,
    {
        Balance { api_key, client }
    }

    /// Describes the read of the balance.
    pub fn get<'b>(&'b self) -> (request: Result<Request<'b, u8>, HttpError>)
        ensures
            self.transport().builds(
                request,
                Method::Get,
                "get-balance"@,
                Some(seq![(API_KEY@, self.key())]),
            ),
            request is Ok ==> {
                &&& request->Ok_0.key_in_query(self.key())
                &&& request->Ok_0.distinct_names()
                &&& request->Ok_0.data is None
            },
    {
        let mut params: Vec<(&str, &str)> = Vec::new();
        params.push((API_KEY, self.api_key));
        proof {
            assert(pairs(params@) =~= seq![(API_KEY@, self.key())]);
            assert(pairs(params@)[0] == (API_KEY@, self.key()));
        }
        self.client.get("get-balance", Some(params), None)
    }
}

} // verus!
