//! Whether a number exists, and where.

use vstd::prelude::*;
use crate::common::errors::HttpError;
use crate::http::client::{API_KEY, HttpClient, Method, Request, pairs};

verus! {

/// Queries the status of a number.
#[derive(Debug)]
pub struct Status<'a> {
    api_key: &'a str,
    client: HttpClient,
}

impl<'a> Status<'a> {
    /// The key that every request of this client carries.
    pub closed spec fn key(&self) -> Seq<char> {
        self.api_key@
    }

    /// The configuration that every request of this client is built with.
    pub closed spec fn transport(&self) -> HttpClient {
        self.client
    }

    /// A client that stamps `api_key` on the requests it builds with
    /// `client`.
    pub fn new(api_key: &'a str, client: HttpClient) -> (status: Status<'a>)
        ensures
            status.key() == api_key@,
            status.transport() == client,
    {
        Status { api_key, client }
    }

    /// Describes the status query for `phone_number` in the country that
    /// `country_code` names.
    pub fn get<'b>(&'b self, phone_number: &'b str, country_code: &'b str) -> (request: Result<
        Request<'b, u8>,
        HttpError,
    >)
        ensures
            self.transport().builds(
                request,
                Method::Get,
                "insight/number/query"@,
                Some(seq![
                    (API_KEY@, self.key()),
                    ("phone_number"@, phone_number@),
                    ("country_code"@, country_code@),
                ]),
            ),
            request is Ok ==> {
                &&& request->Ok_0.key_in_query(self.key())
                &&& request->Ok_0.distinct_names()
                &&& request->Ok_0.data is None
            },
    {
        let mut params: Vec<(&str, &str)> = Vec::new();
        params.push((API_KEY, self.api_key));
        params.push(("phone_number", phone_number));
        params.push(("country_code", country_code));
        proof {
            reveal_strlit("api_key");
            reveal_strlit("phone_number");
            reveal_strlit("country_code");
            assert(API_KEY@.len() != "phone_number"@.len());
            assert(API_KEY@.len() != "country_code"@.len());
            assert("phone_number"@[0] != "country_code"@[0]);
            assert(pairs(params@) =~= seq![
                (API_KEY@, self.key()),
                ("phone_number"@, phone_number@),
                ("country_code"@, country_code@),
            ]);
            assert(pairs(params@)[0] == (API_KEY@, self.key()));
        }
        self.client.get("insight/number/query", Some(params), None)
    }
}

} // verus!
