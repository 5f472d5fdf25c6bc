//! Sender IDs: the names that messages are sent under.

use vstd::prelude::*;
use crate::common::errors::HttpError;
use crate::common::page_token::decimal;
use crate::common::switch::sender_id::SenderIDRequest;
use crate::http::client::{API_KEY, HttpClient, Method, Request, pairs};

verus! {

/// Lists sender IDs and requests new ones.
#[derive(Debug)]
pub struct SenderID<'a> {
    api_key: &'a str,
    client: HttpClient,
}

impl<'a> SenderID<'a> {
    /// The key that every request of this client carries.
    pub closed spec fn key(&self) -> Seq<char> {
        self.api_key@
    }

    /// The configuration that every request of this client is built with.
    pub closed spec fn transport(&self) -> HttpClient {
        self.client
    }

    /// A client that stamps `api_key` on the requests it builds with
    /// `client`.
    pub fn new(api_key: &'a str, client: HttpClient) -> (sender_id: SenderID<'a>)
        ensures
            sender_id.key() == api_key@,
            sender_id.transport() == client,
    {
        SenderID { api_key, client }
    }

    /// Describes the fetch of one page of the sender ID listing. `page` is the number of the
    /// page, in decimal, counted from 1; it is passed on as it is.
    pub fn _get<'b>(&'b self, page: &'b str) -> (request: Result<Request<'b, u8>, HttpError>)
        ensures
            self.transport().builds(
                request,
                Method::Get,
                "sender-id"@,
                Some(seq![(API_KEY@, self.key()), ("page"@, page@)]),
            ),
            request is Ok ==> {
                &&& request->Ok_0.key_in_query(self.key())
                &&& request->Ok_0.distinct_names()
                &&& request->Ok_0.data is None
            },
    {
        let mut params: Vec<(&str, &str)> = Vec::new();
        params.push((API_KEY, self.api_key));
        params.push(("page", page));
        proof {
            reveal_strlit("api_key");
            reveal_strlit("page");
            assert(API_KEY@.len() != "page"@.len());
            assert(pairs(params@) =~= seq![(API_KEY@, self.key()), ("page"@, page@)]);
            assert(pairs(params@)[0] == (API_KEY@, self.key()));
        }
        self.client.get("sender-id", Some(params), None)
    }

    /// Describes the fetch of one page of the sender ID listing: the page that `page`
    /// names, or page 1.
    pub fn get<'b>(&'b self, page: Option<&'b str>) -> (request: Result<Request<'b, u8>, HttpError>)
        ensures
            self.transport().builds(
                request,
                Method::Get,
                "sender-id"@,
                Some(
                    seq![
                        (API_KEY@, self.key()),
                        ("page"@, match page {
                            Some(token) => token@,
                            None => decimal(1),
                        }),
                    ],
                ),
            ),
            request is Ok ==> {
                &&& request->Ok_0.key_in_query(self.key())
                &&& request->Ok_0.distinct_names()
                &&& request->Ok_0.data is None
            },
    {
        let token = match page {
            Some(token) => token,
            None => "1",
        };
        proof {
            reveal_strlit("1");
            assert("1"@ =~= decimal(1));
            assert(seq![(API_KEY@, self.key()), ("page"@, token@)] =~= seq![
                (API_KEY@, self.key()),
                ("page"@, match page {
                    Some(token) => token@,
                    None => decimal(1),
                }),
            ]);
        }
        self._get(token)
    }

    /// Describes the request for a new sender ID. The key is stamped on the
    /// body.
    pub fn request(
        &self,
        payload: SenderIDRequest,
    ) -> (request: Result<Request<'a, SenderIDRequest>, HttpError>)
        ensures
            self.transport().builds(request, Method::Post, "sender-id/request"@, None),
            request is Ok ==> {
                &&& request->Ok_0.no_key_in_query()
                &&& request->Ok_0.data is Some
                &&& request->Ok_0.data->Some_0.stamped(payload, self.key())
            },
    {
        let mut stamped = payload;
        stamped.set_api_key(self.api_key);
        self.client.post("sender-id/request", None, None, Some(stamped))
    }
}

} // verus!
