//! The messages the account has sent.

use vstd::prelude::*;
use crate::common::errors::HttpError;
use crate::common::page_token::decimal;
use crate::http::client::{API_KEY, HttpClient, Method, Request, pairs};

verus! {

/// Reads the messages the account has sent, page by page.
#[derive(Debug)]
pub struct History<'a> {
    api_key: &'a str,
    client: HttpClient,
}

impl<'a> History<'a> {
    /// The key that every request of this client carries.
    pub closed spec fn key(&self) -> Seq<char> {
        self.api_key@
    }

    /// The configuration that every request of this client is built with.
    pub closed spec fn transport(&self) -> HttpClient {
        self.client
    }

    /// A client that stamps `api_key` on the requests it builds with
    /// `client`.
    pub fn new(api_key: &'a str, client: HttpClient) -> (history: History<'a>)
        ensures
            history.key() == api_key@,
            history.transport() == client,
    {
        History { api_key, client }
    }

    /// Describes the fetch of one page of the history. `page` is the number of the
    /// page, in decimal, counted from 1; it is passed on as it is.
    pub fn _get<'b>(&'b self, page: &'b str) -> (request: Result<Request<'b, u8>, HttpError>)
        ensures
            self.transport().builds(
                request,
                Method::Get,
                "sms/inbox"@,
                Some(seq![(API_KEY@, self.key()), ("page"@, page@)]),
            ),
            request is Ok ==> {
                &&& request->Ok_0.key_in_query(self.key())
                &&& request->Ok_0.distinct_names()
                &&& request->Ok_0.data is None
            },
    {
        let mut params: Vec<(&str, &str)> = Vec::new();
        params.push((API_KEY, self.api_key));
        params.push(("page", page));
        proof {
            reveal_strlit("api_key");
            reveal_strlit("page");
            assert(API_KEY@.len() != "page"@.len());
            assert(pairs(params@) =~= seq![(API_KEY@, self.key()), ("page"@, page@)]);
            assert(pairs(params@)[0] == (API_KEY@, self.key()));
        }
        self.client.get("sms/inbox", Some(params), None)
    }

    /// Describes the fetch of one page of the history: the page that `page`
    /// names, or page 1.
    pub fn get<'b>(&'b self, page: Option<&'b str>) -> (request: Result<Request<'b, u8>, HttpError>)
        ensures
            self.transport().builds(
                request,
                Method::Get,
                "sms/inbox"@,
                Some(
                    seq![
                        (API_KEY@, self.key()),
                        ("page"@, match page {
                            Some(token) => token@,
                            None => decimal(1),
                        }),
                    ],
                ),
            ),
            request is Ok ==> {
                &&& request->Ok_0.key_in_query(self.key())
                &&& request->Ok_0.distinct_names()
                &&& request->Ok_0.data is None
            },
    {
        let token = match page {
            Some(token) => token,
            None => "1",
        };
        proof {
            reveal_strlit("1");
            assert("1"@ =~= decimal(1));
            assert(seq![(API_KEY@, self.key()), ("page"@, token@)] =~= seq![
                (API_KEY@, self.key()),
                ("page"@, match page {
                    Some(token) => token@,
                    None => decimal(1),
                }),
            ]);
        }
        self._get(token)
    }
}

} // verus!
