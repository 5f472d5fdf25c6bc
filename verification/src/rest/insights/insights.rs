//! The account insight clients, side by side.

use vstd::prelude::*;
use crate::http::client::HttpClient;
use crate::rest::insights::balance::Balance;
use crate::rest::insights::history::History;
use crate::rest::insights::search::Search;
use crate::rest::insights::status::Status;

verus! {

/// The account insight clients.
#[derive(Debug)]
pub struct Insights<'a> {
    /// The key that the clients were made with.
    pub api_key: &'a str,
    /// The configuration that the clients were made with.
    pub client: HttpClient,
    /// The balance of the account.
    pub balance: Balance<'a>,
    /// The messages the account has sent.
    pub history: History<'a>,
    /// Lookups of numbers.
    pub search: Search<'a>,
    /// Status queries for numbers.
    pub status: Status<'a>,
}

impl<'a> Insights<'a> {
    /// Whether this client and each client in it carries `key` and builds
    /// with `client`.
    pub open spec fn wired(&self, key: Seq<char>, client: HttpClient) -> bool {
        &&& self.api_key@ == key
        &&& self.client == client
        &&& self.balance.key() == key
        &&& self.balance.transport() == client
        &&& self.history.key() == key
        &&& self.history.transport() == client
        &&& self.search.key() == key
        &&& self.search.transport() == client
        &&& self.status.key() == key
        &&& self.status.transport() == client
    }

    /// One client per resource, all with the same key and configuration.
    pub fn new(api_key: &'a str, client: HttpClient) -> (insights: Insights<'a>)
        ensures
            insights.wired(api_key@, client),
    {
        let balance = Balance::new(api_key, client);
        let history = History::new(api_key, client);
        let search = Search::new(api_key, client);
        let status = Status::new(api_key, client);
        Insights { api_key, client, balance, history, search, status }
    }
}

} // verus!
