//! The root client.

use vstd::prelude::*;
use vstd::pervasive::unreached;
use crate::http::client::HttpClient;
use crate::rest::insights::insights::Insights;
use crate::rest::switch::switch::Switch;
use crate::rest::token::token::Token;

verus! {

/// The deadline of every call of a root client, in seconds.
pub const DEFAULT_TIMEOUT: u64 = 20;

/// Every resource client behind one key and one configuration.
#[derive(Debug)]
pub struct Termii<'a> {
    /// The key that every request carries.
    pub api_key: &'a str,
    /// The configuration that every request is built with.
    pub client: HttpClient,
    /// The one-time password clients.
    pub token: Token<'a>,
    /// The account insight clients.
    pub insights: Insights<'a>,
    /// The messaging clients.
    pub switch: Switch<'a>,
}

impl<'a> Termii<'a> {
    /// The root client for the account that `api_key` belongs to. Every
    /// resource client in it carries that key and the default deadline.
    pub fn new(api_key: &'a str) -> (termii: Termii<'a>)
        ensures
            termii.api_key@ == api_key@,
            termii.client.deadline() == DEFAULT_TIMEOUT,
            termii.token.wired(api_key@, termii.client),
            termii.insights.wired(api_key@, termii.client),
            termii.switch.wired(api_key@, termii.client),
    {
        let client = match HttpClient::new(DEFAULT_TIMEOUT) {
            Ok(client) => client,
            Err(_) => unreached(),
        };
        let token = Token::new(api_key, client);
        let switch = Switch::new(api_key, client);
        let insights = Insights::new(api_key, client);
        Termii { api_key, client, token, insights, switch }
    }
}

} // verus!
