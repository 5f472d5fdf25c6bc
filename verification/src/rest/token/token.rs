//! The one-time password clients, side by side.

use vstd::prelude::*;
use crate::http::client::HttpClient;
use crate::rest::token::in_app_token::InAppToken;
use crate::rest::token::request::RequestToken;
use crate::rest::token::verify::VerifyToken;

verus! {

/// The one-time password clients.
#[derive(Debug)]
pub struct Token<'a> {
    /// The key that the clients were made with.
    pub api_key: &'a str,
    /// The configuration that the clients were made with.
    pub client: HttpClient,
    /// Passwords sent to a phone.
    pub request_token: RequestToken<'a>,
    /// Checks of passwords.
    pub verify_token: VerifyToken<'a>,
    /// Passwords shown in the application.
    pub in_app_token: InAppToken<'a>,
}

impl<'a> Token<'a> {
    /// Whether this client and each client in it carries `key` and builds
    /// with `client`.
    pub open spec fn wired(&self, key: Seq<char>, client: HttpClient) -> bool {
        &&& self.api_key@ == key
        &&& self.client == client
        &&& self.request_token.key() == key
        &&& self.request_token.transport() == client
        &&& self.verify_token.key() == key
        &&& self.verify_token.transport() == client
        &&& self.in_app_token.key() == key
        &&& self.in_app_token.transport() == client
    }

    /// One client per resource, all with the same key and configuration.
    pub fn new(api_key: &'a str, client: HttpClient) -> (token: Token<'a>)
        ensures
            token.wired(api_key@, client),
    {
        let request_token = RequestToken::new(api_key, client);
        let verify_token = VerifyToken::new(api_key, client);
        let in_app_token = InAppToken::new(api_key, client);
        Token { api_key, client, request_token, verify_token, in_app_token }
    }
}

} // verus!
