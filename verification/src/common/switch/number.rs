//! Messages sent from an automatically chosen number.

use vstd::prelude::*;

verus! {

/// A message sent from an automatically chosen number.
#[derive(Debug)]
pub struct NumberMessageRequest {
    /// The recipient, in international format.
    pub to: String,
    /// The text.
    pub sms: String,
    /// The key of the account, stamped on by the client that sends the request.
    pub api_key: Option<String>,
}

impl NumberMessageRequest {
    /// Whether `self` is `bare` with `key` stamped on and nothing else
    /// changed.
    pub open spec fn stamped(self, bare: Self, key: Seq<char>) -> bool {
        &&& self.api_key is Some
        &&& self.api_key->Some_0@ == key
        &&& self.to == bare.to
        &&& self.sms == bare.sms
    }

    /// A message without a key.
    pub fn new(to: String, sms: String) -> (request: NumberMessageRequest)
        ensures
            request == (NumberMessageRequest { to, sms, api_key: None }),
    {
        NumberMessageRequest { to, sms, api_key: None }
    }

    /// Stamps the account's key onto the request, replacing any key it
    /// carried.
    pub fn set_api_key(&mut self, api_key: &str)
        ensures
            final(self).stamped(*old(self), api_key@),
    {
        self.api_key = Some(api_key.to_owned());
    }
}

} // verus!
