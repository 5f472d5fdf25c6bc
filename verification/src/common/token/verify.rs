//! Checking a one-time password.

use vstd::prelude::*;

verus! {

/// A password to check.
#[derive(Debug)]
pub struct VerifyTokenRequest {
    /// The identifier that the password was issued under.
    pub pin_id: String,
    /// The password as the holder typed it.
    pub pin: String,
    /// The key of the account, stamped on by the client that sends the request.
    pub api_key: Option<String>,
}

impl VerifyTokenRequest {
    /// Whether `self` is `bare` with `key` stamped on and nothing else
    /// changed.
    pub open spec fn stamped(self, bare: Self, key: Seq<char>) -> bool {
        &&& self.api_key is Some
        &&& self.api_key->Some_0@ == key
        &&& self.pin_id == bare.pin_id
        &&& self.pin == bare.pin
    }

    /// A check without a key.
    pub fn new(pin_id: String, pin: String) -> (request: VerifyTokenRequest)
        ensures
            request == (VerifyTokenRequest { pin_id, pin, api_key: None }),
    {
        VerifyTokenRequest { pin_id, pin, api_key: None }
    }

    /// Stamps the account's key onto the request, replacing any key it
    /// carried.
    pub fn set_api_key(&mut self, api_key: &str)
        ensures
            final(self).stamped(*old(self), api_key@),
    {
        self.api_key = Some(api_key.to_owned());
    }
}

/// The answer to a check.
#[derive(Debug)]
pub struct VerifyTokenResponse {
    /// The identifier that the password was issued under.
    pub pin_id: String,
    /// Whether the password was right.
    pub verified: bool,
    /// The number it was sent to.
    pub msisdn: String,
}

} // verus!
