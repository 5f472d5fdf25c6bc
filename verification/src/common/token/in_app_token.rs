//! One-time passwords that are shown in the application instead of being sent.

use vstd::prelude::*;

verus! {

/// What a one-time password is made of.
#[allow(non_camel_case_types)]
#[derive(Debug, Clone, Copy, PartialEq, Eq)]
pub enum InAppTokenMessageType {
    /// Digits only.
    NUMERIC,
    /// Digits and letters.
    ALPHANUMERIC,
}

/// A request for a one-time password to show in the application.
#[derive(Debug)]
pub struct InAppTokenRequest {
    /// The number the password is for.
    pub phone_number: String,
    /// What the password is made of.
    pub pin_type: InAppTokenMessageType,
    /// How many tries the holder gets.
    pub pin_attempts: u8,
    /// How many minutes the password is valid.
    pub pin_time_to_live: usize,
    /// How many characters the password has.
    pub pin_length: u8,
    /// The key of the account, stamped on by the client that sends the request.
    pub api_key: Option<String>,
}

impl InAppTokenRequest {
    /// Whether `self` is `bare` with `key` stamped on and nothing else
    /// changed.
    pub open spec fn stamped(self, bare: Self, key: Seq<char>) -> bool {
        &&& self.api_key is Some
        &&& self.api_key->Some_0@ == key
        &&& self.phone_number == bare.phone_number
        &&& self.pin_type == bare.pin_type
        &&& self.pin_attempts == bare.pin_attempts
        &&& self.pin_time_to_live == bare.pin_time_to_live
        &&& self.pin_length == bare.pin_length
    }

    /// A request without a key.
    pub fn new(
        phone_number: String,
        pin_type: InAppTokenMessageType,
        pin_attempts: u8,
        pin_time_to_live: usize,
        pin_length: u8,
    ) -> (request: InAppTokenRequest)
        ensures
            request == (InAppTokenRequest {
                phone_number,
                pin_type,
                pin_attempts,
                pin_time_to_live,
                pin_length,
                api_key: None,
            }),
    {
        InAppTokenRequest {
            phone_number,
            pin_type,
            pin_attempts,
            pin_time_to_live,
            pin_length,
            api_key: None,
        }
    }

    /// Stamps the account's key onto the request, replacing any key it
    /// carried.
    pub fn set_api_key(&mut self, api_key: &str)
        ensures
            final(self).stamped(*old(self), api_key@),
    {
        self.api_key = Some(api_key.to_owned());
    }
}

/// The answer to a request for an in-application password.
#[derive(Debug)]
pub struct InAppTokenResponse {
    /// The outcome.
    pub status: String,
    /// The password and what identifies it.
    pub data: Data,
}

/// An in-application password.
#[derive(Debug)]
pub struct Data {
    /// The identifier to verify the password with.
    pub pin_id: String,
    /// The password.
    pub otp: String,
    /// The number it is for.
    pub phone_number: String,
    /// The number as the service wrote it down.
    pub phone_number_other: String,
}

} // verus!
