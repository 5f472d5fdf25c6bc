//! One-time passwords sent to a phone.

use vstd::prelude::*;

verus! {

/// What the message that carries the password is made of.
#[allow(non_camel_case_types)]
#[derive(Debug, Clone, Copy, PartialEq, Eq)]
pub enum RequestTokenMessageType {
    /// Digits only.
    NUMERIC,
    /// Digits and letters.
    ALPHANUMERIC,
}

/// What a one-time password is made of.
#[allow(non_camel_case_types)]
#[derive(Debug, Clone, Copy, PartialEq, Eq)]
pub enum RequestTokenPinType {
    /// Digits only.
    NUMERIC,
    /// Digits and letters.
    ALPHANUMERIC,
}

/// The route the password takes.
#[derive(Debug, Clone, Copy, PartialEq, Eq)]
pub enum RequestTokenChannel {
    /// The promotional route.
    Generic,
    /// The route that reaches numbers on do-not-disturb.
    Dnd,
    /// WhatsApp.
    Whatsapp,
}

/// A request to send a one-time password.
#[derive(Debug)]
pub struct RequestTokenRequest {
    /// What the message is made of.
    pub message_type: RequestTokenMessageType,
    /// The recipient, in international format.
    pub to: String,
    /// The sender ID.
    pub from: String,
    /// The route the message takes.
    pub channel: RequestTokenChannel,
    /// How many tries the holder gets.
    pub pin_attempts: u8,
    /// How many minutes the password is valid.
    pub pin_time_to_live: usize,
    /// How many characters the password has.
    pub pin_length: u8,
    /// The part of the text that the password replaces.
    pub pin_placeholder: String,
    /// The text, with the placeholder in it.
    pub message_text: String,
    /// What the password is made of.
    pub pin_type: RequestTokenPinType,
    /// The key of the account, stamped on by the client that sends the request.
    pub api_key: Option<String>,
}

impl RequestTokenRequest {
    /// Whether `self` is `bare` with `key` stamped on and nothing else
    /// changed.
    pub open spec fn stamped(self, bare: Self, key: Seq<char>) -> bool {
        &&& self.api_key is Some
        &&& self.api_key->Some_0@ == key
        &&& self.message_type == bare.message_type
        &&& self.to == bare.to
        &&& self.from == bare.from
        &&& self.channel == bare.channel
        &&& self.pin_attempts == bare.pin_attempts
        &&& self.pin_time_to_live == bare.pin_time_to_live
        &&& self.pin_length == bare.pin_length
        &&& self.pin_placeholder == bare.pin_placeholder
        &&& self.message_text == bare.message_text
        &&& self.pin_type == bare.pin_type
    }

    /// A request without a key.
    pub fn new(
        message_type: RequestTokenMessageType,
        to: String,
        from: String,
        channel: RequestTokenChannel,
        pin_attempts: u8,
        pin_time_to_live: usize,
        pin_length: u8,
        pin_placeholder: String,
        message_text: String,
        pin_type: RequestTokenPinType,
    ) -> (request: RequestTokenRequest)
        ensures
            request == (RequestTokenRequest {
                message_type,
                to,
                from,
                channel,
                pin_attempts,
                pin_time_to_live,
                pin_length,
                pin_placeholder,
                message_text,
                pin_type,
                api_key: None,
            }),
    {
        RequestTokenRequest {
            message_type,
            to,
            from,
            channel,
            pin_attempts,
            pin_time_to_live,
            pin_length,
            pin_placeholder,
            message_text,
            pin_type,
            api_key: None,
        }
    }

    /// Stamps the account's key onto the request, replacing any key it
    /// carried.
    pub fn set_api_key(&mut self, api_key: &str)
        ensures
            final(self).stamped(*old(self), api_key@),
    {
        self.api_key = Some(api_key.to_owned());
    }
}

/// The answer to a request to send a password.
#[derive(Debug)]
pub struct RequestTokenResponse {
    /// The identifier to verify the password with.
    pub pin_id: String,
    /// The recipient.
    pub to: String,
    /// What became of the message.
    pub sms_status: String,
}

} // verus!
