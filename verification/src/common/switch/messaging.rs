//! Messages to one recipient or to many.

use vstd::prelude::*;

verus! {

/// A message to one recipient.
#[derive(Debug)]
pub struct MessageRequest {
    /// The recipient, in international format.
    pub to: String,
    /// The sender ID.
    pub from: String,
    /// The text.
    pub sms: String,
    /// The kind of message.
    pub message_type: MessageType,
    /// The route it takes.
    pub channel: Channel,
    /// An attachment, for routes that take one.
    pub media: Option<Media>,
    /// The key of the account, stamped on by the client that sends the request.
    pub api_key: Option<String>,
}

impl MessageRequest {
    /// Whether `self` is `bare` with `key` stamped on and nothing else
    /// changed.
    pub open spec fn stamped(self, bare: Self, key: Seq<char>) -> bool {
        &&& self.api_key is Some
        &&& self.api_key->Some_0@ == key
        &&& self.to == bare.to
        &&& self.from == bare.from
        &&& self.sms == bare.sms
        &&& self.message_type == bare.message_type
        &&& self.channel == bare.channel
        &&& self.media == bare.media
    }

    /// A message without attachment and without a key.
    pub fn new(
        to: String,
        from: String,
        sms: String,
        message_type: MessageType,
        channel: Channel,
    ) -> (request: MessageRequest)
        ensures
            request == (MessageRequest {
                to,
                from,
                sms,
                message_type,
                channel,
                media: None,
                api_key: None,
            }),
    {
        MessageRequest {
            to,
            from,
            sms,
            message_type,
            channel,
            media: None,
            api_key: None,
        }
    }

    /// Stamps the account's key onto the request, replacing any key it
    /// carried.
    pub fn set_api_key(&mut self, api_key: &str)
        ensures
            final(self).stamped(*old(self), api_key@),
    {
        self.api_key = Some(api_key.to_owned());
    }
}

/// A message to many recipients.
#[derive(Debug)]
pub struct MessageBulkRequest {
    /// The recipients, in international format.
    pub to: Vec<String>,
    /// The sender ID.
    pub from: String,
    /// The text.
    pub sms: String,
    /// The kind of message.
    pub message_type: MessageType,
    /// The route it takes.
    pub channel: Channel,
    /// The key of the account, stamped on by the client that sends the request.
    pub api_key: Option<String>,
}

impl MessageBulkRequest {
    /// Whether `self` is `bare` with `key` stamped on and nothing else
    /// changed.
    pub open spec fn stamped(self, bare: Self, key: Seq<char>) -> bool {
        &&& self.api_key is Some
        &&& self.api_key->Some_0@ == key
        &&& self.to == bare.to
        &&& self.from == bare.from
        &&& self.sms == bare.sms
        &&& self.message_type == bare.message_type
        &&& self.channel == bare.channel
    }

    /// A bulk message without a key.
    pub fn new(
        to: Vec<String>,
        from: String,
        sms: String,
        message_type: MessageType,
        channel: Channel,
    ) -> (request: MessageBulkRequest)
        ensures
            request == (MessageBulkRequest {
                to,
                from,
                sms,
                message_type,
                channel,
                api_key: None,
            }),
    {
        MessageBulkRequest {
            to,
            from,
            sms,
            message_type,
            channel,
            api_key: None,
        }
    }

    /// Stamps the account's key onto the request, replacing any key it
    /// carried.
    pub fn set_api_key(&mut self, api_key: &str)
        ensures
            final(self).stamped(*old(self), api_key@),
    {
        self.api_key = Some(api_key.to_owned());
    }
}

/// An attachment to a message.
#[derive(Debug)]
pub struct Media {
    /// Where the attachment is.
    pub url: String,
    /// The text shown with it.
    pub caption: String,
}

/// The kind of a message.
#[derive(Debug, Clone, Copy, PartialEq, Eq)]
pub enum MessageType {
    /// Plain text.
    Plain,
}

/// The route of a message.
#[derive(Debug, Clone, Copy, PartialEq, Eq)]
pub enum Channel {
    /// The promotional route.
    Generic,
    /// The route that reaches numbers on do-not-disturb.
    Dnd,
    /// WhatsApp.
    Whatsapp,
}

} // verus!
