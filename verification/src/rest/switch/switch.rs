//! The messaging clients, side by side.

use vstd::prelude::*;
use crate::http::client::HttpClient;
use crate::rest::switch::campaign::Campaign;
use crate::rest::switch::messaging::Messaging;
use crate::rest::switch::number::Number;
use crate::rest::switch::sender_id::SenderID;
use crate::rest::switch::templates::Templates;

verus! {

/// The messaging clients.
#[derive(Debug)]
pub struct Switch<'a> {
    /// The key that the clients were made with.
    pub api_key: &'a str,
    /// The configuration that the clients were made with.
    pub client: HttpClient,
    /// Template messages.
    pub templates: Templates<'a>,
    /// Sender IDs.
    pub sender_id: SenderID<'a>,
    /// Phonebooks.
    pub campaign: Campaign<'a>,
    /// Messages from an automatically chosen number.
    pub number: Number<'a>,
    /// Messages.
    pub messaging: Messaging<'a>,
}

impl<'a> Switch<'a> {
    /// Whether this client and each client in it carries `key` and builds
    /// with `client`.
    pub open spec fn wired(&self, key: Seq<char>, client: HttpClient) -> bool {
        &&& self.api_key@ == key
        &&& self.client == client
        &&& self.templates.key() == key
        &&& self.templates.transport() == client
        &&& self.sender_id.key() == key
        &&& self.sender_id.transport() == client
        &&& self.campaign.key() == key
        &&& self.campaign.transport() == client
        &&& self.number.key() == key
        &&& self.number.transport() == client
        &&& self.messaging.key() == key
        &&& self.messaging.transport() == client
    }

    /// One client per resource, all with the same key and configuration.
    pub fn new(api_key: &'a str, client: HttpClient) -> (switch: Switch<'a>)
        ensures
            switch.wired(api_key@, client),
    {
        let templates = Templates::new(api_key, client);
        let sender_id = SenderID::new(api_key, client);
        let campaign = Campaign::new(api_key, client);
        let number = Number::new(api_key, client);
        let messaging = Messaging::new(api_key, client);
        Switch { api_key, client, templates, sender_id, campaign, number, messaging }
    }
}

} // verus!
