//! Messages made from a template registered with the service.

use vstd::prelude::*;

verus! {

/// The values that fill a template.
#[derive(Debug)]
pub struct TemplatesData {
    /// The product the message speaks of.
    pub product_name: String,
    /// The one-time password.
    pub otp: String,
    /// How long the password is valid.
    pub expiry_time: String,
}

impl TemplatesData {
    /// The values that fill a template.
    pub fn new(product_name: String, otp: String, expiry_time: String) -> (data: TemplatesData)
        ensures
            data == (TemplatesData { product_name, otp, expiry_time }),
    {
        TemplatesData { product_name, otp, expiry_time }
    }
}

/// A message made from a template.
#[derive(Debug)]
pub struct TemplatesRequest {
    /// The recipient, in international format.
    pub phone_number: String,
    /// The device the message is sent from.
    pub device_id: String,
    /// The template.
    pub template_id: String,
    /// The values that fill it.
    pub data: TemplatesData,
    /// The key of the account, stamped on by the client that sends the request.
    pub api_key: Option<String>,
}

impl TemplatesRequest {
    /// Whether `self` is `bare` with `key` stamped on and nothing else
    /// changed.
    pub open spec fn stamped(self, bare: Self, key: Seq<char>) -> bool {
        &&& self.api_key is Some
        &&& self.api_key->Some_0@ == key
        &&& self.phone_number == bare.phone_number
        &&& self.device_id == bare.device_id
        &&& self.template_id == bare.template_id
        &&& self.data == bare.data
    }

    /// A template message without a key.
    pub fn new(
        phone_number: String,
        device_id: String,
        template_id: String,
        data: TemplatesData,
    ) -> (request: TemplatesRequest)
        ensures
            request == (TemplatesRequest {
                phone_number,
                device_id,
                template_id,
                data,
                api_key: None,
            }),
    {
        TemplatesRequest {
            phone_number,
            device_id,
            template_id,
            data,
            api_key: None,
        }
    }

    /// Stamps the account's key onto the request, replacing any key it
    /// carried.
    pub fn set_api_key(&mut self, api_key: &str)
        ensures
            final(self).stamped(*old(self), api_key@),
    {
        self.api_key = Some(api_key.to_owned());
    }
}

/// The answer to a template message.
#[derive(Debug)]
pub struct TemplateItem {
    /// The outcome, as a code.
    pub code: String,
    /// The identifier of the message.
    pub message_id: String,
    /// The outcome, in words.
    pub message: String,
    /// What is left on the account.
    pub balance: String,
    /// The account holder.
    pub user: String,
}

} // verus!
