//! Sender IDs: the names that messages are sent under.

use vstd::prelude::*;

verus! {

/// One page of the sender ID listing.
#[derive(Debug)]
pub struct SenderIDResponse {
    /// The number of this page.
    pub current_page: i64,
    /// The sender IDs on this page.
    pub data: Vec<SenderIDItem>,
    /// The address of the first page.
    pub first_page_url: String,
    /// The position of the first item.
    pub from: Option<i64>,
    /// The number of the last page.
    pub last_page: i64,
    /// The address of the last page.
    pub last_page_url: String,
    /// The address of the next page, if any.
    pub next_page_url: Option<String>,
    /// The address of the listing.
    pub path: String,
    /// How many items a page holds.
    pub per_page: i64,
    /// The address of the page before, if any.
    pub prev_page_url: Option<String>,
    /// The position of the last item.
    pub to: Option<i64>,
    /// How many items the listing holds.
    pub total: i64,
}

/// One sender ID.
#[derive(Debug)]
pub struct SenderIDItem {
    /// The name.
    pub sender_id: String,
    /// Whether it has been approved.
    pub status: String,
    /// The company it was requested for.
    pub company: Option<String>,
    /// What it is used for.
    pub usecase: Option<String>,
    /// The country it is valid in.
    pub country: Option<String>,
    /// When it was requested.
    pub created_at: String,
}

/// A request for a new sender ID.
#[derive(Debug)]
pub struct SenderIDRequest {
    /// The name asked for.
    pub sender_id: String,
    /// A sample of the messages it will send.
    pub usecase: String,
    /// The company it is for.
    pub company: String,
    /// The key of the account, stamped on by the client that sends the request.
    pub api_key: Option<String>,
}

impl SenderIDRequest {
    /// Whether `self` is `bare` with `key` stamped on and nothing else
    /// changed.
    pub open spec fn stamped(self, bare: Self, key: Seq<char>) -> bool {
        &&& self.api_key is Some
        &&& self.api_key->Some_0@ == key
        &&& self.sender_id == bare.sender_id
        &&& self.usecase == bare.usecase
        &&& self.company == bare.company
    }

    /// A request without a key.
    pub fn new(sender_id: String, usecase: String, company: String) -> (request: SenderIDRequest)
        ensures
            request == (SenderIDRequest { sender_id, usecase, company, api_key: None }),
    {
        SenderIDRequest { sender_id, usecase, company, api_key: None }
    }

    /// Stamps the account's key onto the request, replacing any key it
    /// carried.
    pub fn set_api_key(&mut self, api_key: &str)
        ensures
            final(self).stamped(*old(self), api_key@),
    {
        self.api_key = Some(api_key.to_owned());
    }
}

/// The answer to a request for a sender ID.
#[derive(Debug)]
pub struct SenderIDRequestResponse {
    /// The outcome, as a code.
    pub code: String,
    /// The outcome, in words.
    pub message: String,
}

} // verus!
