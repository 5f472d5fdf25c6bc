//! Phonebooks: the contact lists that campaigns are sent to.

use vstd::prelude::*;

verus! {

/// One page of the phonebook listing.
#[derive(Debug)]
pub struct PhoneBookListResponse {
    /// The phonebooks on this page.
    pub data: Vec<PhoneBookItem>,
    /// Addresses of the neighbouring pages.
    pub links: Links,
    /// Where this page stands in the listing.
    pub meta: Meta,
}

/// One phonebook.
#[derive(Debug)]
pub struct PhoneBookItem {
    /// The identifier of the phonebook.
    pub id: String,
    /// Its name.
    pub name: String,
    /// How many contacts it holds.
    pub total_number_of_contacts: i64,
    /// When it was created.
    pub date_created: String,
    /// When it was last changed.
    pub last_updated: String,
}

/// The addresses of the neighbouring pages of a listing.
#[derive(Debug)]
pub struct Links {
    /// The first page.
    pub first: String,
    /// The last page.
    pub last: String,
    /// The page before this one, if any.
    pub prev: Option<String>,
    /// The page after this one, if any.
    pub next: Option<String>,
}

/// Where a page stands in its listing.
#[derive(Debug)]
pub struct Meta {
    /// The number of this page.
    pub current_page: i64,
    /// The position of its first item.
    pub from: Option<i64>,
    /// The number of the last page.
    pub last_page: i64,
    /// The address of the listing.
    pub path: String,
    /// How many items a page holds.
    pub per_page: i64,
    /// The position of its last item.
    pub to: Option<i64>,
    /// How many items the listing holds.
    pub total: i64,
}

/// The answer to creating, updating or deleting a phonebook.
#[derive(Debug)]
pub struct PhoneBookCreateUpdateDeleteResponse {
    /// What the service did.
    pub message: String,
}

/// What creating or updating a phonebook sends.
#[derive(Debug)]
pub struct PhoneBookCreateUpdateRequest {
    /// The name of the phonebook.
    pub phonebook_name: String,
    /// What it is for.
    pub description: String,
    /// The key of the account, stamped on by the client that sends the request.
    pub api_key: Option<String>,
}

impl PhoneBookCreateUpdateRequest {
    /// Whether `self` is `bare` with `key` stamped on and nothing else
    /// changed.
    pub open spec fn stamped(self, bare: Self, key: Seq<char>) -> bool {
        &&& self.api_key is Some
        &&& self.api_key->Some_0@ == key
        &&& self.phonebook_name == bare.phonebook_name
        &&& self.description == bare.description
    }

    /// A request without a key.
    pub fn new(
        phonebook_name: String,
        description: String,
    ) -> (request: PhoneBookCreateUpdateRequest)
        ensures
            request == (PhoneBookCreateUpdateRequest {
                phonebook_name,
                description,
                api_key: None,
            }),
    {
        PhoneBookCreateUpdateRequest {
            phonebook_name,
            description,
            api_key: None,
        }
    }

    /// Stamps the account's key onto the request, replacing any key it
    /// carried.
    pub fn set_api_key(&mut self, api_key: &str)
        ensures
            final(self).stamped(*old(self), api_key@),
    {
        self.api_key = Some(api_key.to_owned());
    }
}

} // verus!
