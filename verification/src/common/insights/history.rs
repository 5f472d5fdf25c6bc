//! The messages an account has sent.

use vstd::prelude::*;

verus! {

/// One sent message.
#[derive(Debug)]
pub struct HistoryItem {
    /// The sender ID.
    pub sender: String,
    /// The recipient.
    pub receiver: String,
    /// The text.
    pub message: String,
    /// What it cost.
    pub amount: usize,
    /// How often it was rerouted.
    pub reroute: usize,
    /// What became of it.
    pub status: String,
    /// The kind of message.
    pub sms_type: String,
    /// Who sent it.
    pub send_by: String,
    /// The attachment, if any.
    pub media_url: Option<String>,
    /// The identifier of the message.
    pub message_id: String,
    /// Where delivery reports go, if anywhere.
    pub notify_url: Option<String>,
    /// The identifier of the delivery report, if any.
    pub notify_id: Option<String>,
    /// When it was sent.
    pub created_at: String,
}

/// The envelope of one page of the history.
#[derive(Debug)]
pub struct HistoryResponse {
    /// The page.
    pub data: HistoryResponseData,
}

/// One page of the history.
#[derive(Debug)]
pub struct HistoryResponseData {
    /// The number of this page.
    pub current_page: i64,
    /// The messages on this page.
    pub data: Vec<HistoryItem>,
    /// The address of the first page.
    pub first_page_url: String,
    /// The position of the first item.
    pub from: Option<i64>,
    /// The number of the last page.
    pub last_page: i64,
    /// The address of the last page.
    pub last_page_url: String,
    /// The address of the next page, if any.
    pub next_page_url: Option<String>,
    /// The address of the listing.
    pub path: String,
    /// How many items a page holds.
    pub per_page: i64,
    /// The address of the page before, if any.
    pub prev_page_url: Option<String>,
    /// The position of the last item.
    pub to: Option<i64>,
    /// How many items the listing holds.
    pub total: i64,
}

} // verus!
