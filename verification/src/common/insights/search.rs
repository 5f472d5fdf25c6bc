//! Whether a number is on do-not-disturb.

use vstd::prelude::*;

verus! {

/// What is known of a number.
#[derive(Debug)]
pub struct SearchItem {
    /// The number.
    pub number: String,
    /// The outcome, in words.
    pub message: String,
    /// The outcome.
    pub status: String,
    /// Whether do-not-disturb is on.
    pub dnd_active: bool,
    /// The name of the network.
    pub network: String,
    /// The code of the network.
    pub network_code: String,
}

} // verus!
