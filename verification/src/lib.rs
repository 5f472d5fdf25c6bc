//! A transport-free core for the Termii messaging API.
//!
//! The crate builds the requests that the REST endpoints expect, classifies
//! what comes back, and drives the page-by-page traversal of the listing
//! endpoints. Sending bytes over the wire is left to the caller.

pub mod common;
pub mod http;
pub mod rest;
