//! A dynamic-DNS updater for a JSON-over-HTTP DNS management API: the wire
//! envelope, the authenticated session protocol and the reconciliation of
//! address records against the host's public addresses.

pub mod json;
pub mod number;
pub mod errors;
pub mod envelope;
pub mod models;
pub mod session;
pub mod reconcile;
pub mod text;
pub mod cli;
