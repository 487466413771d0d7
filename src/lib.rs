//! Client library for the member entitlement management REST endpoints:
//! group entitlements, group members, user entitlements and the user
//! entitlement summary.
//!
//! The library describes each request completely (method, URL, query pairs,
//! headers, body) and decides what a response means. Sending the request and
//! obtaining credentials is left to the caller.
pub mod client;
pub mod group_entitlements;
pub mod http;
pub mod members;
pub mod operation;
pub mod response;
pub mod user_entitlement_summary;
pub mod user_entitlements;
