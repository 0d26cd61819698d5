//! Client library for a deployment-management service: domain records, a
//! builder, the JSON wire encoding of requests, request plans and the
//! classification of replies.

pub mod types;
pub mod helpers;
pub mod wire;
pub mod client;
pub mod reply;
pub mod cleanup;
