//! Request construction and outcome handling for a phone-number lookup client.
//!
//! The crate builds the URL and the `Authorization` header value of a lookup
//! request from an account's credentials and the enrichment fields asked for,
//! and decides what a finished exchange reports. Every executable function
//! carries a contract over the character sequences of the strings involved.

pub mod base64;
pub mod field;
pub mod model;
pub mod report;
pub mod request;
pub mod text;
