//! `herder` models the Mastodon REST API: its entities, its methods and the
//! requests that reach them.
//!
//! The library computes and does not talk: it builds the description of a
//! request and reads the body of an answer, and leaves the exchange itself
//! to whoever holds a transport.
pub mod address;
pub mod api;
pub mod errors;
pub mod json;
pub mod mastodon;
pub mod text;

pub use api::v1::client::Client;
pub use errors::{DecodeError, DecodeReason, Error, Fault};
pub use mastodon::Mastodon;
