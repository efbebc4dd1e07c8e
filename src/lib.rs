//! A typed client library for the Kodik video-catalogue REST API: query
//! building and serialization, request addressing, response-envelope decoding,
//! and the pagination engine of the release listing.
pub mod client;
pub mod countries;
pub mod error;
pub mod list;
pub mod qualities;
pub mod query;
pub mod response;
pub mod search;
pub mod types;
pub mod unify_seasons;

pub use client::{Client, ClientBuilder, PostRequest};
