//! Client core for a media-streaming web API: access-token discovery,
//! request composition and typed decoding of the service's JSON responses.
//!
//! The crate performs no network or file access. It describes each request
//! as a value; callers carry the request out and hand the reply back.
//!
//! - [`client`]: the client and its token, resolved on first need and kept.
//! - [`resolver`]: discovery of the token, step by step.
//! - [`endpoints`]: the request of each API call and the meaning of its reply.
//! - [`transport`]: requests, the headers they all carry, and replies.
//! - [`models`]: the typed responses and their decoding from JSON.
//! - [`json`]: JSON documents as trees of plain values.
//! - [`pattern`]: regular-expression searches.
//! - [`text`]: text primitives.
//! - [`error`]: the failures a call can end in.

pub mod client;
pub mod endpoints;
pub mod error;
pub mod json;
pub mod models;
pub mod pattern;
pub mod resolver;
pub mod text;
pub mod transport;

pub use client::Client;
pub use error::Error;
