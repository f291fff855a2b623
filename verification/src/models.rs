//! Typed forms of the service's responses.
//!
//! A value of these types comes only from decoding a response body and is
//! read-only afterwards.

pub mod collections;
pub mod media;
pub mod resources;
