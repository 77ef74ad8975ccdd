//! Client-side core of a vendor translation HTTP API: request signing and
//! form construction for the text, image, vertical-domain and document
//! endpoints.
//!
//! The signing protocol concatenates request fields in a fixed order, runs
//! MD5 over the UTF-8 bytes of that concatenation and attaches the lowercase
//! hex digest as the `sign` field.  Document endpoints additionally sort
//! their fields by key into a canonical query string before signing.  All of
//! that logic lives here, specified and verified; the HTTP transport is left
//! to the caller.

pub mod canon;
pub mod config;
pub mod constant;
pub mod decimal;
pub mod domain;
pub mod form;
pub mod lang;
pub mod model;
pub mod sign;
