//! The core of a proxy that resizes images on request.
//!
//! A request names a source image and a target size in its path, and
//! carries a signature over both. The crate checks the signature, turns the
//! size into operations, holds requests and images to configured limits,
//! names cache entries by a digest of their canonical text, applies the
//! operations, and decides, step by step, what a host has to do to answer a
//! request from two cache tiers or from the origin.
//!
//! Hosting, routing, the blob store and the fetch from the origin are the
//! host's; `signature`, `api` and `infra` are what it builds on.

pub mod api;
pub mod infra;
pub mod signature;
pub mod text;
