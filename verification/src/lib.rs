//! A verified core for a small torrent-download proxy.
//!
//! The library models the decision pipeline of an HTTP route handler that
//! fetches a `.torrent` file from an upstream service in two sequential
//! calls: first it asks the upstream for a short-lived download token, then
//! it requests the file itself using that token.  Everything the handler
//! decides or computes — request URLs and bodies, the delay policy between
//! the two calls, success checks on HTTP statuses, token extraction from
//! the first response, response headers and error messages — lives here
//! with contracts.  The surrounding I/O (the HTTP server, the HTTP client,
//! the actual sleeping) stays outside, driven by the values this library
//! produces.

pub mod digits;
pub mod errors;
pub mod handler;
pub mod requests;
pub mod token;
