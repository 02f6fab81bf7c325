//! Synchronous gateway library for DNS resolution and HTTP execution over a
//! C-style boundary.
//!
//! The library holds the boundary logic itself: validating the byte strings
//! that arrive from a foreign caller, selecting nameservers, parsing header
//! lines, choosing the HTTP method, and folding every outcome into a result
//! envelope in which exactly one of error text and success payload is
//! present. The network calls themselves (resolver lookups, HTTP sends) are
//! performed by the surrounding program, which hands their outcomes back to
//! the functions here.

pub mod dns;
pub mod envelope;
pub mod http;
pub mod probe;
pub mod text;
