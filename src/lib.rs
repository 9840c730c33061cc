//! Signature verification and signing-block projection for a host runtime.
//!
//! The library maps every failure kind of the package verification engine
//! onto a stable status code, and projects a parsed signing block into a
//! typed object graph that the host bridge materialises.

pub mod boundary;
pub mod error;
pub mod host;
pub mod laws;
pub mod model;
pub mod projection;
