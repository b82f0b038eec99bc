//! Client for a length-prefixed variable read/write protocol.
//!
//! The wire codec and the decisions of each transaction are verified here;
//! opening sockets and moving bytes is left to the caller.
pub mod client;
pub mod error;
pub mod frame;

pub use client::Client;
pub use error::OsvError;
