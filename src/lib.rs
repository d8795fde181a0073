//! A client for the OpenExchangeRates web API.
//!
//! The library builds the request URLs of the four endpoints and turns the
//! JSON documents that come back into typed records. The HTTP exchange itself
//! is handed to a [`client::Transport`] that the caller supplies.
pub mod json;
pub mod codemap;
pub mod error;
pub mod records;
pub mod decode;
pub mod encode;
pub mod date;
pub mod client;
