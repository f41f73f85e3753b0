//! A client pipeline that caches a short-lived bearer credential, turns
//! source files into embedding requests with bounded retry, and hands the
//! results to a persistence sink.
//!
//! The library holds the decisions of each component as verified functions
//! over plain values; the runtime that performs the network calls, sleeps and
//! channel traffic drives them.

mod headers;

pub mod auth;
pub mod config;
pub mod embed;
pub mod util;
