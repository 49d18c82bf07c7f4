//! Firmware resolution and caching for an over-the-air update service.
//!
//! The crate holds the decisions of the service: which registry tag is the
//! latest release, whether a cached artifact is still current, who fetches
//! and who waits when several requests meet, and what the bounded cache keeps.
//! Network and broker traffic stay with the caller, which feeds the answers
//! back in as plain values.

pub mod archive;
pub mod cache;
pub mod checksum;
pub mod config;
pub mod error;
pub mod flight;
pub mod gateway;
pub mod http;
pub mod manager;
pub mod record;
pub mod request;
pub mod resolver;
pub mod system;
pub mod text;
pub mod version;
pub mod webhook;
