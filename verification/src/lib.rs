//! Converts bait rule documents (HTTP honeypot traps: method, path, status,
//! headers, body) into a consolidated Beelzebub service configuration:
//! path-to-regex translation, header re-encoding, status defaulting,
//! deduplication by derived routing key, and merging into a fresh or
//! pre-existing configuration.

pub mod convert;
pub mod loader;
pub mod merge;
pub mod model;
pub mod output;
