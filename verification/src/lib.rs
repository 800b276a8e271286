//! Error taxonomy and timestamp codec for an HTTP-based API client core.
//!
//! The taxonomy unifies transport, protocol and application-level failures
//! into one typed error channel, generic over the transport's own error type.
//! The codec encodes and decodes RFC 3339 timestamps with an explicit offset.

pub mod error;
pub mod iso8601;
