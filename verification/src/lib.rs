//! Streaming length enforcement for byte streams.
//!
//! The heart of the crate is [`reader::BoundedReader`], a decorator for a
//! readable byte stream: as bytes flow through it, it counts them and fails
//! the read as soon as a configured maximum length (and, optionally, an
//! expected exact length) is violated, without buffering the payload.
//! [`middleware`] holds the pure decision logic of an upload-limiting HTTP
//! middleware built on top of the reader.

pub mod digits;
pub mod laws;
pub mod middleware;
pub mod reader;
