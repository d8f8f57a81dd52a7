//! A verified core for a terminal chat client.
//!
//! Messages travel in fixed-size 256-byte frames: the UTF-8 bytes of a JSON
//! object `{"name": ..., "message": ...}` followed by zero-byte padding. The
//! [`codec`] module proves the framing round trip; the [`session`] module
//! holds the decision logic of the non-blocking poll loop that owns the
//! socket. All I/O stays outside this crate.

pub mod codec;
pub mod session;
