//! Verified core of a binding to a native line-editing library.
//!
//! The native editor owns terminal handling, history storage and key
//! dispatch; this crate holds the logic that surrounds those calls and can
//! be checked: converting text to and from null-terminated byte buffers,
//! assembling candidate arrays for the completion bridges, computing key
//! codes and routing, and interpreting history status codes.  The unsafe
//! shell that actually crosses the C boundary lives outside this crate and
//! hands these functions plain byte values.

pub mod bridge;
pub mod codec;
pub mod history;
pub mod keys;

pub use keys::Key;
pub use keys::Status;
