//! Safe facade over a C-style JSON messaging client.
//!
//! The native library hands out an opaque handle and answers NUL-terminated
//! UTF-8 requests with NUL-terminated byte buffers that it owns and reuses.
//! This crate holds the parts of the facade that decide and compute: the
//! wire form of a request and its embedded-NUL policy ([`codec`]), the
//! UTF-8 policy on response bytes ([`codec`]), the joint-ownership rules
//! under which the handle is destroyed exactly once ([`lifecycle`]), and
//! the generation counter that invalidates a response borrow at the next
//! call on the same handle ([`epoch`]).

use vstd::prelude::*;

pub mod codec;
pub mod epoch;
pub mod lifecycle;

verus! {

/// The error kinds the facade surfaces to its callers.
#[derive(Clone, Copy, Debug, PartialEq, Eq, Structural)]
pub enum ClientError {
    /// A text argument holds an embedded NUL, so no native call was made.
    EmbeddedNul,
    /// The native layer handed back bytes that are not valid UTF-8.
    InvalidUtf8,
    /// The native create call returned a null handle.
    CreateFailed,
}

} // verus!
