//! Error numbers that the categories classify.
//!
//! `EAGAIN` and `EWOULDBLOCK` carry their Linux numbers.
use vstd::prelude::*;

verus! {

/// "Resource temporarily unavailable".
pub const EAGAIN: i32 = 11;

/// "Operation would block"; the same number as `EAGAIN` on Linux.
pub const EWOULDBLOCK: i32 = 11;

/// The Windows socket error for an operation that would block.
pub const WSAEWOULDBLOCK: i32 = 10035;

} // verus!
