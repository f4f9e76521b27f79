//! The values exchanged with the operating system.
//!
//! A system call is made by the caller of this crate, who reports what came
//! back in one of the reply types below. Whether a reply means success is
//! decided here, from the raw return value, and not by the caller.

use libc::c_int;
use vstd::prelude::*;

verus! {

/// An error of the operating system: the code that a failed system call left
/// for its caller.
#[derive(Clone, Copy, Debug, PartialEq, Eq)]
pub struct OsError {
    pub code: c_int,
}

/// What a call on a descriptor's flag word handed back.
#[derive(Clone, Copy, Debug, PartialEq, Eq)]
pub struct FlagsReply {
    /// The return value of the call. A query returns the flag word, which is
    /// never negative, and a negative value on failure. A command returns zero,
    /// and anything else on failure.
    pub value: c_int,
    /// The error that the operating system held for the calling thread right
    /// after the call. It is read only where `value` reports a failure.
    pub error: OsError,
}

/// What a query for the bytes queued on a descriptor handed back.
#[derive(Clone, Copy, Debug, PartialEq, Eq)]
pub struct QueueReply {
    /// The return value of the call: zero, and anything else on failure.
    pub status: c_int,
    /// The number that the call stored for its caller: the bytes that can be
    /// read from the descriptor without waiting, where `status` is zero.
    pub count: c_int,
    /// The error that the operating system held for the calling thread right
    /// after the call. It is read only where `status` reports a failure.
    pub error: OsError,
}

} // verus!
