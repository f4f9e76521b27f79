//! Descriptor mode control: switching the non-blocking bit of a descriptor's
//! flag word.
//!
//! The flag word lives in the operating system, so a change takes two system
//! calls: one reads the word, one writes it back with the bit changed. A
//! change is a value of [`ModeChange`] that names the call to make next. Its
//! driver makes that call and hands what came back to [`ModeChange::step`],
//! until the change is [`ModeChange::Done`]. A call that fails ends the change
//! at once, with the error of that call; nothing is tried twice.

use crate::os::{FlagsReply, OsError};
use libc::c_int;
use vstd::prelude::*;

verus! {

/// The bit of a flag word that makes operations on the descriptor return at
/// once instead of waiting.
pub const O_NONBLOCK: c_int = 0o4000;

/// Whether operations on a descriptor with this flag word return at once.
pub open spec fn is_nonblocking(flags: c_int) -> bool {
    flags & O_NONBLOCK != 0
}

/// The flag word `flags` with the non-blocking bit cleared where `blocking`
/// holds, and set where it does not.
pub open spec fn spec_new_flags(flags: c_int, blocking: bool) -> c_int {
    if blocking {
        flags & !O_NONBLOCK
    } else {
        flags | O_NONBLOCK
    }
}

/// The new flag word says what was asked for, differs from the old one in the
/// non-blocking bit at most, and is a valid word (not negative) where the old
/// one was.
pub proof fn lemma_new_flags_changes_one_bit(flags: c_int, blocking: bool)
    ensures
        is_nonblocking(spec_new_flags(flags, blocking)) == !blocking,
        spec_new_flags(flags, blocking) & !O_NONBLOCK == flags & !O_NONBLOCK,
        flags >= 0 ==> spec_new_flags(flags, blocking) >= 0,
{
    assert((flags & !O_NONBLOCK) & O_NONBLOCK == 0) by (bit_vector);
    assert((flags | O_NONBLOCK) & O_NONBLOCK != 0) by (bit_vector);
    assert((flags & !O_NONBLOCK) & !O_NONBLOCK == flags & !O_NONBLOCK) by (bit_vector);
    assert((flags | O_NONBLOCK) & !O_NONBLOCK == flags & !O_NONBLOCK) by (bit_vector);
    assert(flags >= 0 ==> flags & !O_NONBLOCK >= 0) by (bit_vector);
    assert(flags >= 0 ==> flags | O_NONBLOCK >= 0) by (bit_vector);
}

/// A flag word that already says what is asked for is left as it is.
pub proof fn lemma_new_flags_keeps_matching_word(flags: c_int, blocking: bool)
    requires
        is_nonblocking(flags) == !blocking,
    ensures
        spec_new_flags(flags, blocking) == flags,
{
    assert(flags & O_NONBLOCK == 0 ==> flags & !O_NONBLOCK == flags) by (bit_vector);
    assert(flags & O_NONBLOCK != 0 ==> flags | O_NONBLOCK == flags) by (bit_vector);
}

/// Of two changes in a row the second decides: the word is the one that the
/// second change alone would have given. So a change made twice is made once,
/// and a descriptor that is switched to non-blocking and back to blocking has
/// the bit clear and every other bit as before: the very word it had, where
/// it was blocking before.
pub proof fn lemma_new_flags_last_change_wins(flags: c_int, first: bool, second: bool)
    ensures
        spec_new_flags(spec_new_flags(flags, first), second) == spec_new_flags(flags, second),
        !is_nonblocking(flags) ==> spec_new_flags(spec_new_flags(flags, false), true) == flags,
{
    assert((flags & !O_NONBLOCK) & !O_NONBLOCK == flags & !O_NONBLOCK) by (bit_vector);
    assert((flags | O_NONBLOCK) & !O_NONBLOCK == flags & !O_NONBLOCK) by (bit_vector);
    assert((flags & !O_NONBLOCK) | O_NONBLOCK == flags | O_NONBLOCK) by (bit_vector);
    assert((flags | O_NONBLOCK) | O_NONBLOCK == flags | O_NONBLOCK) by (bit_vector);
    if !is_nonblocking(flags) {
        lemma_new_flags_keeps_matching_word(flags, true);
    }
}

/// Computes the flag word to write for a descriptor whose flag word is
/// `flags`: the same word with the non-blocking bit cleared for a blocking
/// descriptor, set for a non-blocking one.
#[verifier::when_used_as_spec(spec_new_flags)]
pub fn new_flags(flags: c_int, blocking: bool) -> (word: c_int)
    ensures
        word == spec_new_flags(flags, blocking),
        is_nonblocking(word) == !blocking,
        word & !O_NONBLOCK == flags & !O_NONBLOCK,
{
    proof {
        lemma_new_flags_changes_one_bit(flags, blocking);
    }
    if blocking {
        flags & !O_NONBLOCK
    } else {
        flags | O_NONBLOCK
    }
}

/// A change of one descriptor's mode, as far as it has come. Each value but
/// `Done` names the system call that its driver is to make next.
#[derive(Clone, Copy, Debug, PartialEq, Eq)]
pub enum ModeChange {
    /// The flag word of `fd` is to be queried. `blocking` is the mode that the
    /// change will ask for.
    GetFlags { fd: c_int, blocking: bool },
    /// `flags` is to be written as the flag word of `fd`.
    SetFlags { fd: c_int, flags: c_int },
    /// No call is left to make, and `result` is what the change reports.
    Done { result: Result<(), OsError> },
}

impl ModeChange {
    /// The change after the call that it named has handed back `reply`.
    ///
    /// A query that fails (a negative value) ends the change with the error of
    /// the query, and no word is written. A query that succeeds is followed by
    /// the command that writes the new word to the same descriptor. A command
    /// that fails (any value but zero) ends the change with the error of the
    /// command, one that succeeds ends it with success. A change that is done
    /// stays as it is.
    pub open spec fn next(self, reply: FlagsReply) -> ModeChange {
        match self {
            ModeChange::GetFlags { fd, blocking } => {
                if reply.value < 0 {
                    ModeChange::Done { result: Err(reply.error) }
                } else {
                    ModeChange::SetFlags { fd, flags: spec_new_flags(reply.value, blocking) }
                }
            },
            ModeChange::SetFlags { .. } => {
                if reply.value != 0 {
                    ModeChange::Done { result: Err(reply.error) }
                } else {
                    ModeChange::Done { result: Ok(()) }
                }
            },
            ModeChange::Done { .. } => self,
        }
    }

    /// The number of system calls that the change may still ask for.
    pub open spec fn calls_left(self) -> nat {
        match self {
            ModeChange::GetFlags { .. } => 2,
            ModeChange::SetFlags { .. } => 1,
            ModeChange::Done { .. } => 0,
        }
    }

    /// Takes what the call named by `self` handed back and gives the change as
    /// it stands after that call: the next call to make, or the result.
    pub fn step(self, reply: FlagsReply) -> (after: ModeChange)
        ensures
            after == self.next(reply),
            self is Done ==> after == self,
            !(self is Done) ==> after.calls_left() < self.calls_left(),
    {
        match self {
            ModeChange::GetFlags { fd, blocking } => {
                if reply.value < 0 {
                    ModeChange::Done { result: Err(reply.error) }
                } else {
                    ModeChange::SetFlags { fd, flags: new_flags(reply.value, blocking) }
                }
            },
            ModeChange::SetFlags { .. } => {
                if reply.value != 0 {
                    ModeChange::Done { result: Err(reply.error) }
                } else {
                    ModeChange::Done { result: Ok(()) }
                }
            },
            ModeChange::Done { result } => ModeChange::Done { result },
        }
    }
}

/// The change that [`set_blocking`] begins.
pub open spec fn spec_set_blocking(fd: c_int, blocking: bool) -> ModeChange {
    ModeChange::GetFlags { fd, blocking }
}

/// Begins the change of the descriptor `fd` to blocking mode, or to
/// non-blocking mode where `blocking` is false. The first call that the change
/// asks for is the query of the descriptor's flag word.
#[verifier::when_used_as_spec(spec_set_blocking)]
pub fn set_blocking(fd: c_int, blocking: bool) -> (change: ModeChange)
    ensures
        change == spec_set_blocking(fd, blocking),
{
    ModeChange::GetFlags { fd, blocking }
}

/// What a change reports once it is done, from what its calls handed back:
/// `got` by the query and `set` by the command. The error of the query where
/// the query failed, else the error of the command where that failed, else
/// success.
pub open spec fn change_outcome(got: FlagsReply, set: FlagsReply) -> Result<(), OsError> {
    if got.value < 0 {
        Err(got.error)
    } else if set.value != 0 {
        Err(set.error)
    } else {
        Ok(())
    }
}

/// A change runs to its end in two calls at most. Where the query fails, the
/// change is done after that one call, with the error of the query, and it
/// never asks to write a flag word: the descriptor is left untouched. Where
/// the query succeeds, the change asks to write, to the descriptor it was
/// begun for, the word it got with only the non-blocking bit changed, and is
/// done after that second call. Either way it reports the error of the first
/// call that failed, and success where none did.
pub proof fn lemma_change_runs_to_its_end(
    fd: c_int,
    blocking: bool,
    got: FlagsReply,
    set: FlagsReply,
)
    ensures
        got.value < 0 ==> spec_set_blocking(fd, blocking).next(got) == (ModeChange::Done {
            result: Err(got.error),
        }),
        got.value >= 0 ==> spec_set_blocking(fd, blocking).next(got) == (ModeChange::SetFlags {
            fd,
            flags: spec_new_flags(got.value, blocking),
        }),
        got.value >= 0 ==> spec_set_blocking(fd, blocking).next(got).next(set) == (
            ModeChange::Done { result: change_outcome(got, set) }
        ),
        got.value < 0 ==> change_outcome(got, set) == Err::<(), OsError>(got.error),
        change_outcome(got, set) is Ok <==> got.value >= 0 && set.value == 0,
{
}

} // verus!
