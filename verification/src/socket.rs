//! The adapter that gates the reads of one stream.
//!
//! A [`NonBlockingSocket`] owns a stream and one flag, its mode. Before each
//! read its driver asks the operating system how many bytes are queued on the
//! stream's descriptor, and the adapter decides from the answer: in
//! non-blocking mode the read goes to the stream only where some byte is
//! queued, and returns zero bytes at once where none is; in blocking mode,
//! the mode of a new adapter, it always goes to the stream. Writing and
//! flushing are not gated, so there is nothing to decide about them.
//!
//! The adapter makes no call on the stream itself. It hands the stream out to
//! its driver, which makes the calls that the adapter decided on.

use crate::mode::{change_outcome, spec_set_blocking, ModeChange};
use crate::os::{FlagsReply, OsError, QueueReply};
use libc::c_int;
use vstd::prelude::*;

verus! {

/// What a read on an adapter is to do.
#[derive(Clone, Copy, Debug, PartialEq, Eq)]
pub enum ReadAction {
    /// The read goes to the wrapped stream as it is, and returns whatever the
    /// stream's own read returns.
    Forward,
    /// The read returns this value, and the wrapped stream is not touched.
    Return(Result<usize, OsError>),
}

/// A count that the operating system stored, as a number of bytes. A negative
/// count, which no query reports on success, wraps around as the conversion
/// of a signed integer to an unsigned one does.
pub open spec fn byte_count(count: c_int) -> usize {
    if count >= 0 {
        count as usize
    } else {
        (count + usize::MAX + 1) as usize
    }
}

/// The number of bytes that can be read without waiting, from what the query
/// for them handed back: the count where the query succeeded (zero is a count
/// like any other), the error of the query where it failed.
pub open spec fn spec_pending(reply: QueueReply) -> Result<usize, OsError> {
    if reply.status == 0 {
        Ok(byte_count(reply.count))
    } else {
        Err(reply.error)
    }
}

/// What a read is to do on an adapter in the given mode, from what the query
/// for the queued bytes handed back. Where the query failed the read returns
/// the query's error. Where some byte is queued, or the adapter is in
/// blocking mode, the read is forwarded. Otherwise it returns zero bytes.
pub open spec fn spec_read(blocking: bool, reply: QueueReply) -> ReadAction {
    match spec_pending(reply) {
        Err(error) => ReadAction::Return(Err(error)),
        Ok(count) => {
            if count > 0 || blocking {
                ReadAction::Forward
            } else {
                ReadAction::Return(Ok(0))
            }
        },
    }
}

/// The mode of an adapter after it was asked to switch from the mode `before`
/// to the mode `asked`, where `outcome` is what the change of the
/// descriptor's mode reported: the mode asked for where the change succeeded,
/// the mode it had where the change failed.
pub open spec fn mode_after(before: bool, asked: bool, outcome: Result<(), OsError>) -> bool {
    if outcome is Ok {
        asked
    } else {
        before
    }
}

/// An adapter around one stream, which it owns, with the mode that gates the
/// stream's reads.
///
/// The mode is the adapter's own policy. It need not be the mode of the
/// stream's descriptor in the operating system: the two agree after a
/// [`set_blocking`](NonBlockingSocket::set_blocking) that succeeded.
pub struct NonBlockingSocket<T> {
    sock: T,
    blocking: bool,
}

impl<T> NonBlockingSocket<T> {
    /// The stream that the adapter owns.
    pub closed spec fn stream(&self) -> T {
        self.sock
    }

    /// The adapter's mode: true for blocking, false for non-blocking.
    pub closed spec fn blocking(&self) -> bool {
        self.blocking
    }

    /// Makes an adapter that owns `sock`, in blocking mode.
    pub fn new(sock: T) -> (adapter: Self)
        ensures
            adapter.stream() == sock,
            adapter.blocking(),
    {
        NonBlockingSocket { sock, blocking: true }
    }

    /// Makes an adapter that owns `sock`, in the given mode from the start.
    /// The mode of the stream's descriptor is not changed by this, so an
    /// adapter made with `blocking` false gates every read by the queued
    /// bytes alone.
    pub fn with_mode(sock: T, blocking: bool) -> (adapter: Self)
        ensures
            adapter.stream() == sock,
            adapter.blocking() == blocking,
    {
        NonBlockingSocket { sock, blocking }
    }

    /// Whether the adapter is in blocking mode.
    pub fn is_blocking(&self) -> (blocking: bool)
        ensures
            blocking == self.blocking(),
    {
        self.blocking
    }

    /// The wrapped stream, to ask for its descriptor.
    pub fn get_ref(&self) -> (stream: &T)
        ensures
            *stream == self.stream(),
    {
        &self.sock
    }

    /// The wrapped stream, to make on it the calls that the adapter does not
    /// gate or has decided to forward. The adapter's mode stays as it is
    /// whatever is done to the stream.
    pub fn get_mut(&mut self) -> (stream: &mut T)
        ensures
            *stream == old(self).stream(),
            final(self).stream() == *final(stream),
            final(self).blocking() == old(self).blocking(),
    {
        &mut self.sock
    }

    /// Switches the adapter to blocking mode, or to non-blocking mode where
    /// `blocking` is false, as far as the descriptor followed. `outcome` is
    /// what the change of the mode of the stream's descriptor to `blocking`
    /// reported (see [`crate::mode::set_blocking`]). Where that change failed
    /// the adapter keeps the mode it had, and the error is returned as it is.
    /// The stream is left alone.
    pub fn set_blocking(&mut self, blocking: bool, outcome: Result<(), OsError>) -> (result: Result<
        (),
        OsError,
    >)
        ensures
            result == outcome,
            final(self).blocking() == mode_after(old(self).blocking(), blocking, outcome),
            final(self).stream() == old(self).stream(),
    {
        if outcome.is_ok() {
            self.blocking = blocking;
        }
        outcome
    }

    /// The number of bytes that can be read from the stream without waiting,
    /// from what the query for the bytes queued on the stream's descriptor
    /// handed back.
    pub fn pending(&self, reply: QueueReply) -> (result: Result<usize, OsError>)
        ensures
            result == spec_pending(reply),
    {
        if reply.status == 0 {
            let count: usize = if reply.count >= 0 {
                reply.count as usize
            } else {
                usize::MAX - ((-(reply.count + 1)) as usize)
            };
            Ok(count)
        } else {
            Err(reply.error)
        }
    }

    /// Decides what a read is to do, from what the query for the bytes queued
    /// on the stream's descriptor handed back just before.
    pub fn read(&self, reply: QueueReply) -> (action: ReadAction)
        ensures
            action == spec_read(self.blocking(), reply),
    {
        match self.pending(reply) {
            Err(error) => ReadAction::Return(Err(error)),
            Ok(count) => {
                if count > 0 || self.blocking {
                    ReadAction::Forward
                } else {
                    ReadAction::Return(Ok(0))
                }
            },
        }
    }
}

/// A read is forwarded to the stream exactly when the query succeeded and
/// either the count is not zero or the adapter is in blocking mode. No other
/// read touches the stream.
pub proof fn lemma_read_forwards_when(blocking: bool, reply: QueueReply)
    ensures
        spec_read(blocking, reply) is Forward <==> reply.status == 0 && (reply.count != 0
            || blocking),
{
}

/// In non-blocking mode a read while nothing is queued returns zero bytes at
/// once and leaves the stream alone.
pub proof fn lemma_nothing_queued_reads_zero(blocking: bool, reply: QueueReply)
    requires
        !blocking,
        reply.status == 0,
        reply.count == 0,
    ensures
        spec_pending(reply) == Ok::<usize, OsError>(0),
        spec_read(blocking, reply) == ReadAction::Return(Ok(0)),
{
}

/// While bytes are queued their number is reported as it is, and a read is
/// forwarded to the stream in either mode.
pub proof fn lemma_queued_bytes_are_read(blocking: bool, reply: QueueReply)
    requires
        reply.status == 0,
        reply.count > 0,
    ensures
        spec_pending(reply) == Ok::<usize, OsError>(reply.count as usize),
        reply.count as usize == reply.count,
        spec_read(blocking, reply) == ReadAction::Forward,
{
}

/// Two queries that succeed with the same count give the same number of
/// pending bytes: the number rests on the count alone, not on the error that
/// was left behind by an earlier call, nor on the adapter.
pub proof fn lemma_pending_rests_on_count(first: QueueReply, second: QueueReply)
    requires
        first.status == 0,
        second.status == 0,
        first.count == second.count,
    ensures
        spec_pending(first) == spec_pending(second),
{
}

/// An adapter that was switched to non-blocking mode and then back to
/// blocking mode reads as a new adapter does: it is in blocking mode, and
/// every read for which the query succeeds is forwarded. This holds where the
/// switch back succeeded, and for an adapter that was in blocking mode where
/// both switches failed.
pub proof fn lemma_switching_back_restores_reads(
    before: bool,
    first: Result<(), OsError>,
    second: Result<(), OsError>,
    reply: QueueReply,
)
    requires
        second is Ok || (first is Err && before),
    ensures
        mode_after(mode_after(before, false, first), true, second),
        spec_read(mode_after(mode_after(before, false, first), true, second), reply) == spec_read(
            true,
            reply,
        ),
        reply.status == 0 ==> spec_read(
            mode_after(mode_after(before, false, first), true, second),
            reply,
        ) == ReadAction::Forward,
{
}

/// A failure of the operating system is reported and nothing else happens.
/// Where the query for the queued bytes fails, the pending count is the
/// query's error, and so is the read, which does not reach the stream. Where
/// the query for the flag word fails, the change of mode is done with that
/// error, and an adapter that is handed it keeps its mode.
pub proof fn lemma_failures_are_reported(
    before: bool,
    blocking: bool,
    fd: c_int,
    reply: QueueReply,
    got: FlagsReply,
    set: FlagsReply,
)
    requires
        reply.status != 0,
        got.value < 0,
    ensures
        spec_pending(reply) == Err::<usize, OsError>(reply.error),
        spec_read(before, reply) == ReadAction::Return(Err(reply.error)),
        spec_set_blocking(fd, blocking).next(got) == (ModeChange::Done { result: Err(got.error) }),
        change_outcome(got, set) == Err::<(), OsError>(got.error),
        mode_after(before, blocking, change_outcome(got, set)) == before,
{
}

} // verus!
