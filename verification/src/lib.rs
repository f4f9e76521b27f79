//! Non-blocking reads on a blocking stream, decided without waiting.
//!
//! A stream such as a socket is read without blocking by asking the operating
//! system first how many bytes are queued on its descriptor, and by reading
//! only when some are. This crate holds the decisions of that scheme and makes
//! no system call itself: its functions take what a system call handed back
//! and say what to do next, so the same rules serve a real descriptor and a
//! simulated one.
//!
//! - [`os`]: the values exchanged with the operating system.
//! - [`mode`]: switching the non-blocking bit of a descriptor's flag word.
//! - [`socket`]: the adapter that gates the reads of one stream.

pub mod mode;
pub mod os;
pub mod socket;

pub use mode::{new_flags, set_blocking, ModeChange, O_NONBLOCK};
pub use os::{FlagsReply, OsError, QueueReply};
pub use socket::{NonBlockingSocket, ReadAction};
