//! Merge two separately-owned half-duplex stream capabilities — a readable
//! source and a writable sink — into a single object that can be used as one
//! bidirectional stream.
//!
//! The adapter itself ([`merge::MergeIO`]) holds no state of its own beyond
//! the two wrapped capabilities: every read-side operation is forwarded
//! verbatim to the reader, every write-side operation to the writer, and the
//! two channels never affect each other.  Construction, accessors and
//! decomposition are the only other operations.
//!
//! The capability contracts are the traits [`stream::ReadStream`] and
//! [`stream::WriteStream`]; [`mem::MemReader`] and [`mem::MemWriter`] are
//! in-memory implementations suitable for tests and for capturing traffic.

pub mod poll;
pub mod stream;
pub mod mem;
pub mod merge;
pub mod laws;

pub use merge::MergeIO;
