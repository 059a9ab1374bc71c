use vstd::prelude::*;

verus! {

/// Outcome of a non-blocking stream operation: either the operation has
/// completed with a value, or the underlying resource is not ready yet and
/// the caller's scheduler must retry the attempt later.
#[derive(Debug, PartialEq, Eq)]
pub enum IoPoll<T> {
    /// The attempt completed and produced `T`.
    Ready(T),
    /// The attempt could not complete yet; no observable state changed.
    Pending,
}

/// A fault reported by a stream capability.  The adapter defines no error
/// kinds of its own: whatever a capability reports is passed through to the
/// caller unchanged.
#[derive(Debug, Clone, Copy, PartialEq, Eq, Structural)]
pub struct IoError {
    /// Capability-specific fault code, carried verbatim.
    pub code: u32,
}

/// Buffer-initialization hint a reader hands out before its first read:
/// either the destination buffer must be zero-filled before it is passed to
/// a read attempt, or it may be handed over as is.
#[derive(Debug, Clone, Copy, PartialEq, Eq, Structural)]
pub enum ReadInit {
    /// Read buffers must be zero-filled before the first read.
    Zeroing,
    /// Read buffers need no preparation.
    Nop,
}

} // verus!
