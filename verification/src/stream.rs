use vstd::prelude::*;
use crate::poll::{IoError, IoPoll, ReadInit};

verus! {

/// The bytes held by a sequence of buffers, in order: the contents of the
/// first buffer, then the second, and so on.  Batched (vectored) operations
/// are specified against this flattened view, so that a capability is free
/// to fill or drain the buffers in any way that is indistinguishable from
/// operating on one long buffer.
pub open spec fn flat_view(bufs: Seq<Vec<u8>>) -> Seq<u8>
    decreases bufs.len(),
{
    if bufs.len() == 0 {
        Seq::<u8>::empty()
    } else {
        bufs[0]@ + flat_view(bufs.skip(1))
    }
}

/// The readable-stream capability: producing bytes on demand through
/// non-blocking, suspendable single and batched read attempts.
///
/// A reader is abstracted by `avail()`, the sequence of bytes it can still
/// produce, oldest first.  Every successful read delivers a prefix of
/// `avail()` and removes exactly that prefix; a `Pending` or failed attempt
/// leaves the reader and the caller's buffers untouched, so the attempt can
/// simply be retried.
pub trait ReadStream: Sized {
    /// The bytes still available from this reader, in the order a caller
    /// would receive them.
    spec fn avail(&self) -> Seq<u8>;

    /// Whether read buffers must be zero-filled before the first read.
    spec fn zeroing_hint(&self) -> bool;

    /// Initialization hook consulted before the first read: reports how a
    /// destination buffer must be prepared.
    fn initializer(&self) -> (r: ReadInit)
        ensures
            (r is Zeroing) == self.zeroing_hint(),
    ;

    /// Single-buffer read attempt.  On success, the first `n` bytes of
    /// `buf` hold the next `n` available bytes and those bytes are consumed;
    /// the rest of `buf` and the buffer's length are unchanged.  An
    /// exhausted reader completes immediately with zero bytes and no error,
    /// never a suspension; conversely, zero bytes delivered into a buffer
    /// with room is the end-of-stream signal: the reader is exhausted.
    fn poll_read(&mut self, buf: &mut Vec<u8>) -> (r: IoPoll<Result<usize, IoError>>)
        ensures
            final(buf)@.len() == old(buf)@.len(),
            final(self).zeroing_hint() == old(self).zeroing_hint(),
            old(self).avail().len() == 0 ==> r == IoPoll::<Result<usize, IoError>>::Ready(Ok(0)),
            r == IoPoll::<Result<usize, IoError>>::Ready(Ok(0)) && old(buf)@.len() > 0
                ==> old(self).avail().len() == 0,
            match r {
                IoPoll::Ready(res) => match res {
                    Ok(n) => {
                        &&& n <= old(buf)@.len()
                        &&& n <= old(self).avail().len()
                        &&& final(buf)@ == old(self).avail().take(n as int)
                            + old(buf)@.skip(n as int)
                        &&& final(self).avail() == old(self).avail().skip(n as int)
                    },
                    Err(_) => {
                        &&& final(buf)@ == old(buf)@
                        &&& final(self).avail() == old(self).avail()
                    },
                },
                IoPoll::Pending => {
                    &&& final(buf)@ == old(buf)@
                    &&& final(self).avail() == old(self).avail()
                },
            },
    ;

    /// Batched read attempt across several buffers.  On success, the
    /// flattened view of the buffers begins with the `n` consumed bytes and
    /// continues with the untouched remainder of the old contents; buffer
    /// count and individual buffer lengths never change.  An attempt across
    /// zero buffers, like one on an exhausted reader, completes immediately
    /// with zero bytes and no error; zero bytes delivered despite room in
    /// the buffers is the end-of-stream signal: the reader is exhausted.
    fn poll_read_vectored(&mut self, bufs: &mut Vec<Vec<u8>>) -> (r: IoPoll<Result<usize, IoError>>)
        ensures
            final(bufs)@.len() == old(bufs)@.len(),
            forall|i: int|
                0 <= i < old(bufs)@.len() ==> final(bufs)@[i]@.len() == old(bufs)@[i]@.len(),
            final(self).zeroing_hint() == old(self).zeroing_hint(),
            old(bufs)@.len() == 0 ==> r == IoPoll::<Result<usize, IoError>>::Ready(Ok(0)),
            old(self).avail().len() == 0 ==> r == IoPoll::<Result<usize, IoError>>::Ready(Ok(0)),
            r == IoPoll::<Result<usize, IoError>>::Ready(Ok(0)) && flat_view(old(bufs)@).len() > 0
                ==> old(self).avail().len() == 0,
            match r {
                IoPoll::Ready(res) => match res {
                    Ok(n) => {
                        &&& n <= flat_view(old(bufs)@).len()
                        &&& n <= old(self).avail().len()
                        &&& flat_view(final(bufs)@) == old(self).avail().take(n as int)
                            + flat_view(old(bufs)@).skip(n as int)
                        &&& final(self).avail() == old(self).avail().skip(n as int)
                    },
                    Err(_) => {
                        &&& final(bufs)@ == old(bufs)@
                        &&& final(self).avail() == old(self).avail()
                    },
                },
                IoPoll::Pending => {
                    &&& final(bufs)@ == old(bufs)@
                    &&& final(self).avail() == old(self).avail()
                },
            },
    ;
}

/// The writable-stream capability: accepting bytes on demand through
/// non-blocking, suspendable single and batched write attempts, plus
/// explicit flush and close.
///
/// A writer is abstracted by `written()`, the sequence of bytes it has
/// accepted so far, and `is_closed()`, whether it has been shut down.  Every
/// successful write appends a prefix of the offered bytes to `written()`; a
/// `Pending` or failed attempt changes nothing observable.
pub trait WriteStream: Sized {
    /// The bytes this writer has accepted so far, oldest first.
    spec fn written(&self) -> Seq<u8>;

    /// Whether this writer has been shut down.
    spec fn is_closed(&self) -> bool;

    /// How many flush attempts have completed successfully.  Flushing moves
    /// no bytes, so this counter is what makes a completed flush observable.
    spec fn flushes(&self) -> nat;

    /// Single-buffer write attempt.  On success, the first `n` offered
    /// bytes are appended, in order, to the bytes written so far.
    fn poll_write(&mut self, buf: &Vec<u8>) -> (r: IoPoll<Result<usize, IoError>>)
        ensures
            final(self).is_closed() == old(self).is_closed(),
            final(self).flushes() == old(self).flushes(),
            match r {
                IoPoll::Ready(res) => match res {
                    Ok(n) => {
                        &&& n <= buf@.len()
                        &&& final(self).written() == old(self).written() + buf@.take(n as int)
                    },
                    Err(_) => final(self).written() == old(self).written(),
                },
                IoPoll::Pending => final(self).written() == old(self).written(),
            },
    ;

    /// Batched write attempt across several buffers.  On success, the first
    /// `n` bytes of the buffers' flattened view are appended to the bytes
    /// written so far.  An attempt across zero buffers completes immediately
    /// with zero bytes and no error.
    fn poll_write_vectored(&mut self, bufs: &Vec<Vec<u8>>) -> (r: IoPoll<Result<usize, IoError>>)
        ensures
            final(self).is_closed() == old(self).is_closed(),
            final(self).flushes() == old(self).flushes(),
            bufs@.len() == 0 ==> r == IoPoll::<Result<usize, IoError>>::Ready(Ok(0)),
            match r {
                IoPoll::Ready(res) => match res {
                    Ok(n) => {
                        &&& n <= flat_view(bufs@).len()
                        &&& final(self).written() == old(self).written()
                            + flat_view(bufs@).take(n as int)
                    },
                    Err(_) => final(self).written() == old(self).written(),
                },
                IoPoll::Pending => final(self).written() == old(self).written(),
            },
    ;

    /// Flush attempt: asks the writer to push accepted bytes towards their
    /// destination.  Never changes which bytes have been accepted, nor
    /// whether the writer is closed; on success, one more flush has
    /// completed.
    fn poll_flush(&mut self) -> (r: IoPoll<Result<(), IoError>>)
        ensures
            final(self).written() == old(self).written(),
            final(self).is_closed() == old(self).is_closed(),
            match r {
                IoPoll::Ready(res) => match res {
                    Ok(_) => final(self).flushes() == old(self).flushes() + 1,
                    Err(_) => final(self).flushes() == old(self).flushes(),
                },
                IoPoll::Pending => final(self).flushes() == old(self).flushes(),
            },
    ;

    /// Close attempt: shuts the writer down.  Never changes which bytes
    /// have been accepted; on success the writer is closed.
    fn poll_close(&mut self) -> (r: IoPoll<Result<(), IoError>>)
        ensures
            final(self).written() == old(self).written(),
            final(self).flushes() == old(self).flushes(),
            match r {
                IoPoll::Ready(res) => match res {
                    Ok(_) => final(self).is_closed(),
                    Err(_) => final(self).is_closed() == old(self).is_closed(),
                },
                IoPoll::Pending => final(self).is_closed() == old(self).is_closed(),
            },
    ;
}

} // verus!
