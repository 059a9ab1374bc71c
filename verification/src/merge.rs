use vstd::prelude::*;
use crate::poll::{IoError, IoPoll, ReadInit};
use crate::stream::{flat_view, ReadStream, WriteStream};

verus! {

/// Merged I/O: owns one readable capability `R` and one writable capability
/// `W`, and satisfies both capability contracts at once by forwarding every
/// read-side operation to `reader` and every write-side operation to
/// `writer`, verbatim.
///
/// The adapter holds no state of its own: it never buffers, reorders or
/// reinterprets bytes, never touches the writer during a read or the reader
/// during a write, and passes every fault and every `Pending` signal through
/// unchanged.  The two channels are causally independent; they are merged
/// only in the sense of being owned by the same object.
#[derive(Debug)]
pub struct MergeIO<R, W> where R: ReadStream, W: WriteStream {
    /// The owned readable capability; every read-side operation acts on it.
    pub reader: R,
    /// The owned writable capability; every write-side operation acts on it.
    pub writer: W,
}

impl<R, W> MergeIO<R, W> where R: ReadStream, W: WriteStream {
    /// Creates a new `MergeIO` that reads from `reader` and writes to
    /// `writer`.  Both values move into the adapter; any reader and writer
    /// are accepted, whatever state they are in.
    pub fn new(reader: R, writer: W) -> (r: MergeIO<R, W>)
        ensures
            r.reader == reader,
            r.writer == writer,
    {
        MergeIO { reader, writer }
    }

    /// Provides access to `reader`.
    pub fn reader(&self) -> (r: &R)
        ensures
            *r == self.reader,
    {
        &self.reader
    }

    /// Provides access to `writer`.
    pub fn writer(&self) -> (r: &W)
        ensures
            *r == self.writer,
    {
        &self.writer
    }

    /// Provides `mut` access to `reader`; the writer is untouched.
    pub fn reader_mut(&mut self) -> (r: &mut R)
        ensures
            *r == old(self).reader,
            final(self).reader == *final(r),
            final(self).writer == old(self).writer,
    {
        &mut self.reader
    }

    /// Provides `mut` access to `writer`; the reader is untouched.
    pub fn writer_mut(&mut self) -> (r: &mut W)
        ensures
            *r == old(self).writer,
            final(self).writer == *final(r),
            final(self).reader == old(self).reader,
    {
        &mut self.writer
    }

    /// Deconstructs the adapter into the `reader` and `writer`, in that
    /// order.  This is the only way to separate the two channels again; both
    /// come back exactly as the forwarded operations left them.
    pub fn into_inner(self) -> (r: (R, W))
        ensures
            r.0 == self.reader,
            r.1 == self.writer,
    {
        (self.reader, self.writer)
    }

    /// Initialization hook of the read side, forwarded verbatim to the
    /// reader.  The writer plays no part in it.
    pub fn initializer(&self) -> (r: ReadInit)
        ensures
            (r is Zeroing) == self.reader.zeroing_hint(),
    {
        self.reader.initializer()
    }

    /// Single-buffer read attempt, forwarded verbatim to the reader: the
    /// outcome, the bytes delivered and the bytes consumed are exactly those
    /// of the reader's own read contract.  An attempt on an exhausted reader
    /// completes immediately with zero bytes and no error, whatever the
    /// writer's state; zero bytes delivered into a buffer with room signals
    /// exhaustion.  The writer is never touched.
    pub fn poll_read(&mut self, buf: &mut Vec<u8>) -> (r: IoPoll<Result<usize, IoError>>)
        ensures
            final(self).writer == old(self).writer,
            final(buf)@.len() == old(buf)@.len(),
            final(self).reader.zeroing_hint() == old(self).reader.zeroing_hint(),
            old(self).reader.avail().len() == 0 ==> r == IoPoll::<Result<usize, IoError>>::Ready(
                Ok(0),
            ),
            r == IoPoll::<Result<usize, IoError>>::Ready(Ok(0)) && old(buf)@.len() > 0
                ==> old(self).reader.avail().len() == 0,
            match r {
                IoPoll::Ready(res) => match res {
                    Ok(n) => {
                        &&& n <= old(buf)@.len()
                        &&& n <= old(self).reader.avail().len()
                        &&& final(buf)@ == old(self).reader.avail().take(n as int)
                            + old(buf)@.skip(n as int)
                        &&& final(self).reader.avail() == old(self).reader.avail().skip(n as int)
                    },
                    Err(_) => {
                        &&& final(buf)@ == old(buf)@
                        &&& final(self).reader.avail() == old(self).reader.avail()
                    },
                },
                IoPoll::Pending => {
                    &&& final(buf)@ == old(buf)@
                    &&& final(self).reader.avail() == old(self).reader.avail()
                },
            },
    {
        self.reader.poll_read(buf)
    }

    /// Batched read attempt across several buffers, forwarded verbatim to
    /// the reader; an attempt across zero buffers, like one on an exhausted
    /// reader, completes immediately with zero bytes and no error, and zero
    /// bytes delivered despite room in the buffers signals exhaustion.  The
    /// writer is never touched.
    pub fn poll_read_vectored(&mut self, bufs: &mut Vec<Vec<u8>>) -> (r: IoPoll<
        Result<usize, IoError>,
    >)
        ensures
            final(self).writer == old(self).writer,
            final(bufs)@.len() == old(bufs)@.len(),
            forall|i: int|
                0 <= i < old(bufs)@.len() ==> final(bufs)@[i]@.len() == old(bufs)@[i]@.len(),
            final(self).reader.zeroing_hint() == old(self).reader.zeroing_hint(),
            old(bufs)@.len() == 0 ==> r == IoPoll::<Result<usize, IoError>>::Ready(Ok(0)),
            old(self).reader.avail().len() == 0 ==> r == IoPoll::<Result<usize, IoError>>::Ready(
                Ok(0),
            ),
            r == IoPoll::<Result<usize, IoError>>::Ready(Ok(0)) && flat_view(old(bufs)@).len() > 0
                ==> old(self).reader.avail().len() == 0,
            match r {
                IoPoll::Ready(res) => match res {
                    Ok(n) => {
                        &&& n <= flat_view(old(bufs)@).len()
                        &&& n <= old(self).reader.avail().len()
                        &&& flat_view(final(bufs)@) == old(self).reader.avail().take(n as int)
                            + flat_view(old(bufs)@).skip(n as int)
                        &&& final(self).reader.avail() == old(self).reader.avail().skip(n as int)
                    },
                    Err(_) => {
                        &&& final(bufs)@ == old(bufs)@
                        &&& final(self).reader.avail() == old(self).reader.avail()
                    },
                },
                IoPoll::Pending => {
                    &&& final(bufs)@ == old(bufs)@
                    &&& final(self).reader.avail() == old(self).reader.avail()
                },
            },
    {
        self.reader.poll_read_vectored(bufs)
    }

    /// Single-buffer write attempt, forwarded verbatim to the writer: the
    /// outcome and the bytes accepted are exactly those of the writer's own
    /// write contract.  The reader is never touched.
    pub fn poll_write(&mut self, buf: &Vec<u8>) -> (r: IoPoll<Result<usize, IoError>>)
        ensures
            final(self).reader == old(self).reader,
            final(self).writer.is_closed() == old(self).writer.is_closed(),
            final(self).writer.flushes() == old(self).writer.flushes(),
            match r {
                IoPoll::Ready(res) => match res {
                    Ok(n) => {
                        &&& n <= buf@.len()
                        &&& final(self).writer.written() == old(self).writer.written()
                            + buf@.take(n as int)
                    },
                    Err(_) => final(self).writer.written() == old(self).writer.written(),
                },
                IoPoll::Pending => final(self).writer.written() == old(self).writer.written(),
            },
    {
        self.writer.poll_write(buf)
    }

    /// Batched write attempt across several buffers, forwarded verbatim to
    /// the writer; an attempt across zero buffers completes immediately with
    /// zero bytes and no error.  The reader is never touched.
    pub fn poll_write_vectored(&mut self, bufs: &Vec<Vec<u8>>) -> (r: IoPoll<
        Result<usize, IoError>,
    >)
        ensures
            final(self).reader == old(self).reader,
            final(self).writer.is_closed() == old(self).writer.is_closed(),
            final(self).writer.flushes() == old(self).writer.flushes(),
            bufs@.len() == 0 ==> r == IoPoll::<Result<usize, IoError>>::Ready(Ok(0)),
            match r {
                IoPoll::Ready(res) => match res {
                    Ok(n) => {
                        &&& n <= flat_view(bufs@).len()
                        &&& final(self).writer.written() == old(self).writer.written()
                            + flat_view(bufs@).take(n as int)
                    },
                    Err(_) => final(self).writer.written() == old(self).writer.written(),
                },
                IoPoll::Pending => final(self).writer.written() == old(self).writer.written(),
            },
    {
        self.writer.poll_write_vectored(bufs)
    }

    /// Flush attempt, forwarded verbatim to the writer: on success, one
    /// more flush of the writer has completed.  Neither the bytes already
    /// accepted nor the reader are affected.
    pub fn poll_flush(&mut self) -> (r: IoPoll<Result<(), IoError>>)
        ensures
            final(self).reader == old(self).reader,
            final(self).writer.written() == old(self).writer.written(),
            final(self).writer.is_closed() == old(self).writer.is_closed(),
            match r {
                IoPoll::Ready(res) => match res {
                    Ok(_) => final(self).writer.flushes() == old(self).writer.flushes() + 1,
                    Err(_) => final(self).writer.flushes() == old(self).writer.flushes(),
                },
                IoPoll::Pending => final(self).writer.flushes() == old(self).writer.flushes(),
            },
    {
        self.writer.poll_flush()
    }

    /// Close attempt, forwarded verbatim to the writer: on success the
    /// writer is shut down.  The reader is never touched and stays usable.
    pub fn poll_close(&mut self) -> (r: IoPoll<Result<(), IoError>>)
        ensures
            final(self).reader == old(self).reader,
            final(self).writer.written() == old(self).writer.written(),
            final(self).writer.flushes() == old(self).writer.flushes(),
            match r {
                IoPoll::Ready(res) => match res {
                    Ok(_) => final(self).writer.is_closed(),
                    Err(_) => final(self).writer.is_closed() == old(self).writer.is_closed(),
                },
                IoPoll::Pending => final(self).writer.is_closed() == old(self).writer.is_closed(),
            },
    {
        self.writer.poll_close()
    }
}

} // verus!
