use vstd::prelude::*;
use crate::poll::{IoError, IoPoll, ReadInit};
use crate::stream::{flat_view, ReadStream, WriteStream};

verus! {

/// Fault code a [`MemWriter`] reports when bytes are offered after it was
/// closed.
pub const ERR_CLOSED: u32 = 1;

/// Hands out a mutable reference to one buffer of a batch.
fn slot_mut(bufs: &mut Vec<Vec<u8>>, i: usize) -> (r: &mut Vec<u8>)
    requires
        i < old(bufs)@.len(),
    ensures
        *r == old(bufs)@[i as int],
        final(bufs)@ == old(bufs)@.update(i as int, *final(r)),
{
    &mut bufs[i]
}

/// The contents of `s.take(j + 1)`, flattened, are the contents of
/// `s.take(j)` followed by the bytes of buffer `j`.
proof fn lemma_flat_take_succ(s: Seq<Vec<u8>>, j: int)
    requires
        0 <= j < s.len(),
    ensures
        flat_view(s.take(j + 1)) == flat_view(s.take(j)) + s[j]@,
    decreases j,
{
    if j == 0 {
        assert(s.take(1).len() == 1);
        assert(s.take(1).skip(1) =~= Seq::<Vec<u8>>::empty());
        assert(s.take(0) =~= Seq::<Vec<u8>>::empty());
        assert(flat_view(s.take(1)) =~= flat_view(s.take(0)) + s[0]@);
    } else {
        lemma_flat_take_succ(s.skip(1), j - 1);
        assert(s.take(j + 1).skip(1) =~= s.skip(1).take(j));
        assert(s.take(j).skip(1) =~= s.skip(1).take(j - 1));
        assert(s.take(j + 1)[0] == s[0]);
        assert(s.take(j)[0] == s[0]);
        assert(s.skip(1)[j - 1] == s[j]);
        assert(flat_view(s.take(j + 1)) == s[0]@ + flat_view(s.skip(1).take(j)));
        assert(flat_view(s.take(j)) == s[0]@ + flat_view(s.skip(1).take(j - 1)));
        assert(s[0]@ + (flat_view(s.skip(1).take(j - 1)) + s[j]@) =~= (s[0]@ + flat_view(
            s.skip(1).take(j - 1),
        )) + s[j]@);
    }
}

/// An in-memory readable capability: a cursor over a byte buffer.  Reads
/// deliver the bytes in order, never suspend and never fail; an exhausted
/// reader completes immediately with zero bytes.
#[derive(Debug)]
pub struct MemReader {
    data: Vec<u8>,
    pos: usize,
}

impl MemReader {
    #[verifier::type_invariant]
    spec fn wf(&self) -> bool {
        self.pos <= self.data@.len()
    }

    /// All bytes this reader was created over, consumed or not.
    pub closed spec fn data_view(&self) -> Seq<u8> {
        self.data@
    }

    /// How many bytes have been consumed so far.
    pub closed spec fn consumed(&self) -> nat {
        self.pos as nat
    }

    /// Creates a reader positioned at the start of `data`.
    pub fn new(data: Vec<u8>) -> (r: MemReader)
        ensures
            r.data_view() == data@,
            r.consumed() == 0,
            r.avail() == data@,
    {
        let r = MemReader { data, pos: 0 };
        proof {
            assert(r.avail() =~= r.data@);
        }
        r
    }

    /// The read cursor: how many bytes have been consumed.
    pub fn position(&self) -> (p: usize)
        ensures
            p as nat == self.consumed(),
    {
        self.pos
    }

    /// Returns the underlying buffer, giving up the cursor.
    pub fn into_data(self) -> (r: Vec<u8>)
        ensures
            r@ == self.data_view(),
    {
        self.data
    }

    /// Copies the next bytes into the front of `buf`: as many as fit, or as
    /// many as are available, whichever is fewer.  The rest of `buf` and the
    /// length of `buf` are unchanged; the copied bytes are consumed.
    pub fn read_into(&mut self, buf: &mut Vec<u8>) -> (n: usize)
        ensures
            n as int == vstd::math::min(
                old(buf)@.len() as int,
                old(self).avail().len() as int,
            ),
            final(buf)@.len() == old(buf)@.len(),
            final(buf)@ == old(self).avail().take(n as int) + old(buf)@.skip(n as int),
            final(self).data_view() == old(self).data_view(),
            final(self).consumed() == old(self).consumed() + n,
            final(self).avail() == old(self).avail().skip(n as int),
    {
        proof {
            use_type_invariant(&*self);
        }
        let avail_len = self.data.len() - self.pos;
        let n = if buf.len() <= avail_len {
            buf.len()
        } else {
            avail_len
        };
        let mut i: usize = 0;
        proof {
            assert(buf@ =~= old(self).avail().take(0) + old(buf)@.skip(0));
        }
        while i < n
            invariant
                i <= n,
                n <= old(buf)@.len(),
                self.pos + n <= self.data@.len(),
                self.data@.len() <= usize::MAX,
                self.data@ == old(self).data_view(),
                self.pos == old(self).consumed(),
                buf@.len() == old(buf)@.len(),
                buf@ == old(self).avail().take(i as int) + old(buf)@.skip(i as int),
            decreases n - i,
        {
            let b = self.data[self.pos + i];
            buf.set(i, b);
            proof {
                assert(old(self).avail()[i as int] == self.data@[self.pos + i]);
                assert(buf@ =~= old(self).avail().take(i + 1) + old(buf)@.skip(i + 1));
            }
            i = i + 1;
        }
        self.pos = self.pos + n;
        proof {
            assert(self.avail() =~= old(self).avail().skip(n as int));
        }
        n
    }

    /// Batched read: fills the buffers in order, front to back, consuming
    /// bytes until either every buffer is full or the reader is exhausted.
    pub fn read_vectored_into(&mut self, bufs: &mut Vec<Vec<u8>>) -> (n: usize)
        ensures
            n as int == vstd::math::min(
                flat_view(old(bufs)@).len() as int,
                old(self).avail().len() as int,
            ),
            final(bufs)@.len() == old(bufs)@.len(),
            forall|i: int|
                0 <= i < old(bufs)@.len() ==> final(bufs)@[i]@.len() == old(bufs)@[i]@.len(),
            flat_view(final(bufs)@) == old(self).avail().take(n as int) + flat_view(
                old(bufs)@,
            ).skip(n as int),
            final(self).data_view() == old(self).data_view(),
            final(self).consumed() == old(self).consumed() + n,
            final(self).avail() == old(self).avail().skip(n as int),
    {
        let ghost all = old(bufs)@;
        let ghost src = old(self).avail();
        let mut j: usize = 0;
        let mut total: usize = 0;
        proof {
            assert(all.take(0) =~= Seq::<Vec<u8>>::empty());
            assert(bufs@.take(0) =~= Seq::<Vec<u8>>::empty());
            assert(self.avail() =~= src.skip(0));
        }
        while j < bufs.len()
            invariant
                j <= bufs@.len(),
                bufs@.len() == all.len(),
                forall|i: int| j <= i < all.len() ==> bufs@[i] == all[i],
                forall|i: int| 0 <= i < j ==> bufs@[i]@.len() == all[i]@.len(),
                total <= src.len(),
                total <= flat_view(all.take(j as int)).len(),
                total == flat_view(all.take(j as int)).len() || total == src.len(),
                flat_view(bufs@.take(j as int)) == src.take(total as int) + flat_view(
                    all.take(j as int),
                ).skip(total as int),
                self.data_view() == old(self).data_view(),
                self.consumed() == old(self).consumed() + total,
                self.avail() == src.skip(total as int),
            decreases bufs@.len() - j,
        {
            let ghost pre = bufs@;
            let slot = slot_mut(bufs, j);
            let k = self.read_into(slot);
            proof {
                lemma_flat_take_succ(pre, j as int);
                lemma_flat_take_succ(all, j as int);
            }
            total = total + k;
            j = j + 1;
            proof {
                assert(bufs@ == pre.update(j - 1, bufs@[j - 1]));
                assert(bufs@.take(j - 1) =~= pre.take(j - 1));
                lemma_flat_take_succ(bufs@, j - 1);
                assert(bufs@[j - 1]@ == src.skip(total - k).take(k as int) + all[j - 1]@.skip(
                    k as int,
                ));
                if total - k == flat_view(all.take(j - 1)).len() {
                    assert(flat_view(all.take(j - 1)).skip(total - k) =~= Seq::<u8>::empty());
                    assert(flat_view(all.take(j as int)).skip(total as int) =~= all[j - 1]@.skip(
                        k as int,
                    ));
                    assert(flat_view(bufs@.take(j as int)) =~= src.take(total as int) + flat_view(
                        all.take(j as int),
                    ).skip(total as int));
                } else {
                    assert(total - k == src.len());
                    assert(k == 0);
                    assert(src.skip(total - k).take(0) =~= Seq::<u8>::empty());
                    assert(bufs@[j - 1]@ =~= all[j - 1]@);
                    assert(flat_view(all.take(j as int)).skip(total as int) =~= flat_view(
                        all.take(j - 1),
                    ).skip(total as int) + all[j - 1]@);
                    assert(flat_view(bufs@.take(j as int)) =~= src.take(total as int) + flat_view(
                        all.take(j as int),
                    ).skip(total as int));
                }
            }
        }
        proof {
            assert(bufs@.take(j as int) =~= bufs@);
            assert(all.take(j as int) =~= all);
        }
        total
    }
}

impl ReadStream for MemReader {
    closed spec fn avail(&self) -> Seq<u8> {
        self.data@.skip(self.pos as int)
    }

    closed spec fn zeroing_hint(&self) -> bool {
        false
    }

    fn initializer(&self) -> (r: ReadInit) {
        ReadInit::Nop
    }

    fn poll_read(&mut self, buf: &mut Vec<u8>) -> (r: IoPoll<Result<usize, IoError>>) {
        let n = self.read_into(buf);
        IoPoll::Ready(Ok(n))
    }

    fn poll_read_vectored(&mut self, bufs: &mut Vec<Vec<u8>>) -> (r: IoPoll<
        Result<usize, IoError>,
    >) {
        let n = self.read_vectored_into(bufs);
        IoPoll::Ready(Ok(n))
    }
}

/// The result of laying `data` over `storage`, starting at `pos`: bytes
/// before `pos` are kept, `data` overwrites what follows, and whatever it
/// does not reach — or the storage's growth, if `data` runs past the end —
/// makes up the rest.
pub open spec fn overwrite_at(storage: Seq<u8>, pos: int, data: Seq<u8>) -> Seq<u8> {
    if pos + data.len() <= storage.len() {
        storage.take(pos) + data + storage.skip(pos + data.len())
    } else {
        storage.take(pos) + data
    }
}

/// Two overwrites in a row, the second starting where the first ended, lay
/// down the concatenation of the two in one stroke.
proof fn lemma_overwrite_chain(s: Seq<u8>, p: int, x: Seq<u8>, y: Seq<u8>)
    requires
        0 <= p <= s.len(),
    ensures
        overwrite_at(overwrite_at(s, p, x), p + x.len(), y) == overwrite_at(s, p, x + y),
{
    assert(overwrite_at(overwrite_at(s, p, x), p + x.len(), y) =~= overwrite_at(s, p, x + y));
}

/// An in-memory writable capability: a cursor over a byte buffer, as a
/// sink.  Writes lay the offered bytes over the storage at the cursor,
/// growing it as needed, accept every byte, and never suspend; writing
/// after a close is refused with [`ERR_CLOSED`].  Flushing moves no bytes
/// and closing only sets a flag, so the captured bytes stay inspectable.
pub struct MemWriter {
    storage: Vec<u8>,
    pos: usize,
    shut: bool,
    flushed: Ghost<nat>,
}

impl MemWriter {
    #[verifier::type_invariant]
    spec fn wf(&self) -> bool {
        self.pos <= self.storage@.len()
    }

    /// The whole underlying buffer: the bytes written so far, then whatever
    /// of the initial storage they have not overwritten.
    pub closed spec fn storage_view(&self) -> Seq<u8> {
        self.storage@
    }

    /// The write cursor: how many bytes have been written.
    pub closed spec fn position_view(&self) -> nat {
        self.pos as nat
    }

    /// Creates a writer positioned at the start of `storage`.
    pub fn new(storage: Vec<u8>) -> (r: MemWriter)
        ensures
            r.storage_view() == storage@,
            r.position_view() == 0,
            r.written() == Seq::<u8>::empty(),
            !r.is_closed(),
            r.flushes() == 0,
    {
        let r = MemWriter { storage, pos: 0, shut: false, flushed: Ghost(0) };
        proof {
            assert(r.written() =~= Seq::<u8>::empty());
        }
        r
    }

    /// The write cursor: how many bytes have been written.
    pub fn position(&self) -> (p: usize)
        ensures
            p as nat == self.position_view(),
    {
        self.pos
    }

    /// Returns the underlying buffer, giving up the cursor.
    pub fn into_storage(self) -> (r: Vec<u8>)
        ensures
            r@ == self.storage_view(),
            r@.take(self.position_view() as int) == self.written(),
    {
        self.storage
    }

    /// Lays every byte of `buf` over the storage at the cursor and advances
    /// the cursor past them; refused without effect once the writer is
    /// closed.
    pub fn write_from(&mut self, buf: &Vec<u8>) -> (r: Result<usize, IoError>)
        ensures
            final(self).is_closed() == old(self).is_closed(),
            final(self).flushes() == old(self).flushes(),
            old(self).is_closed() ==> {
                &&& r == Err::<usize, IoError>((IoError { code: ERR_CLOSED }))
                &&& final(self).storage_view() == old(self).storage_view()
                &&& final(self).position_view() == old(self).position_view()
            },
            !old(self).is_closed() ==> {
                &&& r == Ok::<usize, IoError>(buf@.len() as usize)
                &&& final(self).storage_view() == overwrite_at(
                    old(self).storage_view(),
                    old(self).position_view() as int,
                    buf@,
                )
                &&& final(self).position_view() == old(self).position_view() + buf@.len()
                &&& final(self).written() == old(self).written() + buf@
            },
    {
        proof {
            use_type_invariant(&*self);
        }
        if self.shut {
            return Err(IoError { code: ERR_CLOSED });
        }
        let mut st: Vec<u8> = Vec::new();
        let mut pos = self.pos;
        self.pos = 0;
        core::mem::swap(&mut st, &mut self.storage);
        let ghost start = old(self).position_view() as int;
        let mut i: usize = 0;
        proof {
            assert(st@ =~= overwrite_at(old(self).storage_view(), start, buf@.take(0)));
        }
        while i < buf.len()
            invariant
                i <= buf@.len(),
                0 <= start <= old(self).storage_view().len(),
                pos <= st@.len(),
                pos == start + i,
                st@ == overwrite_at(old(self).storage_view(), start, buf@.take(i as int)),
            decreases buf@.len() - i,
        {
            let b = buf[i];
            if pos < st.len() {
                st.set(pos, b);
                pos = pos + 1;
            } else {
                st.push(b);
                pos = st.len();
            }
            i = i + 1;
            proof {
                assert(st@ =~= overwrite_at(old(self).storage_view(), start, buf@.take(i as int)));
            }
        }
        core::mem::swap(&mut st, &mut self.storage);
        self.pos = pos;
        proof {
            assert(buf@.take(i as int) =~= buf@);
            assert(self.written() =~= old(self).written() + buf@);
        }
        Ok(i)
    }

    /// Batched write: lays the bytes of every buffer, in order, over the
    /// storage at the cursor.  A batch of zero buffers is a completed no-op
    /// even on a closed writer; any other batch is refused once the writer
    /// is closed.
    pub fn write_vectored_from(&mut self, bufs: &Vec<Vec<u8>>) -> (r: Result<usize, IoError>)
        ensures
            final(self).is_closed() == old(self).is_closed(),
            final(self).flushes() == old(self).flushes(),
            bufs@.len() == 0 ==> {
                &&& r == Ok::<usize, IoError>(0)
                &&& final(self).storage_view() == old(self).storage_view()
                &&& final(self).position_view() == old(self).position_view()
            },
            bufs@.len() > 0 && old(self).is_closed() ==> {
                &&& r == Err::<usize, IoError>((IoError { code: ERR_CLOSED }))
                &&& final(self).storage_view() == old(self).storage_view()
                &&& final(self).position_view() == old(self).position_view()
            },
            !old(self).is_closed() ==> {
                &&& r == Ok::<usize, IoError>(flat_view(bufs@).len() as usize)
                &&& final(self).storage_view() == overwrite_at(
                    old(self).storage_view(),
                    old(self).position_view() as int,
                    flat_view(bufs@),
                )
                &&& final(self).position_view() == old(self).position_view() + flat_view(
                    bufs@,
                ).len()
                &&& final(self).written() == old(self).written() + flat_view(bufs@)
            },
    {
        proof {
            use_type_invariant(&*self);
        }
        if bufs.len() == 0 {
            proof {
                assert(flat_view(bufs@) =~= Seq::<u8>::empty());
                assert(overwrite_at(
                    old(self).storage_view(),
                    old(self).position_view() as int,
                    flat_view(bufs@),
                ) =~= old(self).storage_view());
                assert(old(self).written() + flat_view(bufs@) =~= old(self).written());
            }
            return Ok(0);
        }
        if self.shut {
            return Err(IoError { code: ERR_CLOSED });
        }
        let start = self.pos;
        let mut j: usize = 0;
        proof {
            assert(bufs@.take(0) =~= Seq::<Vec<u8>>::empty());
            assert(self.storage@ =~= overwrite_at(
                old(self).storage_view(),
                start as int,
                flat_view(bufs@.take(0)),
            ));
            assert(self.written() =~= old(self).written() + flat_view(bufs@.take(0)));
        }
        while j < bufs.len()
            invariant
                j <= bufs@.len(),
                self.shut == old(self).shut,
                !self.shut,
                self.flushes() == old(self).flushes(),
                start == old(self).position_view(),
                self.pos <= self.storage@.len(),
                self.pos == start + flat_view(bufs@.take(j as int)).len(),
                self.storage@ == overwrite_at(
                    old(self).storage_view(),
                    start as int,
                    flat_view(bufs@.take(j as int)),
                ),
                self.written() == old(self).written() + flat_view(bufs@.take(j as int)),
                start <= old(self).storage_view().len(),
            decreases bufs@.len() - j,
        {
            let ghost done = flat_view(bufs@.take(j as int));
            let _ = self.write_from(&bufs[j]);
            proof {
                lemma_flat_take_succ(bufs@, j as int);
                lemma_overwrite_chain(old(self).storage_view(), start as int, done, bufs@[j as int]@);
            }
            j = j + 1;
        }
        proof {
            assert(bufs@.take(j as int) =~= bufs@);
        }
        Ok(self.pos - start)
    }
}

impl WriteStream for MemWriter {
    closed spec fn written(&self) -> Seq<u8> {
        self.storage@.take(self.pos as int)
    }

    closed spec fn is_closed(&self) -> bool {
        self.shut
    }

    closed spec fn flushes(&self) -> nat {
        self.flushed@
    }

    fn poll_write(&mut self, buf: &Vec<u8>) -> (r: IoPoll<Result<usize, IoError>>) {
        let res = self.write_from(buf);
        proof {
            if !old(self).is_closed() {
                assert(buf@.take(buf@.len() as int) =~= buf@);
            }
        }
        IoPoll::Ready(res)
    }

    fn poll_write_vectored(&mut self, bufs: &Vec<Vec<u8>>) -> (r: IoPoll<Result<usize, IoError>>) {
        let res = self.write_vectored_from(bufs);
        proof {
            if !old(self).is_closed() {
                assert(flat_view(bufs@).take(flat_view(bufs@).len() as int) =~= flat_view(bufs@));
            }
        }
        IoPoll::Ready(res)
    }

    fn poll_flush(&mut self) -> (r: IoPoll<Result<(), IoError>>) {
        proof {
            use_type_invariant(&*self);
        }
        self.flushed = Ghost(self.flushed@ + 1);
        IoPoll::Ready(Ok(()))
    }

    fn poll_close(&mut self) -> (r: IoPoll<Result<(), IoError>>) {
        proof {
            use_type_invariant(&*self);
        }
        self.shut = true;
        IoPoll::Ready(Ok(()))
    }
}

} // verus!
