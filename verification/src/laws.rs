use vstd::prelude::*;
use crate::merge::MergeIO;
use crate::stream::{ReadStream, WriteStream};

verus! {

/// The observable state of a merged duplex stream, as the adapter's
/// contracts describe it: the bytes still available on the read channel,
/// the bytes accepted so far on the write channel, and whether the write
/// channel has been shut down.
#[verifier::ext_equal]
pub struct DuplexState {
    /// Bytes the read channel can still deliver, oldest first.
    pub avail: Seq<u8>,
    /// Bytes the write channel has accepted, oldest first.
    pub written: Seq<u8>,
    /// Whether the write channel has been shut down.
    pub shut: bool,
}

/// One completed operation of the unified bidirectional interface, reduced
/// to its effect on the observable state: a read that delivers up to
/// `count` bytes, a write whose offered bytes are `chunk`, a flush, or a
/// close.  The effect of each is the one the adapter's forwarding contracts
/// give for a completed attempt.
pub enum DuplexOp {
    /// A read attempt with room for `count` bytes, completing successfully.
    Read { count: nat },
    /// A write attempt offering `chunk`, accepted in full when the writer
    /// is open and refused without effect when it is closed.
    Write { chunk: Seq<u8> },
    /// A flush attempt, completing successfully.
    Flush,
    /// A close attempt, completing successfully.
    Close,
}

/// Whether `op` belongs to the read channel.
pub open spec fn is_read_side(op: DuplexOp) -> bool {
    op is Read
}

/// Whether `op` belongs to the write channel.
pub open spec fn is_write_side(op: DuplexOp) -> bool {
    !(op is Read)
}

/// The effect of one operation on the merged state.
pub open spec fn apply_op(s: DuplexState, op: DuplexOp) -> DuplexState {
    match op {
        DuplexOp::Read { count } => DuplexState {
            avail: s.avail.skip(vstd::math::min(count as int, s.avail.len() as int)),
            written: s.written,
            shut: s.shut,
        },
        DuplexOp::Write { chunk } => if s.shut {
            s
        } else {
            DuplexState { avail: s.avail, written: s.written + chunk, shut: s.shut }
        },
        DuplexOp::Flush => s,
        DuplexOp::Close => DuplexState { avail: s.avail, written: s.written, shut: true },
    }
}

/// The effect of a whole operation sequence, first to last, on the merged
/// state.
pub open spec fn apply_ops(s: DuplexState, ops: Seq<DuplexOp>) -> DuplexState
    decreases ops.len(),
{
    if ops.len() == 0 {
        s
    } else {
        apply_ops(apply_op(s, ops[0]), ops.skip(1))
    }
}

/// The effect of one operation on a reader used directly, on its own:
/// write-side operations do not reach it at all.
pub open spec fn reader_step(avail: Seq<u8>, op: DuplexOp) -> Seq<u8> {
    match op {
        DuplexOp::Read { count } => avail.skip(vstd::math::min(count as int, avail.len() as int)),
        _ => avail,
    }
}

/// The effect of a whole operation sequence on a reader used directly.
pub open spec fn reader_run(avail: Seq<u8>, ops: Seq<DuplexOp>) -> Seq<u8>
    decreases ops.len(),
{
    if ops.len() == 0 {
        avail
    } else {
        reader_run(reader_step(avail, ops[0]), ops.skip(1))
    }
}

/// The effect of one operation on a writer used directly, on its own:
/// read-side operations do not reach it at all.
pub open spec fn writer_step(written: Seq<u8>, shut: bool, op: DuplexOp) -> (Seq<u8>, bool) {
    match op {
        DuplexOp::Write { chunk } => if shut {
            (written, shut)
        } else {
            (written + chunk, shut)
        },
        DuplexOp::Close => (written, true),
        _ => (written, shut),
    }
}

/// The effect of a whole operation sequence on a writer used directly.
pub open spec fn writer_run(written: Seq<u8>, shut: bool, ops: Seq<DuplexOp>) -> (Seq<u8>, bool)
    decreases ops.len(),
{
    if ops.len() == 0 {
        (written, shut)
    } else {
        writer_run(
            writer_step(written, shut, ops[0]).0,
            writer_step(written, shut, ops[0]).1,
            ops.skip(1),
        )
    }
}

/// Law: the channels are independent.  A sequence made only of write-side
/// operations has no observable effect on the read channel, and a sequence
/// made only of read-side operations has none on the write channel.
pub proof fn lemma_channel_independence(s: DuplexState, ops: Seq<DuplexOp>)
    ensures
        (forall|i: int| 0 <= i < ops.len() ==> is_write_side(ops[i])) ==> apply_ops(s, ops).avail
            == s.avail,
        (forall|i: int| 0 <= i < ops.len() ==> is_read_side(ops[i])) ==> apply_ops(s, ops).written
            == s.written && apply_ops(s, ops).shut == s.shut,
    decreases ops.len(),
{
    if ops.len() > 0 {
        lemma_channel_independence(apply_op(s, ops[0]), ops.skip(1));
        assert(forall|i: int| 0 <= i < ops.skip(1).len() ==> ops.skip(1)[i] == ops[i + 1]);
    }
}

/// Law: decomposition round-trip.  Running any operation sequence through
/// the merged adapter and then taking it apart yields exactly the reader
/// and writer that direct, unadapted use with the same operations would
/// have produced: the merged state evolves component by component.
pub proof fn lemma_decomposition_round_trip(s: DuplexState, ops: Seq<DuplexOp>)
    ensures
        apply_ops(s, ops).avail == reader_run(s.avail, ops),
        apply_ops(s, ops).written == writer_run(s.written, s.shut, ops).0,
        apply_ops(s, ops).shut == writer_run(s.written, s.shut, ops).1,
    decreases ops.len(),
{
    if ops.len() > 0 {
        lemma_decomposition_round_trip(apply_op(s, ops[0]), ops.skip(1));
    }
}

/// The bytes of the given chunks, in order, as one sequence.
pub open spec fn concat_chunks(chunks: Seq<Seq<u8>>) -> Seq<u8>
    decreases chunks.len(),
{
    if chunks.len() == 0 {
        Seq::<u8>::empty()
    } else {
        chunks[0] + concat_chunks(chunks.skip(1))
    }
}

/// One write operation per chunk, in order.
pub open spec fn write_ops(chunks: Seq<Seq<u8>>) -> Seq<DuplexOp>
    decreases chunks.len(),
{
    if chunks.len() == 0 {
        Seq::<DuplexOp>::empty()
    } else {
        seq![(DuplexOp::Write { chunk: chunks[0] })] + write_ops(chunks.skip(1))
    }
}

/// Law: the write path preserves bytes exactly.  However a byte sequence is
/// split into chunks, writing the chunks in order through the adapter makes
/// the writer observe precisely those bytes, in order — none added, none
/// dropped, none reordered.
pub proof fn lemma_write_path_exact(s: DuplexState, chunks: Seq<Seq<u8>>)
    requires
        !s.shut,
    ensures
        apply_ops(s, write_ops(chunks)).written == s.written + concat_chunks(chunks),
        apply_ops(s, write_ops(chunks)).avail == s.avail,
        !apply_ops(s, write_ops(chunks)).shut,
    decreases chunks.len(),
{
    if chunks.len() == 0 {
        assert(s.written + concat_chunks(chunks) =~= s.written);
    } else {
        let s1 = apply_op(s, write_ops(chunks)[0]);
        assert(write_ops(chunks)[0] == (DuplexOp::Write { chunk: chunks[0] }));
        assert(write_ops(chunks).skip(1) =~= write_ops(chunks.skip(1)));
        lemma_write_path_exact(s1, chunks.skip(1));
        assert((s.written + chunks[0]) + concat_chunks(chunks.skip(1)) =~= s.written + (chunks[0]
            + concat_chunks(chunks.skip(1))));
    }
}

/// One read operation per count, in order.
pub open spec fn read_ops(counts: Seq<nat>) -> Seq<DuplexOp>
    decreases counts.len(),
{
    if counts.len() == 0 {
        Seq::<DuplexOp>::empty()
    } else {
        seq![(DuplexOp::Read { count: counts[0] })] + read_ops(counts.skip(1))
    }
}

/// The bytes a caller receives when draining `avail` with reads of the
/// given counts, in order: each read delivers the next `count` available
/// bytes, or all that remain if fewer.
pub open spec fn delivered(avail: Seq<u8>, counts: Seq<nat>) -> Seq<u8>
    decreases counts.len(),
{
    if counts.len() == 0 {
        Seq::<u8>::empty()
    } else {
        let k = vstd::math::min(counts[0] as int, avail.len() as int);
        avail.take(k) + delivered(avail.skip(k), counts.skip(1))
    }
}

/// Law: the read path is chunking-invariant.  However a caller splits its
/// reads, the bytes delivered so far followed by the bytes still available
/// reassemble the original sequence; in particular, once the reader is
/// exhausted the delivered bytes are exactly the original sequence,
/// regardless of how many reads were used to drain it.
pub proof fn lemma_read_chunking_invariance(s: DuplexState, counts: Seq<nat>)
    ensures
        delivered(s.avail, counts) + apply_ops(s, read_ops(counts)).avail == s.avail,
        apply_ops(s, read_ops(counts)).avail.len() == 0 ==> delivered(s.avail, counts) == s.avail,
        apply_ops(s, read_ops(counts)).written == s.written,
        apply_ops(s, read_ops(counts)).shut == s.shut,
    decreases counts.len(),
{
    if counts.len() == 0 {
        assert(delivered(s.avail, counts) + apply_ops(s, read_ops(counts)).avail =~= s.avail);
    } else {
        let k = vstd::math::min(counts[0] as int, s.avail.len() as int);
        let s1 = apply_op(s, read_ops(counts)[0]);
        assert(read_ops(counts)[0] == (DuplexOp::Read { count: counts[0] }));
        assert(read_ops(counts).skip(1) =~= read_ops(counts.skip(1)));
        assert(s1.avail == s.avail.skip(k));
        lemma_read_chunking_invariance(s1, counts.skip(1));
        assert(s.avail.take(k) + (delivered(s.avail.skip(k), counts.skip(1)) + apply_ops(
            s1,
            read_ops(counts.skip(1)),
        ).avail) =~= (s.avail.take(k) + delivered(s.avail.skip(k), counts.skip(1))) + apply_ops(
            s1,
            read_ops(counts.skip(1)),
        ).avail);
        assert(s.avail.take(k) + s.avail.skip(k) =~= s.avail);
    }
    if apply_ops(s, read_ops(counts)).avail.len() == 0 {
        assert(delivered(s.avail, counts) + apply_ops(s, read_ops(counts)).avail =~= delivered(
            s.avail,
            counts,
        ));
    }
}

/// The observable state of an adapter: what its forwarding contracts let a
/// caller see of the two channels.
pub open spec fn duplex_view<R: ReadStream, W: WriteStream>(m: MergeIO<R, W>) -> DuplexState {
    DuplexState {
        avail: m.reader.avail(),
        written: m.writer.written(),
        shut: m.writer.is_closed(),
    }
}

/// A read attempt that completes with `n` bytes moves the adapter's
/// observable state exactly as one `Read` operation of the model does: the
/// contract of `MergeIO::poll_read` gives precisely the premises below.
pub proof fn lemma_read_step_is_model_op<R: ReadStream, W: WriteStream>(
    pre: MergeIO<R, W>,
    post: MergeIO<R, W>,
    n: nat,
)
    requires
        n <= pre.reader.avail().len(),
        post.reader.avail() == pre.reader.avail().skip(n as int),
        post.writer == pre.writer,
    ensures
        duplex_view(post) == apply_op(duplex_view(pre), (DuplexOp::Read { count: n })),
{
    assert(duplex_view(post) =~= apply_op(duplex_view(pre), (DuplexOp::Read { count: n })));
}

/// A write attempt that gets `accepted` bytes taken on moves the adapter's
/// observable state exactly as one `Write` operation of the model does: the
/// contract of `MergeIO::poll_write` gives precisely the premises below,
/// with `accepted` the taken prefix of the offered bytes.
pub proof fn lemma_write_step_is_model_op<R: ReadStream, W: WriteStream>(
    pre: MergeIO<R, W>,
    post: MergeIO<R, W>,
    accepted: Seq<u8>,
)
    requires
        !pre.writer.is_closed(),
        post.writer.written() == pre.writer.written() + accepted,
        post.writer.is_closed() == pre.writer.is_closed(),
        post.reader == pre.reader,
    ensures
        duplex_view(post) == apply_op(duplex_view(pre), (DuplexOp::Write { chunk: accepted })),
{
    assert(duplex_view(post) =~= apply_op(duplex_view(pre), (DuplexOp::Write { chunk: accepted })));
}

/// A flush attempt, a suspended attempt or a failed attempt moves no bytes
/// and closes nothing, so on the byte-level state the model tracks it acts
/// exactly as the model's `Flush` operation: the identity.
pub proof fn lemma_flush_step_is_model_op<R: ReadStream, W: WriteStream>(
    pre: MergeIO<R, W>,
    post: MergeIO<R, W>,
)
    requires
        post.reader.avail() == pre.reader.avail(),
        post.writer.written() == pre.writer.written(),
        post.writer.is_closed() == pre.writer.is_closed(),
    ensures
        duplex_view(post) == apply_op(duplex_view(pre), DuplexOp::Flush),
{
    assert(duplex_view(post) =~= apply_op(duplex_view(pre), DuplexOp::Flush));
}

/// A close attempt that completes successfully moves the adapter's
/// observable state exactly as the model's `Close` operation does.
pub proof fn lemma_close_step_is_model_op<R: ReadStream, W: WriteStream>(
    pre: MergeIO<R, W>,
    post: MergeIO<R, W>,
)
    requires
        post.reader == pre.reader,
        post.writer.written() == pre.writer.written(),
        post.writer.is_closed(),
    ensures
        duplex_view(post) == apply_op(duplex_view(pre), DuplexOp::Close),
{
    assert(duplex_view(post) =~= apply_op(duplex_view(pre), DuplexOp::Close));
}

} // verus!
