use merge_io::mem::{MemReader, MemWriter, ERR_CLOSED};
use merge_io::poll::{IoPoll, ReadInit};
use merge_io::MergeIO;

/// Reads through the adapter until exhaustion, `chunk_size` bytes at a time.
fn drain(tio: &mut MergeIO<MemReader, MemWriter>, chunk_size: usize) -> Vec<u8> {
    let mut collected = Vec::new();
    loop {
        let mut buf = vec![0u8; chunk_size];
        match tio.poll_read(&mut buf) {
            IoPoll::Ready(Ok(0)) => return collected,
            IoPoll::Ready(Ok(n)) => collected.extend_from_slice(&buf[..n]),
            other => panic!("unexpected read outcome {:?}", other),
        }
    }
}

#[test]
fn preloaded_reader_and_empty_sink() {
    let reader = MemReader::new(vec![1u8, 2, 3, 4]);
    let writer = MemWriter::new(Vec::new());
    let mut tio = MergeIO::new(reader, writer);

    match tio.poll_write(&vec![10u8, 20, 30, 40]) {
        IoPoll::Ready(Ok(n)) => assert_eq!(n, 4),
        other => panic!("unexpected write outcome {:?}", other),
    }

    let read_buf = drain(&mut tio, 16);
    assert_eq!(read_buf, vec![1u8, 2, 3, 4]);

    let (_reader, writer) = tio.into_inner();
    let contents = writer.into_storage();
    assert!(contents.starts_with(&[10u8, 20, 30, 40]));
}

#[test]
fn exhausted_reader_completes_immediately() {
    let reader = MemReader::new(Vec::new());
    let writer = MemWriter::new(Vec::new());
    let mut tio = MergeIO::new(reader, writer);

    let mut buf = vec![0u8; 8];
    match tio.poll_read(&mut buf) {
        IoPoll::Ready(Ok(n)) => assert_eq!(n, 0),
        IoPoll::Ready(Err(e)) => panic!("unexpected error with code {}", e.code),
        IoPoll::Pending => panic!("read of an exhausted reader must not suspend"),
    }
}

#[test]
fn zero_buffer_vectored_read() {
    let reader = MemReader::new(vec![1u8, 2, 3]);
    let writer = MemWriter::new(Vec::new());
    let mut tio = MergeIO::new(reader, writer);

    let mut bufs: Vec<Vec<u8>> = Vec::new();
    match tio.poll_read_vectored(&mut bufs) {
        IoPoll::Ready(Ok(n)) => assert_eq!(n, 0),
        other => panic!("unexpected outcome {:?}", other),
    }
    // Nothing was consumed.
    assert_eq!(tio.reader().position(), 0);
}

#[test]
fn zero_buffer_vectored_write() {
    let reader = MemReader::new(Vec::new());
    let writer = MemWriter::new(Vec::new());
    let mut tio = MergeIO::new(reader, writer);

    let bufs: Vec<Vec<u8>> = Vec::new();
    match tio.poll_write_vectored(&bufs) {
        IoPoll::Ready(Ok(n)) => assert_eq!(n, 0),
        other => panic!("unexpected outcome {:?}", other),
    }
    let (_reader, writer) = tio.into_inner();
    assert_eq!(writer.into_storage(), Vec::<u8>::new());
}

#[test]
fn vectored_read_fills_buffers_in_order() {
    let reader = MemReader::new(vec![1u8, 2, 3, 4, 5]);
    let writer = MemWriter::new(Vec::new());
    let mut tio = MergeIO::new(reader, writer);

    let mut bufs = vec![vec![0u8; 2], vec![0u8; 2]];
    match tio.poll_read_vectored(&mut bufs) {
        IoPoll::Ready(Ok(n)) => assert_eq!(n, 4),
        other => panic!("unexpected outcome {:?}", other),
    }
    assert_eq!(bufs, vec![vec![1u8, 2], vec![3u8, 4]]);

    let mut rest = vec![vec![0u8; 2]];
    match tio.poll_read_vectored(&mut rest) {
        IoPoll::Ready(Ok(n)) => assert_eq!(n, 1),
        other => panic!("unexpected outcome {:?}", other),
    }
    assert_eq!(rest, vec![vec![5u8, 0]]);
}

#[test]
fn vectored_write_gathers_buffers_in_order() {
    let reader = MemReader::new(Vec::new());
    let writer = MemWriter::new(Vec::new());
    let mut tio = MergeIO::new(reader, writer);

    let bufs = vec![vec![1u8, 2], vec![], vec![3u8]];
    match tio.poll_write_vectored(&bufs) {
        IoPoll::Ready(Ok(n)) => assert_eq!(n, 3),
        other => panic!("unexpected outcome {:?}", other),
    }
    let (_reader, writer) = tio.into_inner();
    assert_eq!(writer.into_storage(), vec![1u8, 2, 3]);
}

#[test]
fn read_chunking_is_invariant() {
    let data = vec![9u8, 8, 7, 6, 5, 4];

    let mut one = MergeIO::new(MemReader::new(data.clone()), MemWriter::new(Vec::new()));
    let mut three = MergeIO::new(MemReader::new(data.clone()), MemWriter::new(Vec::new()));

    assert_eq!(drain(&mut one, 1), data);
    assert_eq!(drain(&mut three, 3), data);
}

#[test]
fn writes_do_not_disturb_reads() {
    let data = vec![1u8, 2, 3, 4];
    let mut plain = MergeIO::new(MemReader::new(data.clone()), MemWriter::new(Vec::new()));
    let mut noisy = MergeIO::new(MemReader::new(data.clone()), MemWriter::new(Vec::new()));

    // Interleave writes and a flush with the reads on the noisy adapter.
    let mut collected = Vec::new();
    let mut buf = vec![0u8; 2];
    match noisy.poll_read(&mut buf) {
        IoPoll::Ready(Ok(n)) => collected.extend_from_slice(&buf[..n]),
        other => panic!("unexpected outcome {:?}", other),
    }
    match noisy.poll_write(&vec![99u8, 98]) {
        IoPoll::Ready(Ok(n)) => assert_eq!(n, 2),
        other => panic!("unexpected outcome {:?}", other),
    }
    match noisy.poll_flush() {
        IoPoll::Ready(Ok(())) => {}
        other => panic!("unexpected outcome {:?}", other),
    }
    collected.extend_from_slice(&drain(&mut noisy, 2));

    assert_eq!(collected, drain(&mut plain, 2));
    let (_reader, writer) = noisy.into_inner();
    assert_eq!(writer.into_storage(), vec![99u8, 98]);
}

#[test]
fn write_after_close_is_refused_and_read_side_survives() {
    let reader = MemReader::new(vec![5u8, 6]);
    let writer = MemWriter::new(Vec::new());
    let mut tio = MergeIO::new(reader, writer);

    match tio.poll_close() {
        IoPoll::Ready(Ok(())) => {}
        other => panic!("unexpected outcome {:?}", other),
    }
    match tio.poll_write(&vec![1u8]) {
        IoPoll::Ready(Err(e)) => assert_eq!(e.code, ERR_CLOSED),
        other => panic!("a closed writer must refuse bytes, got {:?}", other),
    }
    // The failure on the write side leaves the read side fully usable.
    assert_eq!(drain(&mut tio, 4), vec![5u8, 6]);
}

#[test]
fn flush_changes_nothing() {
    let reader = MemReader::new(Vec::new());
    let writer = MemWriter::new(Vec::new());
    let mut tio = MergeIO::new(reader, writer);

    match tio.poll_write(&vec![3u8, 1, 4]) {
        IoPoll::Ready(Ok(n)) => assert_eq!(n, 3),
        other => panic!("unexpected outcome {:?}", other),
    }
    match tio.poll_flush() {
        IoPoll::Ready(Ok(())) => {}
        other => panic!("unexpected outcome {:?}", other),
    }
    let (_reader, writer) = tio.into_inner();
    assert_eq!(writer.into_storage(), vec![3u8, 1, 4]);
}

#[test]
fn accessors_expose_the_two_halves() {
    let reader = MemReader::new(vec![1u8, 2, 3]);
    let writer = MemWriter::new(Vec::new());
    let mut tio = MergeIO::new(reader, writer);

    assert_eq!(tio.reader().position(), 0);
    assert_eq!(tio.writer().position(), 0);
    assert_eq!(tio.initializer(), ReadInit::Nop);

    // Capability-specific operations through the mutable accessors.
    let mut buf = vec![0u8];
    let n = tio.reader_mut().read_into(&mut buf);
    assert_eq!((n, buf[0]), (1, 1u8));
    tio.writer_mut().write_from(&vec![7u8]).unwrap();

    assert_eq!(tio.reader().position(), 1);
    assert_eq!(tio.writer().position(), 1);
}

#[test]
fn decomposition_matches_direct_use() {
    // The same operations, once through the adapter, once directly on the
    // two halves.
    let data = vec![4u8, 5, 6, 7];

    let mut tio = MergeIO::new(MemReader::new(data.clone()), MemWriter::new(Vec::new()));
    let mut buf = vec![0u8; 3];
    let merged_n = match tio.poll_read(&mut buf) {
        IoPoll::Ready(Ok(n)) => n,
        other => panic!("unexpected outcome {:?}", other),
    };
    match tio.poll_write(&vec![11u8, 12]) {
        IoPoll::Ready(Ok(n)) => assert_eq!(n, 2),
        other => panic!("unexpected outcome {:?}", other),
    }
    let (merged_reader, merged_writer) = tio.into_inner();

    let mut direct_reader = MemReader::new(data.clone());
    let mut direct_writer = MemWriter::new(Vec::new());
    let mut direct_buf = vec![0u8; 3];
    let direct_n = direct_reader.read_into(&mut direct_buf);
    direct_writer.write_from(&vec![11u8, 12]).unwrap();

    assert_eq!(merged_n, direct_n);
    assert_eq!(buf, direct_buf);
    assert_eq!(merged_reader.position(), direct_reader.position());
    assert_eq!(merged_reader.into_data(), direct_reader.into_data());
    assert_eq!(merged_writer.position(), direct_writer.position());
    assert_eq!(merged_writer.into_storage(), direct_writer.into_storage());
}

#[test]
fn writer_overwrites_then_extends() {
    let mut writer = MemWriter::new(vec![0u8, 0]);
    writer.write_from(&vec![7u8, 8, 9]).unwrap();
    assert_eq!(writer.position(), 3);
    assert_eq!(writer.into_storage(), vec![7u8, 8, 9]);
}
