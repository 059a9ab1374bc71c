use merge_io::mem::{MemReader, MemWriter};
use merge_io::poll::IoPoll;
use merge_io::MergeIO;

/// Drives single-buffer write attempts until every byte of `data` has been
/// accepted, as an async `write_all` would.
fn write_all(tio: &mut MergeIO<MemReader, MemWriter>, data: &[u8]) {
    let mut offset = 0;
    while offset < data.len() {
        let chunk: Vec<u8> = data[offset..].to_vec();
        match tio.poll_write(&chunk) {
            IoPoll::Ready(Ok(n)) => {
                assert!(n > 0, "writer accepted nothing");
                offset += n;
            }
            IoPoll::Ready(Err(e)) => panic!("write failed with code {}", e.code),
            IoPoll::Pending => panic!("memory writer should never suspend"),
        }
    }
}

/// Drives single-buffer read attempts until the reader reports zero bytes,
/// as an async `read_to_end` would, collecting everything delivered.
fn read_to_end(tio: &mut MergeIO<MemReader, MemWriter>, chunk_size: usize) -> Vec<u8> {
    let mut collected = Vec::new();
    loop {
        let mut buf = vec![0u8; chunk_size];
        match tio.poll_read(&mut buf) {
            IoPoll::Ready(Ok(0)) => return collected,
            IoPoll::Ready(Ok(n)) => collected.extend_from_slice(&buf[..n]),
            IoPoll::Ready(Err(e)) => panic!("read failed with code {}", e.code),
            IoPoll::Pending => panic!("memory reader should never suspend"),
        }
    }
}

#[test]
fn test_duplex() {
    let read_sample = vec![1u8, 2, 3, 4];
    let write_sample = vec![10u8, 20, 30, 40];

    let reader = MemReader::new(read_sample.clone());
    let writer = MemWriter::new(vec![0u8; 1024]);
    let mut tio = MergeIO::new(reader, writer);

    write_all(&mut tio, &write_sample);

    let read_buf = read_to_end(&mut tio, 1024);

    assert_eq!(&read_buf, &read_sample);

    let (outcome_read_buf, outcome_write_buf) = tio.into_inner();

    assert_eq!(outcome_read_buf.position(), read_sample.len());
    assert_eq!(
        outcome_write_buf.into_storage()[..write_sample.len()],
        write_sample[..]
    );
}
