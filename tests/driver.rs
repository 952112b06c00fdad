use disktest::aggregator::RoundRobin;
use disktest::driver::{verify_chunk, write_len};
use disktest::stream::{DtStreamWorker, CHUNKSIZE};

/// Writes `total` bytes of the stream of (`seed`, `n`) into a buffer, as the
/// write driver does.
fn write_stream(seed: &Vec<u8>, n: usize, total: u64) -> Vec<u8> {
    let mut workers: Vec<DtStreamWorker> = (0..n).map(|s| DtStreamWorker::new(seed, s as u16)).collect();
    let mut order = RoundRobin::new(n);
    let mut dev = Vec::new();
    let mut remaining = total;
    while remaining > 0 {
        let chunk = workers[order.cursor()].produce_chunk();
        assert!(order.advance(chunk.index));
        let len = write_len(remaining, chunk.data.len());
        dev.extend_from_slice(&chunk.data[..len]);
        remaining -= len as u64;
    }
    dev
}

/// Verifies a buffer against the stream of (`seed`, `n`), as the verify
/// driver does; returns the first mismatch offset.
fn verify_stream(seed: &Vec<u8>, n: usize, dev: &[u8]) -> Result<u64, u64> {
    let mut workers: Vec<DtStreamWorker> = (0..n).map(|s| DtStreamWorker::new(seed, s as u16)).collect();
    let mut order = RoundRobin::new(n);
    let mut done: u64 = 0;
    while (done as usize) < dev.len() {
        let chunk = workers[order.cursor()].produce_chunk();
        assert!(order.advance(chunk.index));
        let end = std::cmp::min(dev.len(), done as usize + CHUNKSIZE);
        verify_chunk(&chunk.data, &dev[done as usize..end], done)?;
        done = end as u64;
    }
    Ok(done)
}

#[test]
fn write_then_verify_ten_mib() {
    let seed = b"42".to_vec();
    let dev = write_stream(&seed, 1, 10 * 1024 * 1024);
    assert_eq!(dev.len(), 10 * 1024 * 1024);
    assert_eq!(verify_stream(&seed, 1, &dev), Ok(10 * 1024 * 1024));
}

#[test]
fn flipped_byte_is_reported_at_its_offset() {
    let seed = b"42".to_vec();
    let mut dev = write_stream(&seed, 1, 10 * 1024 * 1024);
    dev[5_000_000] ^= 0xff;
    assert_eq!(verify_stream(&seed, 1, &dev), Err(5_000_000));
}

#[test]
fn verify_with_other_worker_count_fails_early() {
    let seed = b"42".to_vec();
    let dev = write_stream(&seed, 1, 3 * CHUNKSIZE as u64);
    match verify_stream(&seed, 2, &dev) {
        Err(off) => assert!(off < 2 * CHUNKSIZE as u64),
        Ok(_) => panic!("verify with another worker count succeeded"),
    }
}

#[test]
fn short_device_verifies_written_length() {
    let seed = b"42".to_vec();
    // A write that stopped early (device full) holds a prefix of the stream.
    let dev = write_stream(&seed, 4, CHUNKSIZE as u64 + 1234);
    assert_eq!(dev.len(), CHUNKSIZE + 1234);
    assert_eq!(verify_stream(&seed, 4, &dev), Ok(CHUNKSIZE as u64 + 1234));
}

#[test]
fn verify_chunk_offsets() {
    let expected = vec![1u8, 2, 3, 4, 5];
    assert_eq!(verify_chunk(&expected, &[1, 2, 3], 100), Ok(()));
    assert_eq!(verify_chunk(&expected, &[], 7), Ok(()));
    assert_eq!(verify_chunk(&expected, &[1, 2, 9, 9], 100), Err(102));
    assert_eq!(verify_chunk(&expected, &[0], 0), Err(0));
}

#[test]
fn write_len_clamps() {
    assert_eq!(write_len(10, 64), 10);
    assert_eq!(write_len(64, 64), 64);
    assert_eq!(write_len(u64::MAX, 64), 64);
    assert_eq!(write_len(0, 64), 0);
}
