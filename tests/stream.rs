use disktest::aggregator::RoundRobin;
use disktest::hasher::Hasher;
use disktest::sha512::GeneratorSHA512;
use disktest::stream::{DtStreamChunk, DtStreamWorker, WorkerAction, CHUNKSIZE, LEVEL_THRES};

#[test]
fn worker_first_chunks() {
    let mut w = DtStreamWorker::new(&vec![1, 2, 3], 0);
    for count in 0..5u64 {
        assert_eq!(w.next_action(false, 0), WorkerAction::Produce);
        let chunk = w.produce_chunk();
        assert_eq!(chunk.index, count);
        assert_eq!(chunk.data.len(), CHUNKSIZE);
        assert_eq!(chunk.data[0], [84, 31, 194, 246, 107][chunk.index as usize]);
    }
}

#[test]
fn worker_chunk_is_concatenated_blocks() {
    let seed = vec![9, 8, 7];
    let mut w = DtStreamWorker::new(&seed, 3);
    let chunk = w.produce_chunk();
    let mut h = Hasher::new(&seed, 3);
    assert_eq!(h.get_size(), 64);
    let mut expected = Vec::new();
    for _ in 0..Hasher::CHUNKFACTOR {
        expected.extend_from_slice(h.next());
    }
    assert_eq!(chunk.data, expected);
    // The serial goes after the seed, little-endian.
    let mut g = GeneratorSHA512::new(&vec![9, 8, 7, 3, 0]);
    let mut h2 = Hasher::new(&seed, 3);
    assert_eq!(g.next().to_vec(), h2.next().to_vec());
}

#[test]
fn serial_is_little_endian() {
    let seed = vec![1, 2, 3];
    let mut h = Hasher::new(&seed, 0x0102);
    let mut g = GeneratorSHA512::new(&vec![1, 2, 3, 0x02, 0x01]);
    assert_eq!(h.next().to_vec(), g.next().to_vec());
}

#[test]
fn distinct_serials_distinct_first_chunks() {
    let seed = vec![0x34, 0x32];
    let mut a = DtStreamWorker::new(&seed, 0);
    let mut b = DtStreamWorker::new(&seed, 1);
    let ca = a.produce_chunk();
    let cb = b.produce_chunk();
    assert_eq!(ca.index, 0);
    assert_eq!(cb.index, 0);
    assert_ne!(ca.data, cb.data);
}

#[test]
fn worker_decisions() {
    let w = DtStreamWorker::new(&vec![1], 0);
    assert_eq!(w.next_action(true, 0), WorkerAction::Exit);
    assert_eq!(w.next_action(true, LEVEL_THRES), WorkerAction::Exit);
    assert_eq!(w.next_action(false, LEVEL_THRES), WorkerAction::Wait);
    assert_eq!(w.next_action(false, LEVEL_THRES + 1), WorkerAction::Wait);
    assert_eq!(w.next_action(false, LEVEL_THRES - 1), WorkerAction::Produce);
    assert_eq!(w.next_action(false, 0), WorkerAction::Produce);
}

#[test]
fn backpressure_level_stays_bounded() {
    // Play the worker against a consumer that never takes a chunk.
    let mut w = DtStreamWorker::new(&vec![5], 0);
    let mut level: isize = 0;
    let mut sent = 0;
    for _ in 0..20 {
        match w.next_action(false, level) {
            WorkerAction::Produce => {
                let _c: DtStreamChunk = w.produce_chunk();
                level += 1;
                sent += 1;
            }
            WorkerAction::Wait => {}
            WorkerAction::Exit => panic!("worker exited"),
        }
        assert!(level >= 0 && level <= LEVEL_THRES + 1);
    }
    assert_eq!(sent, 8);
    assert_eq!(level, LEVEL_THRES);
}

/// Pulls `count` chunks of the aggregated stream of `n` workers, in order.
fn aggregate(seed: &Vec<u8>, n: usize, count: usize) -> Vec<DtStreamChunk> {
    let mut workers: Vec<DtStreamWorker> = (0..n).map(|s| DtStreamWorker::new(seed, s as u16)).collect();
    let mut order = RoundRobin::new(n);
    let mut out = Vec::new();
    while out.len() < count {
        let c = order.cursor();
        let chunk = workers[c].produce_chunk();
        assert!(order.advance(chunk.index));
        out.push(chunk);
    }
    out
}

#[test]
fn round_robin_order() {
    let mut r = RoundRobin::new(3);
    assert_eq!(r.num_streams(), 3);
    let mut seen = Vec::new();
    for _ in 0..7 {
        seen.push((r.cursor(), r.expected_index()));
        let idx = r.expected_index();
        assert!(r.advance(idx));
    }
    assert_eq!(seen, vec![(0, 0), (1, 0), (2, 0), (0, 1), (1, 1), (2, 1), (0, 2)]);
    // A chunk with the wrong index is refused and the cursor stays.
    assert!(!r.advance(5));
    assert_eq!(r.cursor(), 1);
    assert_eq!(r.expected_index(), 2);
}

#[test]
fn aggregate_is_interleave() {
    let seed = vec![1, 2, 3];
    let n = 2;
    let k = 2;
    let got: Vec<u8> = aggregate(&seed, n, k * n).into_iter().flat_map(|c| c.data).collect();
    let mut w0 = DtStreamWorker::new(&seed, 0);
    let mut w1 = DtStreamWorker::new(&seed, 1);
    let mut expected = Vec::new();
    for _ in 0..k {
        expected.extend(w0.produce_chunk().data);
        expected.extend(w1.produce_chunk().data);
    }
    assert_eq!(got, expected);
}

#[test]
fn worker_count_changes_stream() {
    let seed = b"42".to_vec();
    let one: Vec<u8> = aggregate(&seed, 1, 2).into_iter().flat_map(|c| c.data).collect();
    let two: Vec<u8> = aggregate(&seed, 2, 2).into_iter().flat_map(|c| c.data).collect();
    assert_eq!(one.len(), 2 * CHUNKSIZE);
    assert_eq!(two.len(), 2 * CHUNKSIZE);
    let first_diff = one.iter().zip(two.iter()).position(|(a, b)| a != b);
    assert!(first_diff.is_some());
    assert!(first_diff.unwrap() < 2 * CHUNKSIZE);
}
