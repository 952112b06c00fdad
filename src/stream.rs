use vstd::prelude::*;
use crate::bytes::append_bytes;
use crate::hasher::{Hasher, hasher_block};

verus! {

/// Size of one stream chunk, in bytes: `Hasher::OUTSIZE * Hasher::CHUNKFACTOR`.
pub const CHUNKSIZE: usize = 655360;

/// Backpressure high-water mark: a worker pauses while this many of its
/// chunks are in flight.
pub const LEVEL_THRES: isize = 8;

/// The concatenation of `count` blocks of worker `serial`, from block `start` on.
pub open spec fn blocks_concat(seed: Seq<u8>, serial: nat, start: nat, count: nat) -> Seq<u8>
    decreases count,
{
    if count == 0 {
        Seq::empty()
    } else {
        blocks_concat(seed, serial, start, (count - 1) as nat)
            + hasher_block(seed, serial, (start + count - 1) as nat)
    }
}

/// The payload of chunk `k` (from 0) of worker `serial`.
pub open spec fn chunk_data(seed: Seq<u8>, serial: nat, k: nat) -> Seq<u8> {
    blocks_concat(seed, serial, k * Hasher::CHUNKFACTOR as nat, Hasher::CHUNKFACTOR as nat)
}

/// A chunk of a worker's stream, tagged with its position in that stream.
pub struct DtStreamChunk {
    pub index: u64,
    pub data: Vec<u8>,
}

/// What a worker does next.
#[derive(PartialEq, Eq, Structural, Debug, Clone, Copy)]
pub enum WorkerAction {
    /// Stop the worker.
    Exit,
    /// Too many chunks are in flight: wait for the consumer, then decide again.
    Wait,
    /// Produce the next chunk and hand it to the consumer.
    Produce,
}

/// The step a worker takes, given the abort flag, the number of its chunks in
/// flight and whether it can still produce a chunk.
pub open spec fn worker_action(abort: bool, level: int, can_produce: bool) -> WorkerAction {
    if abort {
        WorkerAction::Exit
    } else if level >= LEVEL_THRES {
        WorkerAction::Wait
    } else if can_produce {
        WorkerAction::Produce
    } else {
        WorkerAction::Exit
    }
}

/// A change of a stream's backpressure level.
pub enum LevelEvent {
    /// The worker handed a chunk to the consumer.
    Sent,
    /// The consumer took a chunk.
    Received,
}

/// The backpressure level after an event.
pub open spec fn level_after(level: int, e: LevelEvent) -> int {
    match e {
        LevelEvent::Sent => level + 1,
        LevelEvent::Received => level - 1,
    }
}

/// Whether an event can happen at a level: the worker sends only after it
/// decided to produce, and the consumer takes only a chunk in flight.
pub open spec fn level_event_allowed(level: int, e: LevelEvent, can_produce: bool) -> bool {
    match e {
        LevelEvent::Sent => worker_action(false, level, can_produce) == WorkerAction::Produce,
        LevelEvent::Received => level > 0,
    }
}

/// The backpressure level of a stream stays within `0 ..= LEVEL_THRES + 1`
/// through every event that can happen.
pub proof fn lemma_level_bounded(level: int, e: LevelEvent, can_produce: bool)
    requires
        0 <= level <= LEVEL_THRES + 1,
        level_event_allowed(level, e, can_produce),
    ensures
        0 <= level_after(level, e) <= LEVEL_THRES + 1,
{
}

/// The deciding part of a stream worker: it owns the worker's generator and
/// the index of the next chunk.
pub struct DtStreamWorker {
    hasher: Hasher,
    index: u64,
}

impl DtStreamWorker {
    pub closed spec fn seed_view(&self) -> Seq<u8> {
        self.hasher.seed_view()
    }

    pub closed spec fn serial_view(&self) -> nat {
        self.hasher.serial_view()
    }

    /// Index of the chunk that comes next.
    pub closed spec fn next_index(&self) -> nat {
        self.index as nat
    }

    pub closed spec fn wf(&self) -> bool {
        &&& self.hasher.wf()
        &&& self.hasher.blocks() == self.index as nat * Hasher::CHUNKFACTOR as nat
    }

    /// Whether one more chunk can be produced without a counter overflowing.
    pub open spec fn can_produce(&self) -> bool {
        (self.next_index() + 1) * Hasher::CHUNKFACTOR < u64::MAX - 1
    }

    pub fn new(seed: &Vec<u8>, serial: u16) -> (w: DtStreamWorker)
        ensures
            w.wf(),
            w.seed_view() == seed@,
            w.serial_view() == serial as nat,
            w.next_index() == 0,
    {
        DtStreamWorker { hasher: Hasher::new(seed, serial), index: 0 }
    }

    /// Decides the worker's next step from the abort flag and the number of
    /// chunks in flight.
    pub fn next_action(&self, abort: bool, level: isize) -> (a: WorkerAction)
        ensures
            a == worker_action(abort, level as int, self.can_produce()),
    {
        assert(((self.index as int) + 1) * 10240 < u64::MAX - 1 <==> self.index < 1801439850948198)
            by (nonlinear_arith);
        if abort {
            WorkerAction::Exit
        } else if level >= LEVEL_THRES {
            WorkerAction::Wait
        } else if self.index < 1801439850948198 {
            WorkerAction::Produce
        } else {
            WorkerAction::Exit
        }
    }

    /// Produces the next chunk: `CHUNKFACTOR` consecutive blocks of the
    /// worker's generator, tagged with the next index.
    pub fn produce_chunk(&mut self) -> (c: DtStreamChunk)
        requires
            old(self).wf(),
            old(self).can_produce(),
        ensures
            final(self).wf(),
            final(self).seed_view() == old(self).seed_view(),
            final(self).serial_view() == old(self).serial_view(),
            final(self).next_index() == old(self).next_index() + 1,
            c.index == old(self).next_index(),
            c.data@ == chunk_data(old(self).seed_view(), old(self).serial_view(), c.index as nat),
            c.data@.len() == CHUNKSIZE,
    {
        let ghost seed = self.seed_view();
        let ghost serial = self.serial_view();
        let ghost start: nat = self.index as nat * Hasher::CHUNKFACTOR as nat;
        assert(start + 10240 == (self.index as int + 1) * 10240) by (nonlinear_arith)
            requires
                start == self.index as nat * 10240,
        ;
        let mut data: Vec<u8> = Vec::with_capacity(CHUNKSIZE);
        let mut j: usize = 0;
        while j < Hasher::CHUNKFACTOR
            invariant
                j <= Hasher::CHUNKFACTOR,
                self.hasher.wf(),
                self.hasher.seed_view() == seed,
                self.hasher.serial_view() == serial,
                self.hasher.blocks() == start + j,
                self.index == old(self).index,
                start == self.index as nat * 10240,
                (self.index as int + 1) * 10240 < u64::MAX - 1,
                start + Hasher::CHUNKFACTOR < u64::MAX - 1,
                data@ == blocks_concat(seed, serial, start, j as nat),
                data@.len() == j * Hasher::OUTSIZE,
            decreases Hasher::CHUNKFACTOR - j,
        {
            let block = self.hasher.next();
            append_bytes(&mut data, block);
            j = j + 1;
        }
        assert(self.index < 1801439850948198) by (nonlinear_arith)
            requires
                (self.index as int + 1) * 10240 < u64::MAX - 1,
        ;
        let c = DtStreamChunk { index: self.index, data };
        self.index = self.index + 1;
        c
    }
}

} // verus!
