use vstd::prelude::*;
use vstd::arithmetic::div_mod::lemma_fundamental_div_mod_converse;
use crate::driver::agree_upto;
use crate::stream::chunk_data;

verus! {

/// Chunk `i` (from 0) of the aggregated stream of `n` workers: chunk `i / n`
/// of worker `i % n`.
pub open spec fn global_chunk(seed: Seq<u8>, n: nat, i: nat) -> Seq<u8> {
    chunk_data(seed, i % n, i / n)
}

/// The first `count` chunks of the aggregated stream, concatenated.
pub open spec fn global_concat(seed: Seq<u8>, n: nat, count: nat) -> Seq<u8>
    decreases count,
{
    if count == 0 {
        Seq::empty()
    } else {
        global_concat(seed, n, (count - 1) as nat) + global_chunk(seed, n, (count - 1) as nat)
    }
}

/// Chunk `k` of workers `0 .. w`, concatenated in serial order.
pub open spec fn round_concat(seed: Seq<u8>, k: nat, w: nat) -> Seq<u8>
    decreases w,
{
    if w == 0 {
        Seq::empty()
    } else {
        round_concat(seed, k, (w - 1) as nat) + chunk_data(seed, (w - 1) as nat, k)
    }
}

/// Chunks `0 .. rounds` of all `n` workers: worker 0's chunk 0, worker 1's
/// chunk 0, ..., worker `n - 1`'s chunk 0, worker 0's chunk 1, and so on.
pub open spec fn interleave(seed: Seq<u8>, n: nat, rounds: nat) -> Seq<u8>
    decreases rounds,
{
    if rounds == 0 {
        Seq::empty()
    } else {
        interleave(seed, n, (rounds - 1) as nat) + round_concat(seed, (rounds - 1) as nat, n)
    }
}

proof fn lemma_partial_round(seed: Seq<u8>, n: nat, k: nat, w: nat)
    requires
        n >= 1,
        w <= n,
    ensures
        global_concat(seed, n, k * n + w) == interleave(seed, n, k) + round_concat(seed, k, w),
    decreases k, w,
{
    if w == 0 {
        if k > 0 {
            lemma_partial_round(seed, n, (k - 1) as nat, n);
            assert((k - 1) * n + n == k * n) by (nonlinear_arith);
        }
        assert(interleave(seed, n, k) + Seq::<u8>::empty() =~= interleave(seed, n, k));
        if k == 0 {
            assert(k * n == 0);
        }
    } else {
        let i: nat = k * n + (w - 1) as nat;
        lemma_partial_round(seed, n, k, (w - 1) as nat);
        lemma_fundamental_div_mod_converse(i as int, n as int, k as int, (w - 1) as int);
        assert(global_chunk(seed, n, i) == chunk_data(seed, (w - 1) as nat, k));
        assert(k * n + w == i + 1);
        assert(global_concat(seed, n, i + 1) == global_concat(seed, n, i) + global_chunk(seed, n, i));
        assert(
            (interleave(seed, n, k) + round_concat(seed, k, (w - 1) as nat)) + chunk_data(seed, (w - 1) as nat, k)
            =~= interleave(seed, n, k) + round_concat(seed, k, w)
        );
    }
}

/// The aggregated stream is the round-robin interleave of the workers'
/// streams: its first `k * n` chunks are worker 0's chunk 0 up to worker
/// `n - 1`'s chunk 0, then worker 0's chunk 1, and so on, up to chunk `k - 1`.
pub proof fn lemma_aggregate_order(seed: Seq<u8>, n: nat, k: nat)
    requires
        n >= 1,
    ensures
        global_concat(seed, n, k * n) == interleave(seed, n, k),
{
    lemma_partial_round(seed, n, k, 0);
    assert(interleave(seed, n, k) + round_concat(seed, k, 0) =~= interleave(seed, n, k));
}

/// Verifying with the seed and worker count that were used for writing finds
/// no mismatch: the expected bytes depend on those parameters alone, so what a
/// write put on the device agrees at every byte with what a verify expects.
pub proof fn lemma_same_parameters_verify(seed: Seq<u8>, n: nat, count: nat, written: Seq<u8>)
    requires
        n >= 1,
        written == global_concat(seed, n, count),
    ensures
        agree_upto(global_concat(seed, n, count), written, written.len() as int),
{
}

/// Where the streams of `a` and `b > a` workers part: their first `a` chunks
/// are the same worker chunks, and chunk `a` is worker 0's second chunk under
/// `a` workers but worker `a`'s first chunk under `b` workers.
pub proof fn lemma_worker_counts_part(seed: Seq<u8>, a: nat, b: nat)
    requires
        1 <= a < b,
    ensures
        forall|i: nat| i < a ==> #[trigger] global_chunk(seed, a, i) == global_chunk(seed, b, i),
        global_chunk(seed, a, a) == chunk_data(seed, 0, 1),
        global_chunk(seed, b, a) == chunk_data(seed, a, 0),
{
    assert forall|i: nat| i < a implies #[trigger] global_chunk(seed, a, i) == global_chunk(seed, b, i) by {
        lemma_fundamental_div_mod_converse(i as int, a as int, 0, i as int);
        lemma_fundamental_div_mod_converse(i as int, b as int, 0, i as int);
    }
    lemma_fundamental_div_mod_converse(a as int, a as int, 1, 0);
    lemma_fundamental_div_mod_converse(a as int, b as int, 0, a as int);
}

/// The round-robin order in which an aggregator takes chunks from its streams.
pub struct RoundRobin {
    num_streams: usize,
    count: u64,
}

impl RoundRobin {
    pub closed spec fn num_view(&self) -> nat {
        self.num_streams as nat
    }

    /// Number of chunks delivered so far.
    pub closed spec fn delivered(&self) -> nat {
        self.count as nat
    }

    pub closed spec fn wf(&self) -> bool {
        self.num_streams >= 1
    }

    pub fn new(num_streams: usize) -> (r: RoundRobin)
        requires
            num_streams >= 1,
        ensures
            r.wf(),
            r.num_view() == num_streams,
            r.delivered() == 0,
    {
        RoundRobin { num_streams, count: 0 }
    }

    pub fn num_streams(&self) -> (r: usize)
        ensures
            r == self.num_view(),
    {
        self.num_streams
    }

    /// Number of chunks delivered so far.
    pub fn delivered_count(&self) -> (r: u64)
        ensures
            r == self.delivered(),
    {
        self.count
    }

    /// The stream whose chunk comes next.
    pub fn cursor(&self) -> (r: usize)
        requires
            self.wf(),
        ensures
            r == self.delivered() % self.num_view(),
            r < self.num_view(),
    {
        (self.count % (self.num_streams as u64)) as usize
    }

    /// The index, within its stream, of the chunk that comes next.
    pub fn expected_index(&self) -> (r: u64)
        requires
            self.wf(),
        ensures
            r == self.delivered() / self.num_view(),
    {
        self.count / (self.num_streams as u64)
    }

    /// Takes note of a chunk with the given index received from the current
    /// stream. The chunk is accepted, and the cursor moves on, exactly when
    /// its index is the one the order expects.
    pub fn advance(&mut self, index: u64) -> (ok: bool)
        requires
            old(self).wf(),
            old(self).delivered() < u64::MAX,
        ensures
            final(self).wf(),
            final(self).num_view() == old(self).num_view(),
            ok == (index == old(self).delivered() / old(self).num_view()),
            ok ==> final(self).delivered() == old(self).delivered() + 1,
            !ok ==> final(self).delivered() == old(self).delivered(),
    {
        if index == self.count / (self.num_streams as u64) {
            self.count = self.count + 1;
            true
        } else {
            false
        }
    }
}

/// A chunk that the round-robin order accepts from its current stream, made
/// by the worker with that stream's serial, is the next chunk of the
/// aggregated stream.
pub proof fn lemma_accepted_chunk_is_next(seed: Seq<u8>, n: nat, delivered: nat, serial: nat, index: nat, data: Seq<u8>)
    requires
        n >= 1,
        serial == delivered % n,
        index == delivered / n,
        data == chunk_data(seed, serial, index),
    ensures
        data == global_chunk(seed, n, delivered),
        global_concat(seed, n, delivered + 1) == global_concat(seed, n, delivered) + data,
{
}

} // verus!
