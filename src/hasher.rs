use vstd::prelude::*;
use crate::bytes::{le_bytes, push_le_bytes};
use crate::sha512::{GeneratorSHA512, sha512_chain_block};

verus! {

/// The seed of worker `serial`: the user seed followed by the serial as
/// two little-endian bytes.
pub open spec fn worker_seed(seed: Seq<u8>, serial: nat) -> Seq<u8> {
    seed + le_bytes(serial, 2)
}

/// Distinct serials give distinct worker seeds, so the hash inputs of two
/// workers on the same user seed differ from the first block on.
pub proof fn lemma_distinct_serials(seed: Seq<u8>, a: nat, b: nat)
    requires
        a < 65536,
        b < 65536,
        a != b,
    ensures
        worker_seed(seed, a) != worker_seed(seed, b),
{
    let sa = le_bytes(a, 2);
    let sb = le_bytes(b, 2);
    assert(le_bytes(a / 256, 1) == seq![((a / 256) % 256) as u8] + le_bytes(a / 256 / 256, 0));
    assert(le_bytes(b / 256, 1) == seq![((b / 256) % 256) as u8] + le_bytes(b / 256 / 256, 0));
    assert(sa[0] == (a % 256) as u8 && sa[1] == ((a / 256) % 256) as u8);
    assert(sb[0] == (b % 256) as u8 && sb[1] == ((b / 256) % 256) as u8);
    if worker_seed(seed, a) == worker_seed(seed, b) {
        assert(worker_seed(seed, a).subrange(seed.len() as int, seed.len() + 2int) =~= sa);
        assert(worker_seed(seed, b).subrange(seed.len() as int, seed.len() + 2int) =~= sb);
        assert(a == 256 * (a / 256) + a % 256);
        assert(b == 256 * (b / 256) + b % 256);
        assert(false);
    }
}

/// Block `n` of the generator of worker `serial`.
pub open spec fn hasher_block(seed: Seq<u8>, serial: nat, n: nat) -> Seq<u8> {
    sha512_chain_block(worker_seed(seed, serial), n)
}

/// A per-worker generator: a SHA-512 chain over the seed with the worker's
/// serial appended.
pub struct Hasher {
    generator: GeneratorSHA512,
    seed: Ghost<Seq<u8>>,
    serial: Ghost<nat>,
}

impl Hasher {
    /// Size of one generated block.
    pub const OUTSIZE: usize = 64;
    /// Number of blocks that make one stream chunk.
    pub const CHUNKFACTOR: usize = 10240;

    pub closed spec fn seed_view(&self) -> Seq<u8> {
        self.seed@
    }

    pub closed spec fn serial_view(&self) -> nat {
        self.serial@
    }

    /// Number of blocks produced so far.
    pub closed spec fn blocks(&self) -> nat {
        self.generator.blocks()
    }

    pub closed spec fn wf(&self) -> bool {
        &&& self.generator.wf()
        &&& self.generator.seed_view() == worker_seed(self.seed@, self.serial@)
    }

    /// Whether `k` more blocks can be produced without the counter overflowing.
    pub open spec fn can_produce(&self, k: nat) -> bool {
        self.blocks() + k < u64::MAX - 1
    }

    pub fn new(seed: &Vec<u8>, serial: u16) -> (h: Hasher)
        ensures
            h.wf(),
            h.seed_view() == seed@,
            h.serial_view() == serial as nat,
            h.blocks() == 0,
    {
        let mut s: Vec<u8> = seed.clone();
        push_le_bytes(&mut s, serial as u64, 2);
        let generator = GeneratorSHA512::new(&s);
        Hasher { generator, seed: Ghost(seed@), serial: Ghost(serial as nat) }
    }

    pub fn get_size(&self) -> (r: usize)
        ensures
            r == Self::OUTSIZE,
    {
        Self::OUTSIZE
    }

    /// The next block of this worker's stream.
    pub fn next(&mut self) -> (r: &[u8])
        requires
            old(self).wf(),
            old(self).can_produce(1),
        ensures
            final(self).wf(),
            final(self).seed_view() == old(self).seed_view(),
            final(self).serial_view() == old(self).serial_view(),
            final(self).blocks() == old(self).blocks() + 1,
            r@ == hasher_block(old(self).seed_view(), old(self).serial_view(), old(self).blocks()),
            r@.len() == Self::OUTSIZE,
    {
        self.generator.next()
    }
}

} // verus!
