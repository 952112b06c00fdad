use vstd::prelude::*;
use crate::bytes::{le_bytes, push_le_bytes};

verus! {

/// The SHA-512 digest of a byte string.
pub uninterp spec fn sha512_of(data: Seq<u8>) -> Seq<u8>;

/// Relies on crypto::sha2::Sha512 (`new`, `Digest::input`, `Digest::result`):
/// the SHA-512 digest of `data`, which is 512 bits long.
#[verifier::external_body]
fn sha512_digest(data: &Vec<u8>) -> (r: Vec<u8>)
    ensures
        r@ == sha512_of(data@),
        r@.len() == 64,
{
    let mut alg = crypto::sha2::Sha512::new();
    crypto::digest::Digest::input(&mut alg, data.as_slice());
    let mut out = vec![0u8; 64];
    crypto::digest::Digest::result(&mut alg, out.as_mut_slice());
    out
}

/// Size of a SHA-512 digest, in bytes.
pub const SHA512_SIZE: usize = 64;

/// Number of bytes of the previous digest that go into the next hash input.
pub const SHA512_PREVSIZE: usize = 32;

/// The chaining bytes that enter block `n`: zeros for the first block,
/// then the leading bytes of the block before.
pub open spec fn sha512_chain_prev(seed: Seq<u8>, n: nat) -> Seq<u8> {
    if n == 0 {
        Seq::new(SHA512_PREVSIZE as nat, |_i: int| 0u8)
    } else {
        sha512_chain_block(seed, (n - 1) as nat).subrange(0, SHA512_PREVSIZE as int)
    }
}

/// Block `n` (from 0) of the SHA-512 chain of `seed`: the digest of the seed,
/// the chaining bytes and the block counter `n` as 8 little-endian bytes.
pub open spec fn sha512_chain_block(seed: Seq<u8>, n: nat) -> Seq<u8>
    decreases n,
{
    let prev = if n == 0 {
        Seq::new(SHA512_PREVSIZE as nat, |_i: int| 0u8)
    } else {
        sha512_chain_block(seed, (n - 1) as nat).subrange(0, SHA512_PREVSIZE as int)
    };
    sha512_of(seed + prev + le_bytes(n, 8))
}

/// The SHA-512 chain generator: each block is the digest of the seed, half
/// of the previous block and a running counter.
pub struct GeneratorSHA512 {
    seed: Vec<u8>,
    count: u64,
    prev: Vec<u8>,
    out: Vec<u8>,
}

impl GeneratorSHA512 {
    /// Size of the output data.
    pub const OUTSIZE: usize = SHA512_SIZE;
    /// Chunk size. Multiple of the generator output size.
    pub const CHUNKFACTOR: usize = 10240;

    /// The seed that the chain is computed from.
    pub closed spec fn seed_view(&self) -> Seq<u8> {
        self.seed@
    }

    /// Number of blocks produced so far.
    pub closed spec fn blocks(&self) -> nat {
        self.count as nat
    }

    pub closed spec fn wf(&self) -> bool {
        &&& self.prev@ == sha512_chain_prev(self.seed@, self.count as nat)
        &&& self.prev@.len() == SHA512_PREVSIZE
        &&& self.count > 0 ==> self.out@ == sha512_chain_block(self.seed@, (self.count - 1) as nat)
    }

    /// Whether one more block can be counted without the counter overflowing.
    pub open spec fn can_advance(&self) -> bool {
        self.blocks() < u64::MAX
    }

    pub fn new(seed: &Vec<u8>) -> (g: GeneratorSHA512)
        ensures
            g.wf(),
            g.seed_view() == seed@,
            g.blocks() == 0,
            g.can_advance(),
    {
        let mut prev: Vec<u8> = Vec::new();
        let mut i: usize = 0;
        while i < SHA512_PREVSIZE
            invariant
                i <= SHA512_PREVSIZE,
                prev@ == Seq::new(i as nat, |_i: int| 0u8),
            decreases SHA512_PREVSIZE - i,
        {
            prev.push(0u8);
            i = i + 1;
            assert(prev@ =~= Seq::new(i as nat, |_i: int| 0u8));
        }
        GeneratorSHA512 { seed: seed.clone(), count: 0, prev, out: Vec::new() }
    }

    pub fn get_size(&self) -> (r: usize)
        ensures
            r == Self::OUTSIZE,
    {
        Self::OUTSIZE
    }

    /// Computes the next block of the chain.
    pub fn next(&mut self) -> (r: &[u8])
        requires
            old(self).wf(),
            old(self).can_advance(),
        ensures
            final(self).wf(),
            final(self).seed_view() == old(self).seed_view(),
            final(self).blocks() == old(self).blocks() + 1,
            r@ == sha512_chain_block(old(self).seed_view(), old(self).blocks()),
            r@.len() == Self::OUTSIZE,
    {
        let ghost n = self.count as nat;
        let mut input: Vec<u8> = self.seed.clone();
        let mut i: usize = 0;
        while i < SHA512_PREVSIZE
            invariant
                i <= SHA512_PREVSIZE,
                self.prev@.len() == SHA512_PREVSIZE,
                input@ == self.seed@ + self.prev@.subrange(0, i as int),
            decreases SHA512_PREVSIZE - i,
        {
            input.push(self.prev[i]);
            assert(self.prev@.subrange(0, i + 1) =~= self.prev@.subrange(0, i as int).push(self.prev@[i as int]));
            i = i + 1;
        }
        assert(self.prev@.subrange(0, SHA512_PREVSIZE as int) =~= self.prev@);
        push_le_bytes(&mut input, self.count, 8);
        self.count = self.count + 1;
        let digest = sha512_digest(&input);
        let mut prev: Vec<u8> = Vec::new();
        let mut j: usize = 0;
        while j < SHA512_PREVSIZE
            invariant
                j <= SHA512_PREVSIZE,
                digest@.len() == 64,
                prev@ == digest@.subrange(0, j as int),
            decreases SHA512_PREVSIZE - j,
        {
            prev.push(digest[j]);
            assert(digest@.subrange(0, j + 1) =~= digest@.subrange(0, j as int).push(digest@[j as int]));
            j = j + 1;
        }
        self.prev = prev;
        self.out = digest;
        self.out.as_slice()
    }
}

} // verus!
