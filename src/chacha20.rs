use vstd::prelude::*;

verus! {

/// `len` bytes of the ChaCha20 keystream of a 32-byte key with an all-zero
/// nonce, starting at 32-bit word `word_pos` of the stream.
pub uninterp spec fn chacha20_keystream(key: Seq<u8>, word_pos: int, len: int) -> Seq<u8>;

/// Relies on rand_chacha::ChaCha20Rng (`SeedableRng::from_seed`, `set_word_pos`,
/// `RngCore::fill_bytes`): `len` keystream bytes of `key`, from word `word_pos` on.
#[verifier::external_body]
fn chacha20_fill(key: &Vec<u8>, word_pos: u128, len: usize) -> (r: Vec<u8>)
    requires
        key@.len() == 32,
    ensures
        r@ == chacha20_keystream(key@, word_pos as int, len as int),
        r@.len() == len,
{
    let mut seed = [0u8; 32];
    seed.copy_from_slice(key.as_slice());
    let mut rng = <rand_chacha::ChaCha20Rng as rand::SeedableRng>::from_seed(seed);
    rng.set_word_pos(word_pos);
    let mut buf = vec![0u8; len];
    rand::RngCore::fill_bytes(&mut rng, buf.as_mut_slice());
    buf
}

/// Length of a ChaCha20 key, in bytes.
pub const CHACHA20_KEYSIZE: usize = 32;

/// The key made from a seed: its first 32 bytes, zero-padded on the right.
pub open spec fn chacha20_key(seed: Seq<u8>) -> Seq<u8> {
    Seq::new(CHACHA20_KEYSIZE as nat, |i: int| if i < seed.len() { seed[i] } else { 0u8 })
}

/// Block `n` (from 0) of the ChaCha20 generator for `seed`: the `n`-th run of
/// `OUTSIZE` bytes of the keystream.
pub open spec fn chacha20_block(seed: Seq<u8>, n: nat) -> Seq<u8> {
    chacha20_keystream(
        chacha20_key(seed),
        n * (GeneratorChaCha20::OUTSIZE as int / 4),
        GeneratorChaCha20::OUTSIZE as int,
    )
}

/// The ChaCha20 keystream generator.
pub struct GeneratorChaCha20 {
    key: Vec<u8>,
    count: u64,
    buf: Vec<u8>,
}

impl GeneratorChaCha20 {
    /// Size of the output data.
    pub const OUTSIZE: usize = 102400;
    /// Chunk size. Multiple of the generator output size.
    pub const CHUNKFACTOR: usize = 64;

    /// The key that the keystream is computed from.
    pub closed spec fn key_view(&self) -> Seq<u8> {
        self.key@
    }

    /// Number of blocks produced so far.
    pub closed spec fn blocks(&self) -> nat {
        self.count as nat
    }

    /// Whether one more block can be counted without the counter overflowing.
    pub open spec fn can_advance(&self) -> bool {
        self.blocks() < u64::MAX
    }

    pub closed spec fn wf(&self) -> bool {
        self.key@.len() == CHACHA20_KEYSIZE
    }

    pub fn new(seed: &Vec<u8>) -> (g: GeneratorChaCha20)
        requires
            seed@.len() > 0,
        ensures
            g.wf(),
            g.key_view() == chacha20_key(seed@),
            g.blocks() == 0,
            g.can_advance(),
    {
        let mut key: Vec<u8> = Vec::new();
        let mut i: usize = 0;
        while i < CHACHA20_KEYSIZE
            invariant
                i <= CHACHA20_KEYSIZE,
                key@ == chacha20_key(seed@).subrange(0, i as int),
            decreases CHACHA20_KEYSIZE - i,
        {
            let b: u8 = if i < seed.len() { seed[i] } else { 0u8 };
            key.push(b);
            i = i + 1;
            assert(key@ =~= chacha20_key(seed@).subrange(0, i as int));
        }
        assert(key@ =~= chacha20_key(seed@));
        GeneratorChaCha20 { key, count: 0, buf: Vec::new() }
    }

    pub fn get_size(&self) -> (r: usize)
        ensures
            r == Self::OUTSIZE,
    {
        Self::OUTSIZE
    }

    /// Fills the buffer with the next block of the keystream.
    pub fn next(&mut self) -> (r: &[u8])
        requires
            old(self).wf(),
            old(self).can_advance(),
        ensures
            final(self).wf(),
            final(self).key_view() == old(self).key_view(),
            final(self).blocks() == old(self).blocks() + 1,
            r@ == chacha20_keystream(
                old(self).key_view(),
                old(self).blocks() * (Self::OUTSIZE as int / 4),
                Self::OUTSIZE as int,
            ),
            r@.len() == Self::OUTSIZE,
    {
        let c: u128 = self.count as u128;
        assert(c * 25600 <= 0xffff_ffff_ffff_ffffu128 * 25600) by (nonlinear_arith)
            requires
                c <= 0xffff_ffff_ffff_ffffu128,
        ;
        let word_pos: u128 = c * 25600;
        self.buf = chacha20_fill(&self.key, word_pos, Self::OUTSIZE);
        self.count = self.count + 1;
        self.buf.as_slice()
    }
}

} // verus!
