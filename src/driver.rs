use vstd::prelude::*;

verus! {

/// Whether `a` and `b` hold the same bytes at every position below `n`.
pub open spec fn agree_upto(a: Seq<u8>, b: Seq<u8>, n: int) -> bool {
    forall|i: int| 0 <= i < n ==> a[i] == b[i]
}

/// Compares bytes read back from the device at byte offset `offset` with the
/// expected chunk. On the first difference it returns the absolute offset of
/// that byte.
pub fn verify_chunk(expected: &[u8], read: &[u8], offset: u64) -> (r: Result<(), u64>)
    requires
        read@.len() <= expected@.len(),
        offset + read@.len() <= u64::MAX,
    ensures
        r is Ok <==> agree_upto(expected@, read@, read@.len() as int),
        r matches Err(o) ==> {
            &&& offset <= o < offset + read@.len()
            &&& expected@[o - offset] != read@[o - offset]
            &&& agree_upto(expected@, read@, o - offset)
        },
{
    let mut i: usize = 0;
    while i < read.len()
        invariant
            i <= read@.len(),
            read@.len() <= expected@.len(),
            offset + read@.len() <= u64::MAX,
            agree_upto(expected@, read@, i as int),
        decreases read@.len() - i,
    {
        if expected[i] != read[i] {
            return Err(offset + i as u64);
        }
        i = i + 1;
    }
    Ok(())
}

/// Number of bytes of a chunk of `chunk_len` bytes to write when `remaining`
/// bytes are still to be written.
pub fn write_len(remaining: u64, chunk_len: usize) -> (r: usize)
    ensures
        r as int == if remaining < chunk_len { remaining as int } else { chunk_len as int },
{
    if remaining < chunk_len as u64 {
        remaining as usize
    } else {
        chunk_len
    }
}

} // verus!
