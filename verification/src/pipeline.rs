//! Data-level pieces of the reader/writer/verifier pipeline: shaping a read
//! buffer into a chunk, the throughput figure reported with progress events,
//! and the byte-for-byte comparison the verifier runs on each chunk pair.

use vstd::prelude::*;

verus! {

/// Mean throughput in bytes per second after `written` bytes in
/// `elapsed_ms` milliseconds, saturating at `u64::MAX`; zero when no time
/// has passed yet.
pub open spec fn speed_bps_spec(written: u64, elapsed_ms: u64) -> u64 {
    if elapsed_ms == 0 {
        0u64
    } else if (written as int) * 1000 / (elapsed_ms as int) > u64::MAX {
        u64::MAX
    } else {
        ((written as int) * 1000 / (elapsed_ms as int)) as u64
    }
}

/// Computes the throughput reported in `Progress` events.
pub fn compute_speed_bps(written: u64, elapsed_ms: u64) -> (r: u64)
    ensures
        r == speed_bps_spec(written, elapsed_ms),
{
    if elapsed_ms == 0 {
        return 0;
    }
    let q: u128 = (written as u128) * 1000 / (elapsed_ms as u128);
    if q > u64::MAX as u128 {
        u64::MAX
    } else {
        q as u64
    }
}

/// One chunk as the reader hands it to the writer: the fixed-size read buffer
/// shrunk to the bytes actually read, so the writer sees exactly the bytes
/// that came from the source.
pub fn make_chunk(buffer: Vec<u8>, read_bytes: usize) -> (c: Vec<u8>)
    requires
        read_bytes <= buffer.len(),
    ensures
        c@ == buffer@.subrange(0, read_bytes as int),
{
    let mut b = buffer;
    b.truncate(read_bytes);
    b
}

/// The verifier's acceptance condition for one chunk pair: both reads
/// returned the same number of bytes and those bytes are identical.
pub open spec fn chunk_ok(src: Seq<u8>, n1: int, dst: Seq<u8>, n2: int) -> bool {
    n1 == n2 && src.subrange(0, n1) == dst.subrange(0, n2)
}

/// Law: a single differing byte inside the compared prefixes falsifies the
/// verifier's acceptance condition, so any content difference between source
/// and destination is caught at the chunk that holds it.
pub proof fn lemma_differing_byte_fails_chunk(
    src: Seq<u8>,
    n1: int,
    dst: Seq<u8>,
    n2: int,
    k: int,
)
    requires
        0 <= k < n1,
        k < n2,
        n1 <= src.len(),
        n2 <= dst.len(),
        src[k] != dst[k],
    ensures
        !chunk_ok(src, n1, dst, n2),
{
    if n1 == n2 && src.subrange(0, n1) == dst.subrange(0, n2) {
        assert(src.subrange(0, n1)[k] == src[k]);
        assert(dst.subrange(0, n2)[k] == dst[k]);
    }
}

/// Compares the first `n1` bytes of the source buffer with the first `n2`
/// bytes of the destination buffer, as the verifier does for each chunk.
pub fn chunks_match(src: &Vec<u8>, n1: usize, dst: &Vec<u8>, n2: usize) -> (r: bool)
    requires
        n1 <= src.len(),
        n2 <= dst.len(),
    ensures
        r == chunk_ok(src@, n1 as int, dst@, n2 as int),
{
    if n1 != n2 {
        return false;
    }
    let mut i: usize = 0;
    while i < n1
        invariant
            i <= n1 == n2,
            n1 <= src.len(),
            n2 <= dst.len(),
            forall|k: int| 0 <= k < i ==> src@[k] == dst@[k],
        decreases n1 - i,
    {
        if src[i] != dst[i] {
            proof {
                let k = i as int;
                assert(src@.subrange(0, n1 as int)[k] != dst@.subrange(0, n2 as int)[k]);
            }
            return false;
        }
        i += 1;
    }
    proof {
        assert(src@.subrange(0, n1 as int) =~= dst@.subrange(0, n2 as int));
    }
    true
}

} // verus!
