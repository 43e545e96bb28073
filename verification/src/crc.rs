//! The 32-bit cyclic redundancy check used to guard every chunk.
//!
//! The stream stores, after each chunk's payload, the standard CRC-32
//! (reflected form, polynomial 0xEDB88320) of the 4 tag bytes followed by
//! the payload bytes.  The specification functions here define that value
//! bit by bit, and the executable functions are proved to compute it.

use vstd::prelude::*;

verus! {

/// One shift round: shift right, folding the polynomial in when the low
/// bit is set.
pub open spec fn crc_shift(x: u32) -> u32 {
    if x & 1 == 1 {
        (x >> 1) ^ 0xEDB88320u32
    } else {
        x >> 1
    }
}

/// `n` shift rounds applied to `x`.
pub open spec fn crc_shifts(x: u32, n: nat) -> u32
    decreases n,
{
    if n == 0 {
        x
    } else {
        crc_shifts(crc_shift(x), (n - 1) as nat)
    }
}

/// Folds one byte into a running checksum: mix the byte into the low bits,
/// then run eight shift rounds.
pub open spec fn crc_byte(c: u32, b: u8) -> u32 {
    crc_shifts(c ^ (b as u32), 8)
}

/// Folds a whole byte sequence into a running checksum, first byte first.
pub open spec fn crc_fold(c: u32, s: Seq<u8>) -> u32
    decreases s.len(),
{
    if s.len() == 0 {
        c
    } else {
        crc_fold(crc_byte(c, s[0]), s.drop_first())
    }
}

/// The checksum stored after a chunk: CRC-32 over the tag bytes followed by
/// the payload bytes, with the standard all-ones initial value and final
/// complement.
pub open spec fn spec_chunk_crc(tag: Seq<u8>, payload: Seq<u8>) -> u32 {
    crc_fold(crc_fold(0xFFFFFFFFu32, tag), payload) ^ 0xFFFFFFFFu32
}

/// Folds the bytes of `s` into the running checksum `c`.
pub fn crc_update(c: u32, s: &Vec<u8>) -> (r: u32)
    ensures
        r == crc_fold(c, s@),
{
    let mut acc: u32 = c;
    let mut i: usize = 0;
    proof {
        assert(s@.skip(0) =~= s@);
    }
    while i < s.len()
        invariant
            i <= s@.len(),
            crc_fold(c, s@) == crc_fold(acc, s@.skip(i as int)),
        decreases s@.len() - i,
    {
        proof {
            assert(s@.skip(i as int)[0] == s@[i as int]);
            assert(s@.skip(i as int).drop_first() =~= s@.skip(i as int + 1));
        }
        let mut x: u32 = acc ^ (s[i] as u32);
        let mut k: usize = 0;
        proof {
            assert(crc_shifts(acc ^ (s@[i as int] as u32), 0) == acc ^ (s@[i as int] as u32));
        }
        while k < 8
            invariant
                k <= 8,
                x == crc_shifts(acc ^ (s@[i as int] as u32), k as nat),
            decreases 8 - k,
        {
            proof {
                assert(crc_shifts(acc ^ (s@[i as int] as u32), (k + 1) as nat) == crc_shift(
                    crc_shifts(acc ^ (s@[i as int] as u32), k as nat),
                )) by {
                    lemma_crc_shifts_snoc(acc ^ (s@[i as int] as u32), k as nat);
                };
            }
            x = if x & 1 == 1 {
                (x >> 1) ^ 0xEDB88320u32
            } else {
                x >> 1
            };
            k += 1;
        }
        acc = x;
        i += 1;
    }
    proof {
        assert(s@.skip(s@.len() as int) =~= Seq::<u8>::empty());
        assert(crc_fold(acc, Seq::<u8>::empty()) == acc);
    }
    acc
}

/// Running the shift rounds one more time is the same as one shift round
/// after the first `n`.
proof fn lemma_crc_shifts_snoc(x: u32, n: nat)
    ensures
        crc_shifts(x, n + 1) == crc_shift(crc_shifts(x, n)),
    decreases n,
{
    assert(crc_shifts(x, n + 1) == crc_shifts(crc_shift(x), n));
    if n == 0 {
        assert(crc_shifts(crc_shift(x), 0) == crc_shift(x));
        assert(crc_shifts(x, 0) == x);
    } else {
        lemma_crc_shifts_snoc(crc_shift(x), (n - 1) as nat);
        assert(crc_shifts(x, n) == crc_shifts(crc_shift(x), (n - 1) as nat));
    }
}

/// The checksum that belongs to a chunk with the given tag and payload.
/// Callers that build streams (tests among them) use this to stamp chunks.
pub fn chunk_crc(tag: &Vec<u8>, payload: &Vec<u8>) -> (r: u32)
    ensures
        r == spec_chunk_crc(tag@, payload@),
{
    let after_tag = crc_update(0xFFFFFFFFu32, tag);
    let after_payload = crc_update(after_tag, payload);
    after_payload ^ 0xFFFFFFFFu32
}

} // verus!
