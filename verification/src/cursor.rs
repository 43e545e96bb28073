//! Sequential, bounds-checked reader over an immutable byte sequence.
//!
//! The cursor owns the bytes and a monotonically non-decreasing position.
//! Every read either advances the position by exactly the requested count
//! or fails with `UnexpectedEndOfInput` without advancing.

use crate::error::DecodeError;
use vstd::prelude::*;

verus! {

/// The big-endian value of the two bytes of `s` starting at `i`.
pub open spec fn be16(s: Seq<u8>, i: int) -> u16
    recommends
        0 <= i,
        i + 2 <= s.len(),
{
    ((s[i] as int) * 0x100 + (s[i + 1] as int)) as u16
}

/// The big-endian value of the four bytes of `s` starting at `i`.
pub open spec fn be32(s: Seq<u8>, i: int) -> u32
    recommends
        0 <= i,
        i + 4 <= s.len(),
{
    ((s[i] as int) * 0x1000000 + (s[i + 1] as int) * 0x10000 + (s[i + 2] as int) * 0x100 + (s[i
        + 3] as int)) as u32
}

/// Reads the 2-byte big-endian integer stored in `v` at offset `i`.
pub fn be16_at(v: &Vec<u8>, i: usize) -> (r: u16)
    requires
        i + 2 <= v@.len(),
    ensures
        r == be16(v@, i as int),
{
    let _n: usize = v.len();
    (v[i] as u16) * 0x100 + (v[i + 1] as u16)
}

/// Reads the 4-byte big-endian integer stored in `v` at offset `i`.
pub fn be32_at(v: &Vec<u8>, i: usize) -> (r: u32)
    requires
        i + 4 <= v@.len(),
    ensures
        r == be32(v@, i as int),
{
    let _n: usize = v.len();
    (v[i] as u32) * 0x1000000 + (v[i + 1] as u32) * 0x10000 + (v[i + 2] as u32) * 0x100 + (v[i
        + 3] as u32)
}

/// Bounds-checked sequential reader; the one source of bytes for every
/// decoder in this crate.
pub struct Cursor {
    bytes: Vec<u8>,
    pos: usize,
}

impl Cursor {
    /// The whole underlying byte sequence (it never changes after
    /// construction).
    pub closed spec fn data(&self) -> Seq<u8> {
        self.bytes@
    }

    /// The current read position.
    pub closed spec fn position(&self) -> int {
        self.pos as int
    }

    /// Well-formedness: the position never passes the end of the data.
    pub open spec fn wf(&self) -> bool {
        0 <= self.position() <= self.data().len()
    }

    /// The number of bytes not yet consumed.
    pub open spec fn remaining(&self) -> int {
        self.data().len() - self.position()
    }

    pub fn new(bytes: Vec<u8>) -> (c: Cursor)
        ensures
            c.wf(),
            c.data() == bytes@,
            c.position() == 0,
    {
        Cursor { bytes, pos: 0 }
    }

    pub fn current_position(&self) -> (p: usize)
        ensures
            p as int == self.position(),
    {
        self.pos
    }

    /// Reads the next `k` bytes and advances by `k`; fails without advancing
    /// when fewer than `k` bytes remain.  No partial read ever happens.
    pub fn read_n(&mut self, k: usize) -> (r: Result<Vec<u8>, DecodeError>)
        requires
            old(self).wf(),
        ensures
            final(self).wf(),
            final(self).data() == old(self).data(),
            match r {
                Ok(v) => {
                    &&& old(self).position() + k <= old(self).data().len()
                    &&& v@ == old(self).data().subrange(
                        old(self).position(),
                        old(self).position() + k,
                    )
                    &&& final(self).position() == old(self).position() + k
                },
                Err(e) => {
                    &&& e == DecodeError::UnexpectedEndOfInput
                    &&& old(self).position() + k > old(self).data().len()
                    &&& final(self).position() == old(self).position()
                },
            },
    {
        if k > self.bytes.len() - self.pos {
            return Err(DecodeError::UnexpectedEndOfInput);
        }
        let mut v: Vec<u8> = Vec::new();
        let mut i: usize = 0;
        while i < k
            invariant
                self.wf(),
                self.pos + k <= self.bytes.len(),
                i <= k,
                v@ == self.bytes@.subrange(self.pos as int, self.pos + i),
            decreases k - i,
        {
            v.push(self.bytes[self.pos + i]);
            i += 1;
            proof {
                assert(v@ =~= self.bytes@.subrange(self.pos as int, self.pos + i));
            }
        }
        self.pos = self.pos + k;
        Ok(v)
    }

    /// Reads one byte.
    pub fn read_u8(&mut self) -> (r: Result<u8, DecodeError>)
        requires
            old(self).wf(),
        ensures
            final(self).wf(),
            final(self).data() == old(self).data(),
            match r {
                Ok(b) => {
                    &&& old(self).position() + 1 <= old(self).data().len()
                    &&& b == old(self).data()[old(self).position()]
                    &&& final(self).position() == old(self).position() + 1
                },
                Err(e) => {
                    &&& e == DecodeError::UnexpectedEndOfInput
                    &&& old(self).position() + 1 > old(self).data().len()
                    &&& final(self).position() == old(self).position()
                },
            },
    {
        if self.pos < self.bytes.len() {
            let b = self.bytes[self.pos];
            self.pos = self.pos + 1;
            Ok(b)
        } else {
            Err(DecodeError::UnexpectedEndOfInput)
        }
    }

    /// Reads a 2-byte big-endian integer.
    pub fn read_u16(&mut self) -> (r: Result<u16, DecodeError>)
        requires
            old(self).wf(),
        ensures
            final(self).wf(),
            final(self).data() == old(self).data(),
            match r {
                Ok(x) => {
                    &&& old(self).position() + 2 <= old(self).data().len()
                    &&& x == be16(old(self).data(), old(self).position())
                    &&& final(self).position() == old(self).position() + 2
                },
                Err(e) => {
                    &&& e == DecodeError::UnexpectedEndOfInput
                    &&& old(self).position() + 2 > old(self).data().len()
                    &&& final(self).position() == old(self).position()
                },
            },
    {
        if self.bytes.len() - self.pos >= 2 {
            let b0 = self.bytes[self.pos];
            let b1 = self.bytes[self.pos + 1];
            self.pos = self.pos + 2;
            Ok((b0 as u16) * 0x100 + (b1 as u16))
        } else {
            Err(DecodeError::UnexpectedEndOfInput)
        }
    }

    /// Reads a 4-byte big-endian integer.
    pub fn read_u32(&mut self) -> (r: Result<u32, DecodeError>)
        requires
            old(self).wf(),
        ensures
            final(self).wf(),
            final(self).data() == old(self).data(),
            match r {
                Ok(x) => {
                    &&& old(self).position() + 4 <= old(self).data().len()
                    &&& x == be32(old(self).data(), old(self).position())
                    &&& final(self).position() == old(self).position() + 4
                },
                Err(e) => {
                    &&& e == DecodeError::UnexpectedEndOfInput
                    &&& old(self).position() + 4 > old(self).data().len()
                    &&& final(self).position() == old(self).position()
                },
            },
    {
        if self.bytes.len() - self.pos >= 4 {
            let b0 = self.bytes[self.pos];
            let b1 = self.bytes[self.pos + 1];
            let b2 = self.bytes[self.pos + 2];
            let b3 = self.bytes[self.pos + 3];
            self.pos = self.pos + 4;
            Ok((b0 as u32) * 0x1000000 + (b1 as u32) * 0x10000 + (b2 as u32) * 0x100 + (b3 as u32))
        } else {
            Err(DecodeError::UnexpectedEndOfInput)
        }
    }

    /// Copies out the bytes between two already-visited positions, so that a
    /// caller can recompute a checksum over a payload it has consumed.
    pub fn copy_range(&self, start: usize, end: usize) -> (v: Vec<u8>)
        requires
            self.wf(),
            start <= end,
            end as int <= self.data().len(),
        ensures
            v@ == self.data().subrange(start as int, end as int),
    {
        let mut v: Vec<u8> = Vec::new();
        let mut i: usize = start;
        while i < end
            invariant
                start <= i <= end,
                end <= self.bytes.len(),
                v@ == self.bytes@.subrange(start as int, i as int),
            decreases end - i,
        {
            v.push(self.bytes[i]);
            i += 1;
            proof {
                assert(v@ =~= self.bytes@.subrange(start as int, i as int));
            }
        }
        v
    }
}

} // verus!
