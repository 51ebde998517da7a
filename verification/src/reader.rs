//! A seekable byte-buffer reader: validates nothing itself, but hands out
//! length-prefixed blobs and the remaining payload with exact contracts.

use vstd::prelude::*;
use crate::errors::NcmError;

verus! {

/// The little-endian 32-bit value held at position `p` of `d`.
pub open spec fn le32_at(d: Seq<u8>, p: int) -> int
    recommends
        0 <= p,
        p + 4 <= d.len(),
{
    (d[p] as int) + 256 * (d[p + 1] as int) + 65536 * (d[p + 2] as int) + 16777216 * (d[p
        + 3] as int)
}

/// A cursor over the full input buffer.
pub struct Reader {
    pub data: Vec<u8>,
    pub pos: usize,
}

impl Reader {
    pub fn new(data: Vec<u8>) -> (r: Reader)
        ensures
            r.data == data,
            r.pos == 0,
    {
        Reader { data, pos: 0 }
    }

    /// Reads exactly `n` bytes, advancing the cursor; fails with `Truncated`
    /// and leaves the cursor in place when fewer remain.
    pub fn read_bytes(&mut self, n: usize) -> (r: Result<Vec<u8>, NcmError>)
        ensures
            final(self).data == old(self).data,
            match r {
                Ok(v) => old(self).pos + n <= old(self).data@.len() && final(self).pos == old(
                    self,
                ).pos + n && v@ == old(self).data@.subrange(
                    old(self).pos as int,
                    old(self).pos + n,
                ),
                Err(e) => e == NcmError::Truncated && old(self).pos + n > old(self).data@.len()
                    && final(self).pos == old(self).pos,
            },
    {
        let len: usize = self.data.len();
        if self.pos > len || n > len - self.pos {
            return Err(NcmError::Truncated);
        }
        let mut v: Vec<u8> = Vec::new();
        let mut k: usize = 0;
        while k < n
            invariant
                k <= n,
                len == self.data@.len(),
                self.pos + n <= len,
                self.data == old(self).data,
                self.pos == old(self).pos,
                v@ == self.data@.subrange(self.pos as int, self.pos + k),
            decreases n - k,
        {
            v.push(self.data[self.pos + k]);
            k += 1;
            assert(v@ =~= self.data@.subrange(self.pos as int, self.pos + k));
        }
        self.pos = self.pos + n;
        Ok(v)
    }

    /// Reads a 4-byte little-endian length field.
    pub fn read_le_u32(&mut self) -> (r: Result<u32, NcmError>)
        ensures
            final(self).data == old(self).data,
            match r {
                Ok(x) => old(self).pos + 4 <= old(self).data@.len() && final(self).pos == old(
                    self,
                ).pos + 4 && x as int == le32_at(old(self).data@, old(self).pos as int),
                Err(e) => e == NcmError::Truncated && old(self).pos + 4 > old(self).data@.len()
                    && final(self).pos == old(self).pos,
            },
    {
        let b = self.read_bytes(4)?;
        let x: u32 = (b[0] as u32) + 256 * (b[1] as u32) + 65536 * (b[2] as u32) + 16777216 * (
        b[3] as u32);
        Ok(x)
    }

    /// Moves the cursor by the signed offset `n`: afterwards it stands
    /// exactly at the old position plus `n`, possibly past the end of the
    /// buffer (only a later read fails there). A move below the start, or
    /// one past the machine's address limit, fails and leaves the reader
    /// unchanged.
    pub fn skip(&mut self, n: i64) -> (r: Result<(), NcmError>)
        ensures
            final(self).data == old(self).data,
            match r {
                Ok(_) => 0 <= old(self).pos + n <= usize::MAX && final(self).pos == old(self).pos
                    + n,
                Err(e) => e == NcmError::Truncated && (old(self).pos + n < 0 || old(self).pos + n
                    > usize::MAX) && *final(self) == *old(self),
            },
    {
        if n >= 0 {
            let add: u64 = n as u64;
            if add > (usize::MAX - self.pos) as u64 {
                return Err(NcmError::Truncated);
            }
            self.pos = self.pos + (add as usize);
            Ok(())
        } else {
            let back: u64 = ((-(n + 1)) as u64) + 1;
            if back > self.pos as u64 {
                return Err(NcmError::Truncated);
            }
            self.pos = self.pos - (back as usize);
            Ok(())
        }
    }

    /// Everything from the cursor to the end of the buffer.
    pub fn remaining(&self) -> (r: Vec<u8>)
        requires
            self.pos <= self.data@.len(),
        ensures
            r@ == self.data@.subrange(self.pos as int, self.data@.len() as int),
    {
        let mut v: Vec<u8> = Vec::new();
        let mut k: usize = self.pos;
        while k < self.data.len()
            invariant
                self.pos <= k <= self.data@.len(),
                v@ == self.data@.subrange(self.pos as int, k as int),
            decreases self.data@.len() - k,
        {
            v.push(self.data[k]);
            k += 1;
            assert(v@ =~= self.data@.subrange(self.pos as int, k as int));
        }
        v
    }
}

/// A fresh copy of a byte vector.
pub fn clone_bytes(v: &Vec<u8>) -> (r: Vec<u8>)
    ensures
        r@ == v@,
{
    let mut out: Vec<u8> = Vec::new();
    let mut k: usize = 0;
    while k < v.len()
        invariant
            k <= v@.len(),
            out@ == v@.subrange(0, k as int),
        decreases v@.len() - k,
    {
        out.push(v[k]);
        k += 1;
        assert(out@ =~= v@.subrange(0, k as int));
    }
    assert(out@ =~= v@);
    out
}

/// The suffix of a byte vector from `start` on.
pub fn tail_from(v: &Vec<u8>, start: usize) -> (r: Vec<u8>)
    requires
        start <= v@.len(),
    ensures
        r@ == v@.subrange(start as int, v@.len() as int),
{
    let mut out: Vec<u8> = Vec::new();
    let mut k: usize = start;
    while k < v.len()
        invariant
            start <= k <= v@.len(),
            out@ == v@.subrange(start as int, k as int),
        decreases v@.len() - k,
    {
        out.push(v[k]);
        k += 1;
        assert(out@ =~= v@.subrange(start as int, k as int));
    }
    out
}

} // verus!
