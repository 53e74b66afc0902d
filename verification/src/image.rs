//! A snapshot of a slice of a target's address space: a run of bytes
//! standing at a base address. The request handler copies out of one, and
//! the heuristic scanners walk one.
//!
//! Reads are total: a read that falls outside the snapshot yields zero (for
//! a single word) or nothing (for a window), the same soft failure the
//! channel reports when a page cannot be read. Zero fails every
//! plausibility test downstream, so a missing page never counts as a hit.

use vstd::prelude::*;

verus! {

/// The 64-bit value that eight little-endian bytes spell. Kept opaque:
/// proofs above the byte level only compare these words, never re-derive
/// the arithmetic.
#[verifier::opaque]
pub open spec fn spec_le64(s: Seq<u8>) -> u64
    recommends
        s.len() == 8,
{
    (s[0] + s[1] * 0x100 + s[2] * 0x1_0000 + s[3] * 0x100_0000 + s[4] * 0x1_0000_0000
        + s[5] * 0x100_0000_0000 + s[6] * 0x1_0000_0000_0000 + s[7] * 0x100_0000_0000_0000) as u64
}

/// The eight little-endian bytes that spell a 64-bit value.
pub open spec fn spec_le_bytes(v: u64) -> Seq<u8> {
    seq![
        v as u8,
        (v >> 8) as u8,
        (v >> 16) as u8,
        (v >> 24) as u8,
        (v >> 32) as u8,
        (v >> 40) as u8,
        (v >> 48) as u8,
        (v >> 56) as u8,
    ]
}

/// Eight little-endian bytes of a value spell the value back.
pub proof fn lemma_le_round_trip(v: u64)
    ensures
        spec_le64(spec_le_bytes(v)) == v,
{
    reveal(spec_le64);
    assert((v as u8) + ((v >> 8) as u8) * 0x100 + ((v >> 16) as u8) * 0x1_0000 + ((v >> 24) as u8)
        * 0x100_0000 + ((v >> 32) as u8) * 0x1_0000_0000 + ((v >> 40) as u8) * 0x100_0000_0000 + ((
    v >> 48) as u8) * 0x1_0000_0000_0000 + ((v >> 56) as u8) * 0x100_0000_0000_0000 == v)
        by (bit_vector);
}

/// A contiguous snapshot of target memory, starting at `base`.
#[derive(Debug)]
pub struct MemImage {
    pub base: u64,
    pub bytes: Vec<u8>,
}

impl MemImage {
    /// Do `n` bytes at `addr` lie inside the snapshot?
    pub open spec fn spec_in_range(self, addr: u64, n: int) -> bool {
        &&& self.base <= addr
        &&& addr - self.base + n <= self.bytes@.len()
    }

    /// The word a read of eight bytes at `addr` yields: the snapshot's bytes
    /// little-endian when they are all there, zero otherwise.
    pub open spec fn spec_read64(self, addr: u64) -> u64 {
        if self.spec_in_range(addr, 8) {
            spec_le64(self.bytes@.subrange(addr - self.base, addr - self.base + 8))
        } else {
            0
        }
    }

    /// Read one 64-bit little-endian word at `addr`; zero when any of the
    /// eight bytes falls outside the snapshot.
    pub fn read_u64(&self, addr: u64) -> (r: u64)
        ensures
            r == self.spec_read64(addr),
    {
        if addr < self.base {
            return 0;
        }
        let off = addr - self.base;
        let n = self.bytes.len();
        if n < 8 || off > (n - 8) as u64 {
            return 0;
        }
        le64_at(&self.bytes, off as usize)
    }

    /// Read `len` bytes at `addr`: the snapshot's bytes when they are all
    /// there, nothing otherwise.
    pub fn read_window(&self, addr: u64, len: usize) -> (r: Option<Vec<u8>>)
        ensures
            self.spec_in_range(addr, len as int) ==> {
                &&& r is Some
                &&& r->Some_0@ == self.bytes@.subrange(
                    addr - self.base,
                    addr - self.base + len,
                )
            },
            !self.spec_in_range(addr, len as int) ==> r is None,
    {
        if addr < self.base {
            return None;
        }
        let off = addr - self.base;
        let n = self.bytes.len();
        if len > n || off > (n - len) as u64 {
            return None;
        }
        let start = off as usize;
        let mut out: Vec<u8> = Vec::new();
        let mut j: usize = 0;
        while j < len
            invariant
                j <= len,
                start + len <= self.bytes@.len(),
                self.bytes@.len() <= usize::MAX,
                out@ == self.bytes@.subrange(start as int, start + j),
            decreases len - j,
        {
            out.push(self.bytes[start + j]);
            assert(out@ =~= self.bytes@.subrange(start as int, start + j + 1));
            j = j + 1;
        }
        Some(out)
    }
}

/// The 64-bit little-endian word spelled by `bytes[i..i + 8]`.
pub fn le64_at(bytes: &Vec<u8>, i: usize) -> (r: u64)
    requires
        i + 8 <= bytes@.len(),
    ensures
        r == spec_le64(bytes@.subrange(i as int, i + 8)),
{
    let _n = bytes.len();
    let b0 = bytes[i];
    let b1 = bytes[i + 1];
    let b2 = bytes[i + 2];
    let b3 = bytes[i + 3];
    let b4 = bytes[i + 4];
    let b5 = bytes[i + 5];
    let b6 = bytes[i + 6];
    let b7 = bytes[i + 7];
    let r = (b0 as u64) | ((b1 as u64) << 8) | ((b2 as u64) << 16) | ((b3 as u64) << 24) | ((
    b4 as u64) << 32) | ((b5 as u64) << 40) | ((b6 as u64) << 48) | ((b7 as u64) << 56);
    proof {
        reveal(spec_le64);
        let s = bytes@.subrange(i as int, i + 8);
        assert(s[0] == b0 && s[1] == b1 && s[2] == b2 && s[3] == b3 && s[4] == b4 && s[5] == b5
            && s[6] == b6 && s[7] == b7);
        assert((b0 as u64) | ((b1 as u64) << 8) | ((b2 as u64) << 16) | ((b3 as u64) << 24) | ((
        b4 as u64) << 32) | ((b5 as u64) << 40) | ((b6 as u64) << 48) | ((b7 as u64) << 56) == (
        b0 + b1 * 0x100 + b2 * 0x1_0000 + b3 * 0x100_0000 + b4 * 0x1_0000_0000 + b5
            * 0x100_0000_0000 + b6 * 0x1_0000_0000_0000 + b7 * 0x100_0000_0000_0000) as u64)
            by (bit_vector);
    }
    r
}

/// The value the first eight bytes of a reply spell; zero when the reply is
/// shorter than a word.
pub fn u64_from_le(bytes: &Vec<u8>) -> (r: u64)
    ensures
        bytes@.len() >= 8 ==> r == spec_le64(bytes@.subrange(0, 8)),
        bytes@.len() < 8 ==> r == 0,
{
    if bytes.len() < 8 {
        return 0;
    }
    le64_at(bytes, 0)
}

} // verus!
