//! A sequential reader over a byte buffer: fixed-width big-endian integers
//! and raw byte skips, each failing when fewer bytes remain than requested.

use vstd::prelude::*;

verus! {

/// The one failure a decode can meet: a read or skip asked for more bytes
/// than the buffer still holds, or the section's declared length cannot
/// cover what its own flags demand.
#[derive(Debug, Clone, Copy, PartialEq, Eq, Structural)]
pub enum PsdLayerError {
    TruncatedOrMalformedSection,
}

/// The value of four big-endian bytes of `s` starting at `i`, as an
/// unsigned integer in `[0, 2^32)`.
pub open spec fn be_u32_at(s: Seq<u8>, i: int) -> int {
    (s[i] as int) * 0x100_0000 + (s[i + 1] as int) * 0x1_0000 + (s[i + 2] as int) * 0x100 + (s[i
        + 3] as int)
}

/// The value of four big-endian bytes of `s` starting at `i`, read as a
/// two's-complement signed integer in `[-2^31, 2^31)`.
pub open spec fn be_i32_at(s: Seq<u8>, i: int) -> int {
    if be_u32_at(s, i) >= 0x8000_0000 {
        be_u32_at(s, i) - 0x1_0000_0000
    } else {
        be_u32_at(s, i)
    }
}

/// The value of eight big-endian bytes of `s` starting at `i`, as an
/// unsigned integer in `[0, 2^64)`.
pub open spec fn be_u64_at(s: Seq<u8>, i: int) -> int {
    (s[i] as int) * 0x100_0000_0000_0000 + (s[i + 1] as int) * 0x1_0000_0000_0000 + (s[i
        + 2] as int) * 0x100_0000_0000 + (s[i + 3] as int) * 0x1_0000_0000 + (s[i + 4] as int)
        * 0x100_0000 + (s[i + 5] as int) * 0x1_0000 + (s[i + 6] as int) * 0x100 + (s[i + 7] as int)
}

/// Sequential reader over an owned byte buffer. All reads are relative to
/// an internal position that only moves forward.
pub struct PsdCursor {
    bytes: Vec<u8>,
    position: usize,
}

impl PsdCursor {
    /// The position never runs past the end of the buffer.
    pub closed spec fn wf(self) -> bool {
        self.position <= self.bytes@.len()
    }

    /// The bytes not yet consumed, in order.
    pub closed spec fn remaining(self) -> Seq<u8> {
        self.bytes@.skip(self.position as int)
    }

    /// A cursor positioned at the start of `bytes`.
    pub fn new(bytes: Vec<u8>) -> (c: PsdCursor)
        ensures
            c.wf(),
            c.remaining() == bytes@,
    {
        let c = PsdCursor { bytes, position: 0 };
        proof {
            assert(c.remaining() =~= c.bytes@);
        }
        c
    }

    /// Reads one byte, or fails if none remain.
    pub fn read_u8(&mut self) -> (r: Result<u8, PsdLayerError>)
        requires
            old(self).wf(),
        ensures
            final(self).wf(),
            old(self).remaining().len() >= 1 ==> {
                &&& r == Ok::<u8, PsdLayerError>(old(self).remaining()[0])
                &&& final(self).remaining() == old(self).remaining().skip(1)
            },
            old(self).remaining().len() < 1 ==> r is Err && *final(self) == *old(self),
            r is Err ==> r == Err::<u8, PsdLayerError>(PsdLayerError::TruncatedOrMalformedSection),
    {
        if self.position < self.bytes.len() {
            let b = self.bytes[self.position];
            self.position = self.position + 1;
            proof {
                assert(self.remaining() =~= old(self).remaining().skip(1));
            }
            Ok(b)
        } else {
            Err(PsdLayerError::TruncatedOrMalformedSection)
        }
    }

    /// Reads a big-endian unsigned 32-bit integer, or fails if fewer than
    /// four bytes remain.
    pub fn read_u32(&mut self) -> (r: Result<u32, PsdLayerError>)
        requires
            old(self).wf(),
        ensures
            final(self).wf(),
            old(self).remaining().len() >= 4 ==> {
                &&& r matches Ok(v) && v == be_u32_at(old(self).remaining(), 0)
                &&& final(self).remaining() == old(self).remaining().skip(4)
            },
            old(self).remaining().len() < 4 ==> r is Err && *final(self) == *old(self),
            r is Err ==> r == Err::<u32, PsdLayerError>(PsdLayerError::TruncatedOrMalformedSection),
    {
        if self.bytes.len() - self.position < 4 {
            return Err(PsdLayerError::TruncatedOrMalformedSection);
        }
        let b0 = self.bytes[self.position];
        let b1 = self.bytes[self.position + 1];
        let b2 = self.bytes[self.position + 2];
        let b3 = self.bytes[self.position + 3];
        self.position = self.position + 4;
        let v = (b0 as u32) * 0x100_0000 + (b1 as u32) * 0x1_0000 + (b2 as u32) * 0x100 + (
        b3 as u32);
        proof {
            assert(self.remaining() =~= old(self).remaining().skip(4));
        }
        Ok(v)
    }

    /// Reads a big-endian two's-complement signed 32-bit integer, or fails
    /// if fewer than four bytes remain.
    pub fn read_i32(&mut self) -> (r: Result<i32, PsdLayerError>)
        requires
            old(self).wf(),
        ensures
            final(self).wf(),
            old(self).remaining().len() >= 4 ==> {
                &&& r matches Ok(v) && v == be_i32_at(old(self).remaining(), 0)
                &&& final(self).remaining() == old(self).remaining().skip(4)
            },
            old(self).remaining().len() < 4 ==> r is Err && *final(self) == *old(self),
            r is Err ==> r == Err::<i32, PsdLayerError>(PsdLayerError::TruncatedOrMalformedSection),
    {
        let u = match self.read_u32() {
            Ok(u) => u,
            Err(e) => {
                return Err(e);
            },
        };
        let v: i32 = if u < 0x8000_0000 {
            u as i32
        } else {
            ((u as i64) - 0x1_0000_0000i64) as i32
        };
        Ok(v)
    }

    /// Reads eight big-endian bytes as an unsigned 64-bit integer, or fails
    /// if fewer than eight bytes remain. A 64-bit floating-point field is
    /// read through this as its raw bit pattern.
    pub fn read_u64(&mut self) -> (r: Result<u64, PsdLayerError>)
        requires
            old(self).wf(),
        ensures
            final(self).wf(),
            old(self).remaining().len() >= 8 ==> {
                &&& r matches Ok(v) && v == be_u64_at(old(self).remaining(), 0)
                &&& final(self).remaining() == old(self).remaining().skip(8)
            },
            old(self).remaining().len() < 8 ==> r is Err && *final(self) == *old(self),
            r is Err ==> r == Err::<u64, PsdLayerError>(PsdLayerError::TruncatedOrMalformedSection),
    {
        if self.bytes.len() - self.position < 8 {
            return Err(PsdLayerError::TruncatedOrMalformedSection);
        }
        let b0 = self.bytes[self.position];
        let b1 = self.bytes[self.position + 1];
        let b2 = self.bytes[self.position + 2];
        let b3 = self.bytes[self.position + 3];
        let b4 = self.bytes[self.position + 4];
        let b5 = self.bytes[self.position + 5];
        let b6 = self.bytes[self.position + 6];
        let b7 = self.bytes[self.position + 7];
        self.position = self.position + 8;
        let v = (b0 as u64) * 0x100_0000_0000_0000 + (b1 as u64) * 0x1_0000_0000_0000 + (b2 as u64)
            * 0x100_0000_0000 + (b3 as u64) * 0x1_0000_0000 + (b4 as u64) * 0x100_0000 + (b5 as u64)
            * 0x1_0000 + (b6 as u64) * 0x100 + (b7 as u64);
        proof {
            assert(self.remaining() =~= old(self).remaining().skip(8));
        }
        Ok(v)
    }

    /// Skips `n` bytes without interpreting them, or fails if fewer than
    /// `n` bytes remain.
    pub fn read(&mut self, n: u32) -> (r: Result<(), PsdLayerError>)
        requires
            old(self).wf(),
        ensures
            final(self).wf(),
            old(self).remaining().len() >= n ==> {
                &&& r is Ok
                &&& final(self).remaining() == old(self).remaining().skip(n as int)
            },
            old(self).remaining().len() < n ==> r is Err && *final(self) == *old(self),
            r is Err ==> r == Err::<(), PsdLayerError>(PsdLayerError::TruncatedOrMalformedSection),
    {
        if self.bytes.len() - self.position >= n as usize {
            self.position = self.position + n as usize;
            proof {
                assert(self.remaining() =~= old(self).remaining().skip(n as int));
            }
            Ok(())
        } else {
            Err(PsdLayerError::TruncatedOrMalformedSection)
        }
    }
}

} // verus!
