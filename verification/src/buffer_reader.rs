//! A bounds-checked read cursor over a byte buffer.
//!
//! Reads succeed only if enough bytes remain; on success the cursor advances
//! by exactly the bytes consumed, on failure it does not move at all, so a
//! failed parse step leaves `bytes_remaining` unchanged and partial records
//! are never partially consumed. Truncated input is reported as `None`,
//! never as a panic or an out-of-bounds access.

use vstd::prelude::*;
use vstd::slice::slice_subrange;
use crate::wire::{u16_from_le, u16_from_be, u32_from_le, u64_from_le, u128_from_le};

verus! {

#[derive(Clone, Copy)]
pub struct BufferReader<'a> {
    buf: &'a [u8],
    pos: usize,
}

impl<'a> BufferReader<'a> {
    /// The cursor never points past the end of the buffer.
    pub open spec fn wf(&self) -> bool {
        0 <= self.pos_spec() <= self.bytes().len()
    }

    /// The whole underlying buffer.
    pub closed spec fn bytes(&self) -> Seq<u8> {
        self.buf@
    }

    /// The cursor position.
    pub closed spec fn pos_spec(&self) -> int {
        self.pos as int
    }

    /// The bytes not yet consumed.
    pub open spec fn remaining_spec(&self) -> Seq<u8> {
        self.bytes().subrange(self.pos_spec(), self.bytes().len() as int)
    }

    pub fn new(buf: &'a [u8]) -> (r: Self)
        ensures
            r.wf(),
            r.bytes() == buf@,
            r.pos_spec() == 0,
    {
        BufferReader { buf, pos: 0 }
    }

    pub fn bytes_remaining(&self) -> (n: usize)
        requires
            self.wf(),
        ensures
            n == self.remaining_spec().len(),
    {
        self.buf.len() - self.pos
    }

    /// Reads the first remaining byte without consuming it.
    pub fn peek_u8(&self) -> (r: Option<u8>)
        requires
            self.wf(),
        ensures
            match r {
                Some(b) => self.remaining_spec().len() >= 1 && b == self.remaining_spec()[0],
                None => self.remaining_spec().len() == 0,
            },
    {
        if self.pos < self.buf.len() {
            Some(self.buf[self.pos])
        } else {
            None
        }
    }

    pub fn read_u8(&mut self) -> (r: Option<u8>)
        requires
            old(self).wf(),
        ensures
            final(self).wf(),
            final(self).bytes() == old(self).bytes(),
            match r {
                Some(b) => old(self).remaining_spec().len() >= 1
                    && b == old(self).remaining_spec()[0]
                    && final(self).pos_spec() == old(self).pos_spec() + 1,
                None => old(self).remaining_spec().len() == 0
                    && final(self).pos_spec() == old(self).pos_spec(),
            },
    {
        if self.pos < self.buf.len() {
            let b = self.buf[self.pos];
            self.pos = self.pos + 1;
            Some(b)
        } else {
            None
        }
    }

    /// Consumes `n` bytes and returns them as a slice of the original buffer.
    pub fn read_bytes(&mut self, n: usize) -> (r: Option<&'a [u8]>)
        requires
            old(self).wf(),
        ensures
            final(self).wf(),
            final(self).bytes() == old(self).bytes(),
            match r {
                Some(s) => old(self).remaining_spec().len() >= n
                    && s@ == old(self).remaining_spec().subrange(0, n as int)
                    && s@.len() == n
                    && final(self).pos_spec() == old(self).pos_spec() + n,
                None => old(self).remaining_spec().len() < n
                    && final(self).pos_spec() == old(self).pos_spec(),
            },
    {
        if n <= self.buf.len() - self.pos {
            let s = slice_subrange(self.buf, self.pos, self.pos + n);
            self.pos = self.pos + n;
            assert(s@ =~= old(self).remaining_spec().subrange(0, n as int));
            Some(s)
        } else {
            None
        }
    }

    /// Consumes the rest of the buffer.
    pub fn read_rest(&mut self) -> (r: &'a [u8])
        requires
            old(self).wf(),
        ensures
            final(self).wf(),
            final(self).bytes() == old(self).bytes(),
            r@ == old(self).remaining_spec(),
            final(self).remaining_spec().len() == 0,
    {
        let s = slice_subrange(self.buf, self.pos, self.buf.len());
        self.pos = self.buf.len();
        assert(s@ =~= old(self).remaining_spec());
        s
    }

    /// Reads a 16-bit little-endian integer, aligned or not.
    pub fn read_u16_le(&mut self) -> (r: Option<u16>)
        requires
            old(self).wf(),
        ensures
            final(self).wf(),
            final(self).bytes() == old(self).bytes(),
            match r {
                Some(x) => old(self).remaining_spec().len() >= 2
                    && x == u16_from_le(
                        old(self).remaining_spec()[0],
                        old(self).remaining_spec()[1],
                    )
                    && final(self).pos_spec() == old(self).pos_spec() + 2,
                None => old(self).remaining_spec().len() < 2
                    && final(self).pos_spec() == old(self).pos_spec(),
            },
    {
        if 2 <= self.buf.len() - self.pos {
            let b0 = self.buf[self.pos];
            let b1 = self.buf[self.pos + 1];
            self.pos = self.pos + 2;
            Some((b0 as u16) | ((b1 as u16) << 8u16))
        } else {
            None
        }
    }

    /// Reads a 16-bit big-endian integer, aligned or not.
    pub fn read_u16_be(&mut self) -> (r: Option<u16>)
        requires
            old(self).wf(),
        ensures
            final(self).wf(),
            final(self).bytes() == old(self).bytes(),
            match r {
                Some(x) => old(self).remaining_spec().len() >= 2
                    && x == u16_from_be(
                        old(self).remaining_spec()[0],
                        old(self).remaining_spec()[1],
                    )
                    && final(self).pos_spec() == old(self).pos_spec() + 2,
                None => old(self).remaining_spec().len() < 2
                    && final(self).pos_spec() == old(self).pos_spec(),
            },
    {
        if 2 <= self.buf.len() - self.pos {
            let b0 = self.buf[self.pos];
            let b1 = self.buf[self.pos + 1];
            self.pos = self.pos + 2;
            Some(((b0 as u16) << 8u16) | (b1 as u16))
        } else {
            None
        }
    }

    /// Reads a 32-bit little-endian integer, aligned or not.
    pub fn read_u32_le(&mut self) -> (r: Option<u32>)
        requires
            old(self).wf(),
        ensures
            final(self).wf(),
            final(self).bytes() == old(self).bytes(),
            match r {
                Some(x) => old(self).remaining_spec().len() >= 4
                    && x == u32_from_le(
                        old(self).remaining_spec()[0],
                        old(self).remaining_spec()[1],
                        old(self).remaining_spec()[2],
                        old(self).remaining_spec()[3],
                    )
                    && final(self).pos_spec() == old(self).pos_spec() + 4,
                None => old(self).remaining_spec().len() < 4
                    && final(self).pos_spec() == old(self).pos_spec(),
            },
    {
        if 4 <= self.buf.len() - self.pos {
            let b0 = self.buf[self.pos];
            let b1 = self.buf[self.pos + 1];
            let b2 = self.buf[self.pos + 2];
            let b3 = self.buf[self.pos + 3];
            self.pos = self.pos + 4;
            Some(
                (b0 as u32) | ((b1 as u32) << 8u32) | ((b2 as u32) << 16u32)
                    | ((b3 as u32) << 24u32),
            )
        } else {
            None
        }
    }

    /// Reads a 64-bit little-endian integer, aligned or not.
    pub fn read_u64_le(&mut self) -> (r: Option<u64>)
        requires
            old(self).wf(),
        ensures
            final(self).wf(),
            final(self).bytes() == old(self).bytes(),
            match r {
                Some(x) => old(self).remaining_spec().len() >= 8
                    && x == u64_from_le(old(self).remaining_spec().subrange(0, 8))
                    && final(self).pos_spec() == old(self).pos_spec() + 8,
                None => old(self).remaining_spec().len() < 8
                    && final(self).pos_spec() == old(self).pos_spec(),
            },
    {
        if 8 <= self.buf.len() - self.pos {
            let b0 = self.buf[self.pos];
            let b1 = self.buf[self.pos + 1];
            let b2 = self.buf[self.pos + 2];
            let b3 = self.buf[self.pos + 3];
            let b4 = self.buf[self.pos + 4];
            let b5 = self.buf[self.pos + 5];
            let b6 = self.buf[self.pos + 6];
            let b7 = self.buf[self.pos + 7];
            self.pos = self.pos + 8;
            Some(
                (b0 as u64) | ((b1 as u64) << 8u64) | ((b2 as u64) << 16u64)
                    | ((b3 as u64) << 24u64) | ((b4 as u64) << 32u64) | ((b5 as u64) << 40u64)
                    | ((b6 as u64) << 48u64) | ((b7 as u64) << 56u64),
            )
        } else {
            None
        }
    }

    /// Reads a 128-bit little-endian integer, aligned or not.
    pub fn read_u128_le(&mut self) -> (r: Option<u128>)
        requires
            old(self).wf(),
        ensures
            final(self).wf(),
            final(self).bytes() == old(self).bytes(),
            match r {
                Some(x) => old(self).remaining_spec().len() >= 16
                    && x == u128_from_le(old(self).remaining_spec().subrange(0, 16))
                    && final(self).pos_spec() == old(self).pos_spec() + 16,
                None => old(self).remaining_spec().len() < 16
                    && final(self).pos_spec() == old(self).pos_spec(),
            },
    {
        if 16 <= self.buf.len() - self.pos {
            let len = self.buf.len();
            let mut x: u128 = 0;
            let mut i: usize = 0;
            let ghost w = self.remaining_spec().subrange(0, 16);
            while i < 16
                invariant
                    i <= 16,
                    self.wf(),
                    self.pos + 16 <= len,
                    len == self.buf@.len(),
                    16 <= self.buf@.len() - self.pos,
                    w == self.remaining_spec().subrange(0, 16),
                    x == partial_u128_from_le(w, i as int),
                decreases 16 - i,
            {
                let b = self.buf[self.pos + i];
                assert(b == w[i as int]);
                x = x | ((b as u128) << ((8 * i) as u128));
                i = i + 1;
            }
            assert(x == u128_from_le(w)) by {
                lemma_partial_u128_complete(w);
            }
            self.pos = self.pos + 16;
            Some(x)
        } else {
            None
        }
    }
}

/// The value of the first `k` little-endian bytes of a 16-byte window.
pub open spec fn partial_u128_from_le(b: Seq<u8>, k: int) -> u128
    decreases k,
{
    if k <= 0 {
        0
    } else {
        partial_u128_from_le(b, k - 1) | ((b[k - 1] as u128) << ((8 * (k - 1)) as u128))
    }
}

proof fn lemma_partial_u128_complete(b: Seq<u8>)
    ensures
        partial_u128_from_le(b, 16) == u128_from_le(b),
{
    reveal_with_fuel(partial_u128_from_le, 17);
    let x0 = b[0] as u128;
    assert(0u128 | (x0 << 0) == x0) by (bit_vector);
}

} // verus!
