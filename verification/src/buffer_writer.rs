//! An append-only writer over a buffer of fixed capacity.
//!
//! The writer models the caller-owned scratch memory handed out by the
//! buffer gateway: it has a capacity fixed at construction, every append
//! requires the bytes to fit, and the frame is finally truncated to the
//! bytes actually written.

use vstd::prelude::*;
use crate::wire::{u16_le_bytes, u16_be_bytes, u32_le_bytes, u64_le_bytes, u128_le_bytes, u128_byte};

verus! {

pub struct BufferWriter {
    bytes: Vec<u8>,
    cap: usize,
}

impl BufferWriter {
    /// The bytes written so far never exceed the capacity, which is a
    /// machine-representable size.
    pub open spec fn wf(&self) -> bool {
        self.written().len() <= self.cap_spec() <= usize::MAX
    }

    /// The bytes written so far.
    pub closed spec fn written(&self) -> Seq<u8> {
        self.bytes@
    }

    /// The capacity fixed at construction.
    pub closed spec fn cap_spec(&self) -> int {
        self.cap as int
    }

    pub fn new(cap: usize) -> (r: Self)
        ensures
            r.wf(),
            r.written() == Seq::<u8>::empty(),
            r.cap_spec() == cap,
    {
        let r = BufferWriter { bytes: Vec::new(), cap };
        assert(r.bytes@ =~= Seq::<u8>::empty());
        r
    }

    pub fn bytes_written(&self) -> (n: usize)
        ensures
            n == self.written().len(),
    {
        self.bytes.len()
    }

    pub fn remaining_cap(&self) -> (n: usize)
        requires
            self.wf(),
        ensures
            n == self.cap_spec() - self.written().len(),
    {
        self.cap - self.bytes.len()
    }

    /// Hands back the written bytes, truncated to what was actually written.
    pub fn into_vec(self) -> (r: Vec<u8>)
        ensures
            r@ == self.written(),
    {
        self.bytes
    }

    pub fn append_u8(&mut self, b: u8)
        requires
            old(self).wf(),
            old(self).written().len() + 1 <= old(self).cap_spec(),
        ensures
            final(self).wf(),
            final(self).cap_spec() == old(self).cap_spec(),
            final(self).written() == old(self).written().push(b),
    {
        self.bytes.push(b);
    }

    pub fn append_bytes(&mut self, b: &[u8])
        requires
            old(self).wf(),
            old(self).written().len() + b@.len() <= old(self).cap_spec(),
        ensures
            final(self).wf(),
            final(self).cap_spec() == old(self).cap_spec(),
            final(self).written() == old(self).written() + b@,
    {
        self.bytes.extend_from_slice(b);
    }

    pub fn append_u16_le(&mut self, x: u16)
        requires
            old(self).wf(),
            old(self).written().len() + 2 <= old(self).cap_spec(),
        ensures
            final(self).wf(),
            final(self).cap_spec() == old(self).cap_spec(),
            final(self).written() == old(self).written() + u16_le_bytes(x),
    {
        self.bytes.push((x & 0xff) as u8);
        self.bytes.push(((x >> 8u16) & 0xff) as u8);
        assert(self.bytes@ =~= old(self).bytes@ + u16_le_bytes(x));
    }

    pub fn append_u16_be(&mut self, x: u16)
        requires
            old(self).wf(),
            old(self).written().len() + 2 <= old(self).cap_spec(),
        ensures
            final(self).wf(),
            final(self).cap_spec() == old(self).cap_spec(),
            final(self).written() == old(self).written() + u16_be_bytes(x),
    {
        self.bytes.push(((x >> 8u16) & 0xff) as u8);
        self.bytes.push((x & 0xff) as u8);
        assert(self.bytes@ =~= old(self).bytes@ + u16_be_bytes(x));
    }

    pub fn append_u32_le(&mut self, x: u32)
        requires
            old(self).wf(),
            old(self).written().len() + 4 <= old(self).cap_spec(),
        ensures
            final(self).wf(),
            final(self).cap_spec() == old(self).cap_spec(),
            final(self).written() == old(self).written() + u32_le_bytes(x),
    {
        self.bytes.push((x & 0xff) as u8);
        self.bytes.push(((x >> 8u32) & 0xff) as u8);
        self.bytes.push(((x >> 16u32) & 0xff) as u8);
        self.bytes.push(((x >> 24u32) & 0xff) as u8);
        assert(self.bytes@ =~= old(self).bytes@ + u32_le_bytes(x));
    }

    pub fn append_u64_le(&mut self, x: u64)
        requires
            old(self).wf(),
            old(self).written().len() + 8 <= old(self).cap_spec(),
        ensures
            final(self).wf(),
            final(self).cap_spec() == old(self).cap_spec(),
            final(self).written() == old(self).written() + u64_le_bytes(x),
    {
        self.bytes.push((x & 0xff) as u8);
        self.bytes.push(((x >> 8u64) & 0xff) as u8);
        self.bytes.push(((x >> 16u64) & 0xff) as u8);
        self.bytes.push(((x >> 24u64) & 0xff) as u8);
        self.bytes.push(((x >> 32u64) & 0xff) as u8);
        self.bytes.push(((x >> 40u64) & 0xff) as u8);
        self.bytes.push(((x >> 48u64) & 0xff) as u8);
        self.bytes.push(((x >> 56u64) & 0xff) as u8);
        assert(self.bytes@ =~= old(self).bytes@ + u64_le_bytes(x));
    }

    pub fn append_u128_le(&mut self, x: u128)
        requires
            old(self).wf(),
            old(self).written().len() + 16 <= old(self).cap_spec(),
        ensures
            final(self).wf(),
            final(self).cap_spec() == old(self).cap_spec(),
            final(self).written() == old(self).written() + u128_le_bytes(x),
    {
        let mut i: usize = 0;
        while i < 16
            invariant
                i <= 16,
                self.cap == old(self).cap,
                self.bytes@.len() == old(self).bytes@.len() + i,
                old(self).bytes@.len() + 16 <= self.cap,
                self.bytes@ == old(self).bytes@ + u128_le_bytes(x).subrange(0, i as int),
            decreases 16 - i,
        {
            let b = ((x >> ((8 * (i as u128)) as u128)) & 0xff) as u8;
            assert(b == u128_byte(x, i as int));
            self.bytes.push(b);
            assert(self.bytes@ =~= old(self).bytes@ + u128_le_bytes(x).subrange(0, i + 1));
            i = i + 1;
        }
        assert(self.bytes@ =~= old(self).bytes@ + u128_le_bytes(x));
    }
}

} // verus!
