use crate::bytes::{
    be16, be16_b0, be16_b1, be32, be32_b0, be32_b1, be32_b2, be32_b3, lemma_be16_roundtrip,
    lemma_be32_roundtrip,
};
use crate::error::ParseError;
use vstd::prelude::*;

verus! {

/// A packet buffer: the bytes of one inbound frame, exclusively owned by
/// the parse that inspects it.
pub struct Buffer {
    data: Vec<u8>,
}

impl View for Buffer {
    type V = Seq<u8>;

    closed spec fn view(&self) -> Seq<u8> {
        self.data@
    }
}

/// A contiguous byte range inside a parent buffer.  It owns no data; it
/// only names the span `base .. base + len`.  A region is valid for a
/// buffer when `base + len <= buffer capacity`, which `wf` states.
#[derive(Clone, Copy, Debug, PartialEq, Eq, Structural)]
pub struct Region {
    pub base: usize,
    pub len: usize,
}

impl Region {
    /// The region lies inside a buffer of `cap` bytes.
    pub open spec fn wf(&self, cap: int) -> bool {
        self.base + self.len <= cap
    }

    /// Bounds-checked sub-slicing: the span `offset .. offset + length`
    /// relative to this region, failing with `OutOfBounds` exactly when it
    /// would exceed the region's capacity.  No data moves.
    pub fn slice(&self, offset: usize, length: usize) -> (r: Result<Region, ParseError>)
        requires
            self.base + self.len <= usize::MAX,
        ensures
            match r {
                Ok(sub) => {
                    &&& offset + length <= self.len
                    &&& sub.base == self.base + offset
                    &&& sub.len == length
                },
                Err(e) => {
                    &&& offset + length > self.len
                    &&& e == ParseError::OutOfBounds
                },
            },
    {
        if length <= self.len && offset <= self.len - length {
            Ok(Region { base: self.base + offset, len: length })
        } else {
            Err(ParseError::OutOfBounds)
        }
    }
}

impl Buffer {
    /// Copies one raw frame into a fresh buffer that the parse will own
    /// for its whole duration.
    pub fn from_bytes(bytes: &[u8]) -> (r: Buffer)
        ensures
            r@ == bytes@,
    {
        let mut data: Vec<u8> = Vec::new();
        let n = bytes.len();
        let mut i: usize = 0;
        while i < n
            invariant
                i <= n,
                n == bytes@.len(),
                data@ == bytes@.subrange(0, i as int),
            decreases n - i,
        {
            data.push(bytes[i]);
            i = i + 1;
            proof {
                assert(data@ =~= bytes@.subrange(0, i as int));
            }
        }
        proof {
            assert(data@ =~= bytes@);
        }
        Buffer { data }
    }

    /// A buffer's byte count fits the machine's address space.
    pub proof fn lemma_capacity_in_bounds(&self)
        ensures
            self@.len() <= usize::MAX,
    {
        broadcast use vstd::std_specs::vec::axiom_spec_len;

        assert(vstd::std_specs::vec::spec_vec_len(&self.data) == self.data@.len());
    }

    /// Number of bytes the buffer holds.
    pub fn capacity(&self) -> (r: usize)
        ensures
            r == self@.len(),
    {
        self.data.len()
    }

    /// The region covering the whole buffer.
    pub fn full_region(&self) -> (r: Region)
        ensures
            r.base == 0,
            r.len == self@.len(),
            r.wf(self@.len() as int),
    {
        Region { base: 0, len: self.data.len() }
    }

    /// One byte, bounds-checked by contract: the accessor never reads
    /// outside the buffer.
    pub fn byte(&self, i: usize) -> (r: u8)
        requires
            i < self@.len(),
        ensures
            r == self@[i as int],
    {
        self.data[i]
    }

    /// A copy of the bytes `off .. off + len`.
    pub fn read_bytes(&self, off: usize, len: usize) -> (r: Vec<u8>)
        requires
            off + len <= self@.len(),
        ensures
            r@ == self@.subrange(off as int, off + len),
    {
        proof {
            self.lemma_capacity_in_bounds();
        }
        let mut out: Vec<u8> = Vec::new();
        let mut i: usize = 0;
        while i < len
            invariant
                i <= len,
                self@.len() <= usize::MAX,
                off + len <= self@.len(),
                out@ == self@.subrange(off as int, off + i),
            decreases len - i,
        {
            out.push(self.data[off + i]);
            i = i + 1;
            proof {
                assert(out@ =~= self@.subrange(off as int, off + i));
            }
        }
        out
    }

    /// A 16-bit field read big-endian at `off`, converted to host order.
    pub fn read_u16_be(&self, off: usize) -> (r: u16)
        requires
            off + 2 <= self@.len(),
        ensures
            r == be16(self@[off as int], self@[off + 1]),
    {
        proof {
            self.lemma_capacity_in_bounds();
        }
        (self.data[off] as u16) * 0x100 + (self.data[off + 1] as u16)
    }

    /// A 32-bit field read big-endian at `off`, converted to host order.
    pub fn read_u32_be(&self, off: usize) -> (r: u32)
        requires
            off + 4 <= self@.len(),
        ensures
            r == be32(self@[off as int], self@[off + 1], self@[off + 2], self@[off + 3]),
    {
        proof {
            self.lemma_capacity_in_bounds();
        }
        (self.data[off] as u32) * 0x1000000 + (self.data[off + 1] as u32) * 0x10000 + (self.data[off
            + 2] as u32) * 0x100 + (self.data[off + 3] as u32)
    }

    /// Writes `v` at `off` in big-endian order.  Only the two bytes of the
    /// field change, and reading the field back yields `v` again.
    pub fn write_u16_be(&mut self, off: usize, v: u16)
        requires
            off + 2 <= old(self)@.len(),
        ensures
            final(self)@ == old(self)@.update(off as int, be16_b0(v)).update(off + 1, be16_b1(v)),
            final(self)@.len() == old(self)@.len(),
            be16(final(self)@[off as int], final(self)@[off + 1]) == v,
    {
        proof {
            self.lemma_capacity_in_bounds();
            lemma_be16_roundtrip(v);
        }
        let b0: u8 = (v / 0x100) as u8;
        let b1: u8 = (v % 0x100) as u8;
        self.data[off] = b0;
        self.data[off + 1] = b1;
    }

    /// Writes `v` at `off` in big-endian order.  Only the four bytes of
    /// the field change, and reading the field back yields `v` again.
    pub fn write_u32_be(&mut self, off: usize, v: u32)
        requires
            off + 4 <= old(self)@.len(),
        ensures
            final(self)@ == old(self)@.update(off as int, be32_b0(v)).update(off + 1, be32_b1(v)).update(
                off + 2,
                be32_b2(v),
            ).update(off + 3, be32_b3(v)),
            final(self)@.len() == old(self)@.len(),
            be32(final(self)@[off as int], final(self)@[off + 1], final(self)@[off + 2], final(self)@[off + 3]) == v,
    {
        proof {
            self.lemma_capacity_in_bounds();
            lemma_be32_roundtrip(v);
        }
        let b0: u8 = (v / 0x1000000) as u8;
        let b1: u8 = ((v / 0x10000) % 0x100) as u8;
        let b2: u8 = ((v / 0x100) % 0x100) as u8;
        let b3: u8 = (v % 0x100) as u8;
        self.data[off] = b0;
        self.data[off + 1] = b1;
        self.data[off + 2] = b2;
        self.data[off + 3] = b3;
    }
}

} // verus!
