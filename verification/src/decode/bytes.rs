//! A bounds-checked cursor over untrusted bytes.

use vstd::prelude::*;
use vstd::slice::slice_subrange;

verus! {

/// The value of two bytes read in network (big-endian) order.
pub open spec fn be16(data: Seq<u8>, at: int) -> int {
    data[at] * 256 + data[at + 1]
}

/// The value of two bytes read in network order, as the `u16` field they form.
pub open spec fn be16_field(data: Seq<u8>, at: int) -> u16 {
    be16(data, at) as u16
}

/// The value of four bytes read in network (big-endian) order.
pub open spec fn be32(data: Seq<u8>, at: int) -> int {
    ((data[at] * 256 + data[at + 1]) * 256 + data[at + 2]) * 256 + data[at + 3]
}

/// A read cursor over a packet.
#[derive(Debug, Clone, Copy)]
pub struct ByteReader<'a> {
    data: &'a [u8],
    offset: usize,
}

impl<'a> ByteReader<'a> {
    /// The bytes being read.
    pub closed spec fn bytes(&self) -> Seq<u8> {
        self.data@
    }

    /// How many bytes have been consumed, as a natural number.
    pub closed spec fn consumed(&self) -> nat {
        self.offset as nat
    }

    /// How many bytes have been consumed.
    pub open spec fn pos(&self) -> int {
        self.consumed() as int
    }

    /// Whether `count` more bytes can be read from the cursor's position.
    pub open spec fn can_read(&self, count: int) -> bool {
        self.pos() + count <= self.bytes().len()
    }

    /// How many bytes are left after the cursor (none once it is past the end).
    pub open spec fn left(&self) -> int {
        if self.pos() <= self.bytes().len() {
            self.bytes().len() - self.pos()
        } else {
            0
        }
    }

    /// The cursor never passes the end of its data, whatever was read.
    #[verifier::type_invariant]
    closed spec fn within_data(&self) -> bool {
        self.offset <= self.data@.len()
    }

    /// Starts reading at the beginning of `data`.
    pub fn new(data: &'a [u8]) -> (reader: Self)
        ensures
            reader.bytes() == data@,
            reader.pos() == 0,
    {
        Self { data, offset: 0 }
    }

    /// How many bytes are left to read.
    ///
    /// However the reader was used, this is the length of its data less its
    /// position.
    pub fn remaining(&self) -> (count: usize)
        ensures
            count == self.left(),
            count == self.bytes().len() - self.pos(),
    {
        proof {
            use_type_invariant(self);
        }
        self.data.len().saturating_sub(self.offset)
    }

    /// How many bytes have been consumed so far.
    ///
    /// However the reader was used, and whichever reads failed, this never
    /// passes the end of its data.
    pub fn position(&self) -> (offset: usize)
        ensures
            offset == self.pos(),
            offset <= self.bytes().len(),
    {
        proof {
            use_type_invariant(self);
        }
        self.offset
    }

    /// Whether at least `count` more bytes are available.
    pub fn has(&self, count: usize) -> (available: bool)
        ensures
            available == (count <= self.left()),
            available == (count <= self.bytes().len() - self.pos()),
    {
        self.remaining() >= count
    }

    /// Reads a fixed-size array, or `None` if too few bytes remain.
    pub fn array<const N: usize>(&mut self) -> (value: Option<[u8; N]>)
        ensures
            final(self).bytes() == old(self).bytes(),
            old(self).can_read(N as int) ==> {
                &&& value matches Some(v)
                &&& v@ == old(self).bytes().subrange(old(self).pos(), old(self).pos() + N)
                &&& final(self).pos() == old(self).pos() + N
            },
            !old(self).can_read(N as int) ==> value is None && final(self).pos() == old(self).pos(),
    {
        let len = self.data.len();
        let end = match self.offset.checked_add(N) {
            Some(end) => end,
            None => return None,
        };
        if end > len {
            return None;
        }
        let mut value = [0u8; N];
        let mut i: usize = 0;
        while i < N
            invariant
                i <= N,
                end == self.offset + N,
                end <= self.data@.len(),
                forall|k: int| 0 <= k < i ==> value@[k] == self.data@[self.offset + k],
            decreases N - i,
        {
            value.set(i, self.data[self.offset + i]);
            i = i + 1;
        }
        assert(value@ =~= self.data@.subrange(self.offset as int, end as int));
        self.offset = end;
        Some(value)
    }

    /// Reads one byte.
    pub fn u8(&mut self) -> (value: Option<u8>)
        ensures
            final(self).bytes() == old(self).bytes(),
            old(self).can_read(1) ==> {
                &&& value == Some(old(self).bytes()[old(self).pos()])
                &&& final(self).pos() == old(self).pos() + 1
            },
            !old(self).can_read(1) ==> value is None && final(self).pos() == old(self).pos(),
    {
        if self.offset < self.data.len() {
            let value = self.data[self.offset];
            self.offset = self.offset + 1;
            Some(value)
        } else {
            None
        }
    }

    /// Reads a big-endian `u16`.
    pub fn u16(&mut self) -> (value: Option<u16>)
        ensures
            final(self).bytes() == old(self).bytes(),
            old(self).can_read(2) ==> {
                &&& value matches Some(v)
                &&& v == be16(old(self).bytes(), old(self).pos())
                &&& final(self).pos() == old(self).pos() + 2
            },
            !old(self).can_read(2) ==> value is None && final(self).pos() == old(self).pos(),
    {
        match self.array::<2>() {
            Some(pair) => Some(pair[0] as u16 * 256 + pair[1] as u16),
            None => None,
        }
    }

    /// Reads a big-endian `u32`.
    pub fn u32(&mut self) -> (value: Option<u32>)
        ensures
            final(self).bytes() == old(self).bytes(),
            old(self).can_read(4) ==> {
                &&& value matches Some(v)
                &&& v == be32(old(self).bytes(), old(self).pos())
                &&& final(self).pos() == old(self).pos() + 4
            },
            !old(self).can_read(4) ==> value is None && final(self).pos() == old(self).pos(),
    {
        match self.array::<4>() {
            Some(quad) => Some(
                ((quad[0] as u32 * 256 + quad[1] as u32) * 256 + quad[2] as u32) * 256
                    + quad[3] as u32,
            ),
            None => None,
        }
    }

    /// Borrows the next `count` bytes without copying them.
    pub fn take(&mut self, count: usize) -> (window: Option<&'a [u8]>)
        ensures
            final(self).bytes() == old(self).bytes(),
            old(self).can_read(count as int) ==> {
                &&& window matches Some(w)
                &&& w@ == old(self).bytes().subrange(old(self).pos(), old(self).pos() + count)
                &&& final(self).pos() == old(self).pos() + count
            },
            !old(self).can_read(count as int) ==> window is None && final(self).pos() == old(
                self,
            ).pos(),
    {
        let len = self.data.len();
        let end = match self.offset.checked_add(count) {
            Some(end) => end,
            None => return None,
        };
        if end > len {
            return None;
        }
        let window = slice_subrange(self.data, self.offset, end);
        self.offset = end;
        Some(window)
    }

    /// Skips `count` bytes, failing if that many are not available.
    pub fn skip(&mut self, count: usize) -> (done: Option<()>)
        ensures
            final(self).bytes() == old(self).bytes(),
            old(self).can_read(count as int) ==> done is Some && final(self).pos() == old(
                self,
            ).pos() + count,
            !old(self).can_read(count as int) ==> done is None && final(self).pos() == old(
                self,
            ).pos(),
    {
        match self.take(count) {
            Some(_) => Some(()),
            None => None,
        }
    }

    /// Borrows everything not yet read, consuming the reader.
    pub fn rest(self) -> (tail: &'a [u8])
        ensures
            self.pos() <= self.bytes().len() ==> tail@ == self.bytes().subrange(
                self.pos(),
                self.bytes().len() as int,
            ),
            self.pos() > self.bytes().len() ==> tail@.len() == 0,
    {
        let len = self.data.len();
        if self.offset <= len {
            slice_subrange(self.data, self.offset, len)
        } else {
            slice_subrange(self.data, len, len)
        }
    }
}

} // verus!
