//! A byte buffer that is written and read field by field.  Fields
//! follow each other without padding; integers are little-endian.

use vstd::prelude::*;

verus! {

/// The two bytes of a 16-bit field.
pub open spec fn le16(v: u16) -> Seq<u8> {
    seq![(v % 256) as u8, (v / 256) as u8]
}

/// The four bytes of a 32-bit field.
pub open spec fn le32(v: u32) -> Seq<u8> {
    seq![
        (v % 256) as u8,
        ((v / 256) % 256) as u8,
        ((v / 65536) % 256) as u8,
        (v / 16777216) as u8,
    ]
}

/// The eight bytes of a 64-bit field.
pub open spec fn le64(v: u64) -> Seq<u8> {
    le32((v % 0x1_0000_0000) as u32) + le32((v / 0x1_0000_0000) as u32)
}

/// The one byte of a flag: 1 for true, 0 for false.
pub open spec fn flag_byte(b: bool) -> u8 {
    if b {
        1
    } else {
        0
    }
}

/// The byte at `pos`, if the buffer has one.
pub open spec fn parse_u8(s: Seq<u8>, pos: int) -> Option<(u8, int)> {
    if 0 <= pos && pos + 1 <= s.len() {
        Some((s[pos], pos + 1))
    } else {
        None
    }
}

/// The 16-bit field at `pos`, if the buffer has two bytes there.
pub open spec fn parse_u16(s: Seq<u8>, pos: int) -> Option<(u16, int)> {
    if 0 <= pos && pos + 2 <= s.len() {
        Some(((s[pos] + 256 * s[pos + 1]) as u16, pos + 2))
    } else {
        None
    }
}

/// The 32-bit field at `pos`, if the buffer has four bytes there.
pub open spec fn parse_u32(s: Seq<u8>, pos: int) -> Option<(u32, int)> {
    if 0 <= pos && pos + 4 <= s.len() {
        Some(
            (
                (s[pos] + 256 * s[pos + 1] + 65536 * s[pos + 2] + 16777216 * s[pos
                    + 3]) as u32,
                pos + 4,
            ),
        )
    } else {
        None
    }
}

/// The `n` bytes at `pos`, if the buffer has them.
pub open spec fn parse_bytes(s: Seq<u8>, pos: int, n: int) -> Option<(Seq<u8>, int)> {
    if 0 <= pos && 0 <= n && pos + n <= s.len() {
        Some((s.subrange(pos, pos + n), pos + n))
    } else {
        None
    }
}

/// The buffer holds `bytes` at `pos`.
pub open spec fn holds_at(s: Seq<u8>, pos: int, bytes: Seq<u8>) -> bool {
    0 <= pos && pos + bytes.len() <= s.len() && s.subrange(pos, pos + bytes.len()) == bytes
}

/// A buffer that holds two runs of bytes end to end holds each of them.
pub proof fn lemma_holds_at_concat(s: Seq<u8>, pos: int, a: Seq<u8>, b: Seq<u8>)
    requires
        holds_at(s, pos, a + b),
    ensures
        holds_at(s, pos, a),
        holds_at(s, pos + a.len(), b),
{
    let ab = a + b;
    let sub = s.subrange(pos, pos + ab.len());
    assert(s.subrange(pos, pos + a.len()) =~= a) by {
        assert forall|i: int| 0 <= i < a.len() implies s[pos + i] == a[i] by {
            assert(sub[i] == ab[i]);
        }
    }
    assert(s.subrange(pos + a.len(), pos + a.len() + b.len()) =~= b) by {
        assert forall|i: int| 0 <= i < b.len() implies s[pos + a.len() + i] == b[i] by {
            assert(sub[a.len() + i] == ab[a.len() + i]);
        }
    }
}

/// A byte that was written is read back.
pub proof fn lemma_parse_u8(s: Seq<u8>, pos: int, v: u8)
    requires
        holds_at(s, pos, seq![v]),
    ensures
        parse_u8(s, pos) == Some((v, pos + 1)),
{
    assert(s.subrange(pos, pos + 1)[0] == v);
}

/// A 16-bit field that was written is read back.
pub proof fn lemma_parse_u16(s: Seq<u8>, pos: int, v: u16)
    requires
        holds_at(s, pos, le16(v)),
    ensures
        parse_u16(s, pos) == Some((v, pos + 2)),
{
    let sub = s.subrange(pos, pos + 2);
    assert(sub[0] == le16(v)[0] && sub[1] == le16(v)[1]);
}

/// A 32-bit field that was written is read back.
pub proof fn lemma_parse_u32(s: Seq<u8>, pos: int, v: u32)
    requires
        holds_at(s, pos, le32(v)),
    ensures
        parse_u32(s, pos) == Some((v, pos + 4)),
{
    let sub = s.subrange(pos, pos + 4);
    assert(sub[0] == le32(v)[0] && sub[1] == le32(v)[1] && sub[2] == le32(v)[2] && sub[3]
        == le32(v)[3]);
}

/// Bytes that were written are read back.
pub proof fn lemma_parse_bytes(s: Seq<u8>, pos: int, bytes: Seq<u8>)
    requires
        holds_at(s, pos, bytes),
    ensures
        parse_bytes(s, pos, bytes.len() as int) == Some((bytes, pos + bytes.len())),
{
}

/// A buffer under construction.
pub struct Blob {
    pub data: Vec<u8>,
}

impl View for Blob {
    type V = Seq<u8>;

    open spec fn view(&self) -> Seq<u8> {
        self.data@
    }
}

impl Blob {
    /// An empty buffer.
    pub fn new() -> (b: Blob)
        ensures
            b@ == Seq::<u8>::empty(),
    {
        Blob { data: Vec::new() }
    }

    /// Appends one byte.
    pub fn write_uint8(&mut self, v: u8)
        ensures
            final(self)@ == old(self)@ + seq![v],
    {
        self.data.push(v);
        assert(self@ =~= old(self)@ + seq![v]);
    }

    /// Appends a 16-bit field.
    pub fn write_uint16(&mut self, v: u16)
        ensures
            final(self)@ == old(self)@ + le16(v),
    {
        self.data.push((v % 256) as u8);
        self.data.push((v / 256) as u8);
        assert(self@ =~= old(self)@ + le16(v));
    }

    /// Appends a 32-bit field.
    pub fn write_uint32(&mut self, v: u32)
        ensures
            final(self)@ == old(self)@ + le32(v),
    {
        self.data.push((v % 256) as u8);
        self.data.push(((v / 256) % 256) as u8);
        self.data.push(((v / 65536) % 256) as u8);
        self.data.push((v / 16777216) as u8);
        assert(self@ =~= old(self)@ + le32(v));
    }

    /// Appends bytes as they are.
    pub fn write_bytes(&mut self, bytes: &[u8])
        ensures
            final(self)@ == old(self)@ + bytes@,
    {
        let mut i: usize = 0;
        while i < bytes.len()
            invariant
                i <= bytes@.len(),
                self@ == old(self)@ + bytes@.subrange(0, i as int),
            decreases bytes@.len() - i,
        {
            self.data.push(bytes[i]);
            assert(self@ =~= old(self)@ + bytes@.subrange(0, i + 1));
            i = i + 1;
        }
        assert(bytes@.subrange(0, i as int) =~= bytes@);
    }

    /// The bytes written so far.
    pub fn into_bytes(self) -> (v: Vec<u8>)
        ensures
            v@ == self@,
    {
        self.data
    }
}

/// A cursor over a buffer.  A read past the end fails and leaves the
/// cursor where it was.
pub struct BlobReader<'a> {
    pub data: &'a [u8],
    pub pos: usize,
}

impl<'a> BlobReader<'a> {
    /// The cursor lies inside the buffer or at its end.
    pub open spec fn wf(self) -> bool {
        self.pos <= self.data@.len()
    }

    /// A cursor at the start of `data`.
    pub fn new(data: &'a [u8]) -> (r: Self)
        ensures
            r.data@ == data@,
            r.pos == 0,
            r.wf(),
    {
        BlobReader { data, pos: 0 }
    }

    /// Reads one byte.
    pub fn read_uint8(&mut self) -> (r: Option<u8>)
        requires
            old(self).wf(),
        ensures
            final(self).wf(),
            final(self).data == old(self).data,
            match parse_u8(old(self).data@, old(self).pos as int) {
                Some((v, p)) => r == Some(v) && final(self).pos == p,
                None => r is None && final(self).pos == old(self).pos,
            },
    {
        if self.data.len() - self.pos < 1 {
            return None;
        }
        let v = self.data[self.pos];
        self.pos = self.pos + 1;
        Some(v)
    }

    /// Reads a 16-bit field.
    pub fn read_uint16(&mut self) -> (r: Option<u16>)
        requires
            old(self).wf(),
        ensures
            final(self).wf(),
            final(self).data == old(self).data,
            match parse_u16(old(self).data@, old(self).pos as int) {
                Some((v, p)) => r == Some(v) && final(self).pos == p,
                None => r is None && final(self).pos == old(self).pos,
            },
    {
        if self.data.len() - self.pos < 2 {
            return None;
        }
        let b0: u16 = self.data[self.pos] as u16;
        let b1: u16 = self.data[self.pos + 1] as u16;
        self.pos = self.pos + 2;
        Some(b0 + 256 * b1)
    }

    /// Reads a 32-bit field.
    pub fn read_uint32(&mut self) -> (r: Option<u32>)
        requires
            old(self).wf(),
        ensures
            final(self).wf(),
            final(self).data == old(self).data,
            match parse_u32(old(self).data@, old(self).pos as int) {
                Some((v, p)) => r == Some(v) && final(self).pos == p,
                None => r is None && final(self).pos == old(self).pos,
            },
    {
        if self.data.len() - self.pos < 4 {
            return None;
        }
        let b0: u32 = self.data[self.pos] as u32;
        let b1: u32 = self.data[self.pos + 1] as u32;
        let b2: u32 = self.data[self.pos + 2] as u32;
        let b3: u32 = self.data[self.pos + 3] as u32;
        self.pos = self.pos + 4;
        Some(b0 + 256 * b1 + 65536 * b2 + 16777216 * b3)
    }

    /// Reads `n` bytes.
    pub fn read_bytes(&mut self, n: usize) -> (r: Option<Vec<u8>>)
        requires
            old(self).wf(),
        ensures
            final(self).wf(),
            final(self).data == old(self).data,
            match parse_bytes(old(self).data@, old(self).pos as int, n as int) {
                Some((v, p)) => r is Some && r.unwrap()@ == v && final(self).pos == p,
                None => r is None && final(self).pos == old(self).pos,
            },
    {
        if self.data.len() - self.pos < n {
            return None;
        }
        let mut out: Vec<u8> = Vec::new();
        let mut i: usize = 0;
        while i < n
            invariant
                i <= n,
                self.pos + n <= self.data@.len(),
                self.data@.len() <= usize::MAX,
                *self == *old(self),
                out@ == self.data@.subrange(self.pos as int, self.pos + i),
            decreases n - i,
        {
            out.push(self.data[self.pos + i]);
            assert(out@ =~= self.data@.subrange(self.pos as int, self.pos + i + 1));
            i = i + 1;
        }
        self.pos = self.pos + n;
        Some(out)
    }
}

} // verus!
