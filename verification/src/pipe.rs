//! The plain values that cross the boundary to the device driver: map
//! and resource flags, and the decoding of what the driver hands back
//! as bytes.

use vstd::prelude::*;

verus! {

pub const PIPE_MAP_READ: u32 = 1;

pub const PIPE_MAP_WRITE: u32 = 2;

pub const PIPE_MAP_READ_WRITE: u32 = 3;

pub const PIPE_MAP_UNSYNCHRONIZED: u32 = 1 << 10;

pub const PIPE_MAP_PERSISTENT: u32 = 1 << 13;

pub const PIPE_MAP_COHERENT: u32 = 1 << 14;

pub const PIPE_USAGE_DEFAULT: u32 = 0;

pub const PIPE_USAGE_STAGING: u32 = 4;

pub const PIPE_RESOURCE_FLAG_MAP_PERSISTENT: u32 = 1 << 0;

pub const PIPE_RESOURCE_FLAG_MAP_COHERENT: u32 = 1 << 1;

pub const PIPE_BIND_LINEAR: u32 = 1 << 21;

/// The memory barrier that follows a launch.
pub const PIPE_BARRIER_GLOBAL_BUFFER: u32 = 1 << 11;

/// The value that the write cursor of a printf buffer starts at: the
/// cursor's own size.
pub const PRINTF_CURSOR_START: u8 = 4;

/// How a mapping is accessed.
#[derive(Clone, Copy, Debug, PartialEq, Eq, Structural)]
pub enum RWFlags {
    RD,
    WR,
    RW,
}

impl RWFlags {
    pub open spec fn map_flags_spec(self) -> u32 {
        match self {
            RWFlags::RD => PIPE_MAP_READ,
            RWFlags::WR => PIPE_MAP_WRITE,
            RWFlags::RW => PIPE_MAP_READ_WRITE,
        }
    }

    /// The map flags of the access.
    pub fn map_flags(self) -> (f: u32)
        ensures
            f == self.map_flags_spec(),
    {
        match self {
            RWFlags::RD => PIPE_MAP_READ,
            RWFlags::WR => PIPE_MAP_WRITE,
            RWFlags::RW => PIPE_MAP_READ_WRITE,
        }
    }
}

/// How a mapping is synchronized with the device.
#[derive(Clone, Copy, Debug, PartialEq, Eq, Structural)]
pub enum ResourceMapType {
    Normal,
    Async,
    Coherent,
}

impl ResourceMapType {
    pub open spec fn map_flags_spec(self) -> u32 {
        match self {
            ResourceMapType::Normal => 0,
            ResourceMapType::Async => PIPE_MAP_UNSYNCHRONIZED,
            ResourceMapType::Coherent => PIPE_MAP_COHERENT | PIPE_MAP_PERSISTENT
                | PIPE_MAP_UNSYNCHRONIZED,
        }
    }

    /// The map flags of the kind of mapping: a coherent mapping is
    /// persistent and unsynchronized as well.
    pub fn map_flags(self) -> (f: u32)
        ensures
            f == self.map_flags_spec(),
    {
        match self {
            ResourceMapType::Normal => 0,
            ResourceMapType::Async => PIPE_MAP_UNSYNCHRONIZED,
            ResourceMapType::Coherent => PIPE_MAP_COHERENT | PIPE_MAP_PERSISTENT
                | PIPE_MAP_UNSYNCHRONIZED,
        }
    }
}

/// What a resource is for.
#[derive(Clone, Copy, Debug, PartialEq, Eq, Structural)]
pub enum ResourceType {
    Normal,
    Staging,
}

/// The part of a resource template that the kind of resource decides.
#[derive(Clone, Copy, Debug, PartialEq, Eq, Structural)]
pub struct ResourceTemplate {
    pub usage: u32,
    pub flags: u32,
    pub bind: u32,
}

impl ResourceType {
    pub open spec fn applied(self, tmpl: ResourceTemplate) -> ResourceTemplate {
        match self {
            ResourceType::Staging => ResourceTemplate {
                usage: PIPE_USAGE_STAGING,
                flags: tmpl.flags | PIPE_RESOURCE_FLAG_MAP_PERSISTENT
                    | PIPE_RESOURCE_FLAG_MAP_COHERENT,
                bind: tmpl.bind | PIPE_BIND_LINEAR,
            },
            ResourceType::Normal => tmpl,
        }
    }

    /// Marks a template for the kind of resource: a staging resource
    /// is linear and can stay mapped, coherently.
    pub fn apply(&self, tmpl: &mut ResourceTemplate)
        ensures
            *final(tmpl) == self.applied(*old(tmpl)),
    {
        match self {
            ResourceType::Staging => {
                tmpl.usage = PIPE_USAGE_STAGING;
                tmpl.flags = tmpl.flags | PIPE_RESOURCE_FLAG_MAP_PERSISTENT
                    | PIPE_RESOURCE_FLAG_MAP_COHERENT;
                tmpl.bind = tmpl.bind | PIPE_BIND_LINEAR;
            },
            ResourceType::Normal => {},
        }
    }
}

/// The 64-bit value of eight bytes, low byte first.
pub open spec fn u64_at(s: Seq<u8>, pos: int) -> u64 {
    (s[pos] + 0x100 * s[pos + 1] + 0x1_0000 * s[pos + 2] + 0x100_0000 * s[pos + 3] + 0x1_0000_0000
        * s[pos + 4] + 0x100_0000_0000 * s[pos + 5] + 0x1_0000_0000_0000 * s[pos + 6]
        + 0x100_0000_0000_0000 * s[pos + 7]) as u64
}

/// The list of 64-bit values that a device reports as bytes: one for
/// every eight bytes; bytes past the last whole value are ignored.
pub fn decode_u64s(bytes: &[u8]) -> (res: Vec<u64>)
    ensures
        res@.len() == bytes@.len() / 8,
        forall|i: int| 0 <= i < res@.len() ==> (#[trigger] res@[i]) == u64_at(bytes@, 8 * i),
{
    let elems: usize = bytes.len() / 8;
    assert(elems * 8 <= bytes@.len());
    let mut res: Vec<u64> = Vec::new();
    let mut i: usize = 0;
    while i < elems
        invariant
            i <= elems,
            elems == bytes@.len() / 8,
            elems * 8 <= bytes@.len() <= usize::MAX,
            res@.len() == i,
            forall|j: int| 0 <= j < i ==> (#[trigger] res@[j]) == u64_at(bytes@, 8 * j),
        decreases elems - i,
    {
        let offset: usize = i * 8;
        let v: u64 = bytes[offset] as u64 + 0x100 * bytes[offset + 1] as u64 + 0x1_0000 * bytes[offset
            + 2] as u64 + 0x100_0000 * bytes[offset + 3] as u64 + 0x1_0000_0000 * bytes[offset
            + 4] as u64 + 0x100_0000_0000 * bytes[offset + 5] as u64 + 0x1_0000_0000_0000
            * bytes[offset + 6] as u64 + 0x100_0000_0000_0000 * bytes[offset + 7] as u64;
        res.push(v);
        i = i + 1;
    }
    res
}

/// The version of the conformance suite that a driver passes, where
/// the driver does not say: good enough to pass the suite's own check.
pub fn default_cl_cts_version() -> (v: &'static str)
    ensures
        v@ == "v0000-01-01-00"@,
{
    "v0000-01-01-00"
}

/// The formatted output that a printf buffer holds: its first 4 bytes
/// are the write cursor, which counts itself, and the output follows
/// up to the cursor.  `None` for a buffer without a cursor, or whose
/// cursor lies before its own end or past the buffer.
pub open spec fn printf_payload_spec(buf: Seq<u8>) -> Option<Seq<u8>> {
    if buf.len() < 4 {
        None
    } else {
        let length = buf[0] + 256 * buf[1] + 65536 * buf[2] + 16777216 * buf[3];
        if 4 <= length <= buf.len() {
            Some(buf.subrange(4, length))
        } else {
            None
        }
    }
}

/// The first 4 bytes of a fresh printf buffer: the write cursor as a
/// little-endian word, at its start value.  A buffer that begins with
/// them holds no output yet.
pub fn printf_seed() -> (r: [u8; 4])
    ensures
        r@ == seq![PRINTF_CURSOR_START, 0u8, 0u8, 0u8],
        printf_payload_spec(r@) == Some(Seq::<u8>::empty()),
{
    let seed: [u8; 4] = [PRINTF_CURSOR_START, 0, 0, 0];
    assert(seed@ =~= seq![PRINTF_CURSOR_START, 0u8, 0u8, 0u8]);
    assert(seed@.subrange(4, 4) =~= Seq::<u8>::empty());
    seed
}

/// Cuts the formatted output out of a printf buffer.
pub fn printf_payload(buf: &[u8]) -> (r: Option<Vec<u8>>)
    ensures
        match printf_payload_spec(buf@) {
            Some(p) => r matches Some(v) && v@ == p,
            None => r is None,
        },
{
    if buf.len() < 4 {
        return None;
    }
    let length: u64 = buf[0] as u64 + 256 * buf[1] as u64 + 65536 * buf[2] as u64 + 16777216
        * buf[3] as u64;
    if length < 4 || length > buf.len() as u64 {
        return None;
    }
    let end: usize = length as usize;
    let mut out: Vec<u8> = Vec::new();
    let mut i: usize = 4;
    while i < end
        invariant
            4 <= i <= end <= buf@.len(),
            out@ == buf@.subrange(4, i as int),
        decreases end - i,
    {
        out.push(buf[i]);
        assert(out@ =~= buf@.subrange(4, i + 1));
        i = i + 1;
    }
    Some(out)
}

} // verus!
