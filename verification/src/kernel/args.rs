//! The lowered arguments of a kernel, and the byte format in which
//! their layout is cached.
//!
//! A list of arguments is stored as a 16-bit count followed by the
//! entries.  An entry of a user argument is its descriptor (access and
//! type qualifiers of 32 bits each, the lengths of its two names in 16
//! bits each, the names, the address qualifier in a byte), then size,
//! offset and binding in 16 bits each, the dead flag and the kind in a
//! byte each.  An entry of an internal argument is size and offset in
//! 16 bits each and the kind in a byte; an inline sampler adds its
//! normalized flag in a byte and its addressing and filter modes in 32
//! bits each.

use crate::kernel::blob::{
    Blob, BlobReader, flag_byte, le16, le32, parse_bytes, parse_u16, parse_u32, parse_u8,
};
use vstd::prelude::*;

verus! {

/// How a kernel sees an argument.
#[derive(Clone, Copy, Debug, PartialEq, Eq, Hash, Structural)]
pub enum KernelArgType {
    /// Anything passed by value.
    Constant,
    /// A write-only image.
    Image,
    /// A read-write image.
    RWImage,
    Sampler,
    /// A read-only image.
    Texture,
    /// A pointer to global memory.
    MemGlobal,
    /// A pointer to constant memory.
    MemConstant,
    /// A reservation of local memory.
    MemLocal,
}

impl KernelArgType {
    /// The byte that stands for the kind in the cache format.
    pub open spec fn tag(self) -> u8 {
        match self {
            KernelArgType::Constant => 0,
            KernelArgType::Image => 1,
            KernelArgType::RWImage => 2,
            KernelArgType::Sampler => 3,
            KernelArgType::Texture => 4,
            KernelArgType::MemGlobal => 5,
            KernelArgType::MemConstant => 6,
            KernelArgType::MemLocal => 7,
        }
    }

    /// The kind that a byte stands for, if any.
    pub open spec fn from_tag(t: u8) -> Option<KernelArgType> {
        match t {
            0 => Some(KernelArgType::Constant),
            1 => Some(KernelArgType::Image),
            2 => Some(KernelArgType::RWImage),
            3 => Some(KernelArgType::Sampler),
            4 => Some(KernelArgType::Texture),
            5 => Some(KernelArgType::MemGlobal),
            6 => Some(KernelArgType::MemConstant),
            7 => Some(KernelArgType::MemLocal),
            _ => None,
        }
    }

    pub fn to_u8(self) -> (t: u8)
        ensures
            t == self.tag(),
            Self::from_tag(t) == Some(self),
    {
        match self {
            KernelArgType::Constant => 0,
            KernelArgType::Image => 1,
            KernelArgType::RWImage => 2,
            KernelArgType::Sampler => 3,
            KernelArgType::Texture => 4,
            KernelArgType::MemGlobal => 5,
            KernelArgType::MemConstant => 6,
            KernelArgType::MemLocal => 7,
        }
    }

    pub fn from_u8(t: u8) -> (k: Option<KernelArgType>)
        ensures
            k == Self::from_tag(t),
            k is Some <==> t <= 7,
    {
        match t {
            0 => Some(KernelArgType::Constant),
            1 => Some(KernelArgType::Image),
            2 => Some(KernelArgType::RWImage),
            3 => Some(KernelArgType::Sampler),
            4 => Some(KernelArgType::Texture),
            5 => Some(KernelArgType::MemGlobal),
            6 => Some(KernelArgType::MemConstant),
            7 => Some(KernelArgType::MemLocal),
            _ => None,
        }
    }
}

/// The address space that a kernel's source declares for a parameter.
#[derive(Clone, Copy, Debug, PartialEq, Eq, Hash, Structural)]
pub enum AddressQualifier {
    Private,
    Constant,
    Local,
    Global,
}

impl AddressQualifier {
    pub open spec fn tag(self) -> u8 {
        match self {
            AddressQualifier::Private => 0,
            AddressQualifier::Constant => 1,
            AddressQualifier::Local => 2,
            AddressQualifier::Global => 3,
        }
    }

    pub open spec fn from_tag(t: u8) -> Option<AddressQualifier> {
        match t {
            0 => Some(AddressQualifier::Private),
            1 => Some(AddressQualifier::Constant),
            2 => Some(AddressQualifier::Local),
            3 => Some(AddressQualifier::Global),
            _ => None,
        }
    }

    pub fn to_u8(self) -> (t: u8)
        ensures
            t == self.tag(),
            Self::from_tag(t) == Some(self),
    {
        match self {
            AddressQualifier::Private => 0,
            AddressQualifier::Constant => 1,
            AddressQualifier::Local => 2,
            AddressQualifier::Global => 3,
        }
    }

    pub fn from_u8(t: u8) -> (q: Option<AddressQualifier>)
        ensures
            q == Self::from_tag(t),
            q is Some <==> t <= 3,
    {
        match t {
            0 => Some(AddressQualifier::Private),
            1 => Some(AddressQualifier::Constant),
            2 => Some(AddressQualifier::Local),
            3 => Some(AddressQualifier::Global),
            _ => None,
        }
    }
}

/// What the kernel's source says of one parameter.  The names are held
/// as their UTF-8 bytes.
#[derive(Clone, Debug, PartialEq, Eq, Hash)]
pub struct SPIRVKernelArg {
    pub name: Vec<u8>,
    pub ty_name: Vec<u8>,
    /// Bit 0: the kernel reads through the parameter; bit 1: it writes.
    pub access_qualifier: u32,
    pub address_qualifier: AddressQualifier,
    /// Bit 0: const; bit 1: restrict; bit 2: volatile.
    pub type_qualifier: u32,
}

/// A parameter's description as plain values.
pub struct SpirvArgView {
    pub name: Seq<u8>,
    pub ty_name: Seq<u8>,
    pub access_qualifier: u32,
    pub address_qualifier: AddressQualifier,
    pub type_qualifier: u32,
}

impl View for SPIRVKernelArg {
    type V = SpirvArgView;

    open spec fn view(&self) -> SpirvArgView {
        SpirvArgView {
            name: self.name@,
            ty_name: self.ty_name@,
            access_qualifier: self.access_qualifier,
            address_qualifier: self.address_qualifier,
            type_qualifier: self.type_qualifier,
        }
    }
}

/// One parameter of a kernel after lowering.
#[derive(Clone, Debug, PartialEq, Eq, Hash)]
pub struct KernelArg {
    pub spirv: SPIRVKernelArg,
    pub kind: KernelArgType,
    pub size: usize,
    /// The offset into the input buffer.
    pub offset: usize,
    /// The actual binding slot.
    pub binding: u32,
    /// The compiler found the parameter unused: it takes no part in a
    /// launch.
    pub dead: bool,
}

/// A lowered parameter as plain values.
pub struct KernelArgView {
    pub spirv: SpirvArgView,
    pub kind: KernelArgType,
    pub size: usize,
    pub offset: usize,
    pub binding: u32,
    pub dead: bool,
}

impl View for KernelArg {
    type V = KernelArgView;

    open spec fn view(&self) -> KernelArgView {
        KernelArgView {
            spirv: self.spirv@,
            kind: self.kind,
            size: self.size,
            offset: self.offset,
            binding: self.binding,
            dead: self.dead,
        }
    }
}

/// The views of a list of parameters.
pub open spec fn arg_views(args: Seq<KernelArg>) -> Seq<KernelArgView> {
    Seq::new(args.len(), |i: int| args[i]@)
}

/// What an argument that the compiler adds carries to the kernel.
#[derive(Clone, Copy, Debug, PartialEq, Eq, Hash)]
pub enum InternalKernelArgType {
    /// The address of the kernel's constant data.
    ConstantBuffer,
    /// The global offsets of the launch, three words.
    GlobalWorkOffsets,
    /// The address of the buffer that formatted output goes to.
    PrintfBuffer,
    /// A sampler that the kernel's source defines: its addressing mode,
    /// its filter mode, and whether coordinates are normalized.
    InlineSampler((u32, u32, bool)),
    /// The channel data types of the images, by binding.
    FormatArray,
    /// The channel orders of the images, by binding.
    OrderArray,
    /// The number of dimensions of the launch, one byte.
    WorkDim,
    /// The workgroup that the dispatch starts at, three words.
    WorkGroupOffsets,
    /// The number of workgroups, three 32-bit values.
    NumWorkgroups,
}

impl InternalKernelArgType {
    pub open spec fn tag(self) -> u8 {
        match self {
            InternalKernelArgType::ConstantBuffer => 0,
            InternalKernelArgType::GlobalWorkOffsets => 1,
            InternalKernelArgType::PrintfBuffer => 2,
            InternalKernelArgType::InlineSampler(_) => 3,
            InternalKernelArgType::FormatArray => 4,
            InternalKernelArgType::OrderArray => 5,
            InternalKernelArgType::WorkDim => 6,
            InternalKernelArgType::WorkGroupOffsets => 7,
            InternalKernelArgType::NumWorkgroups => 8,
        }
    }
}

/// An argument that the compiler adds; the kernel's source does not
/// show it.
#[derive(Clone, Copy, Debug, PartialEq, Eq, Hash)]
pub struct InternalKernelArg {
    pub kind: InternalKernelArgType,
    pub size: usize,
    pub offset: usize,
}

/// A number as a 16-bit field: its low 16 bits.
pub open spec fn low16(x: int) -> u16 {
    (x % 0x10000) as u16
}

/// The bytes of a parameter's description.
#[verifier::opaque]
pub open spec fn ser_spirv(a: SpirvArgView) -> Seq<u8> {
    le32(a.access_qualifier) + (le32(a.type_qualifier) + (le16(low16(a.name.len() as int)) + (
    le16(low16(a.ty_name.len() as int)) + (a.name + (a.ty_name + seq![
        a.address_qualifier.tag(),
    ])))))
}

/// The bytes of a lowered parameter.
#[verifier::opaque]
pub open spec fn ser_arg(a: KernelArgView) -> Seq<u8> {
    ser_spirv(a.spirv) + (le16(low16(a.size as int)) + (le16(low16(a.offset as int)) + (le16(
        low16(a.binding as int),
    ) + (seq![flag_byte(a.dead)] + seq![a.kind.tag()]))))
}

/// The bytes of the parameters from index `i` on.
pub open spec fn ser_args_from(args: Seq<KernelArgView>, i: int) -> Seq<u8>
    decreases args.len() - i,
{
    if 0 <= i < args.len() {
        ser_arg(args[i]) + ser_args_from(args, i + 1)
    } else {
        Seq::empty()
    }
}

/// The bytes of a list of parameters: the count, then the entries.
pub open spec fn ser_args(args: Seq<KernelArgView>) -> Seq<u8> {
    le16(low16(args.len() as int)) + ser_args_from(args, 0)
}

/// The bytes of the kind of an internal argument.
pub open spec fn ser_internal_kind(kind: InternalKernelArgType) -> Seq<u8> {
    match kind {
        InternalKernelArgType::InlineSampler((addr_mode, filter_mode, norm)) => seq![3u8] + (
        seq![flag_byte(norm)] + (le32(addr_mode) + le32(filter_mode))),
        _ => seq![kind.tag()],
    }
}

/// The bytes of an internal argument.
#[verifier::opaque]
pub open spec fn ser_internal(a: InternalKernelArg) -> Seq<u8> {
    le16(low16(a.size as int)) + (le16(low16(a.offset as int)) + ser_internal_kind(a.kind))
}

/// The bytes of the internal arguments from index `i` on.
pub open spec fn ser_internals_from(args: Seq<InternalKernelArg>, i: int) -> Seq<u8>
    decreases args.len() - i,
{
    if 0 <= i < args.len() {
        ser_internal(args[i]) + ser_internals_from(args, i + 1)
    } else {
        Seq::empty()
    }
}

/// The bytes of a list of internal arguments: the count, then the
/// entries.
pub open spec fn ser_internals(args: Seq<InternalKernelArg>) -> Seq<u8> {
    le16(low16(args.len() as int)) + ser_internals_from(args, 0)
}

/// The description at `pos`, if the buffer holds a whole one with a
/// known address qualifier.
#[verifier::opaque]
pub open spec fn parse_spirv(s: Seq<u8>, pos: int) -> Option<(SpirvArgView, int)> {
    match parse_u32(s, pos) {
        Some((access_qualifier, p1)) => match parse_u32(s, p1) {
            Some((type_qualifier, p2)) => match parse_u16(s, p2) {
                Some((name_len, p3)) => match parse_u16(s, p3) {
                    Some((type_len, p4)) => match parse_bytes(s, p4, name_len as int) {
                        Some((name, p5)) => match parse_bytes(s, p5, type_len as int) {
                            Some((ty_name, p6)) => match parse_u8(s, p6) {
                                Some((t, p7)) => match AddressQualifier::from_tag(t) {
                                    Some(address_qualifier) => Some(
                                        (
                                            SpirvArgView {
                                                name,
                                                ty_name,
                                                access_qualifier,
                                                address_qualifier,
                                                type_qualifier,
                                            },
                                            p7,
                                        ),
                                    ),
                                    None => None,
                                },
                                None => None,
                            },
                            None => None,
                        },
                        None => None,
                    },
                    None => None,
                },
                None => None,
            },
            None => None,
        },
        None => None,
    }
}

/// The parameter at `pos`, if the buffer holds a whole one of a known
/// kind.
#[verifier::opaque]
pub open spec fn parse_arg(s: Seq<u8>, pos: int) -> Option<(KernelArgView, int)> {
    match parse_spirv(s, pos) {
        Some((spirv, p1)) => match parse_u16(s, p1) {
            Some((size, p2)) => match parse_u16(s, p2) {
                Some((offset, p3)) => match parse_u16(s, p3) {
                    Some((binding, p4)) => match parse_u8(s, p4) {
                        Some((dead, p5)) => match parse_u8(s, p5) {
                            Some((t, p6)) => match KernelArgType::from_tag(t) {
                                Some(kind) => Some(
                                    (
                                        KernelArgView {
                                            spirv,
                                            kind,
                                            size: size as usize,
                                            offset: offset as usize,
                                            binding: binding as u32,
                                            dead: dead != 0,
                                        },
                                        p6,
                                    ),
                                ),
                                None => None,
                            },
                            None => None,
                        },
                        None => None,
                    },
                    None => None,
                },
                None => None,
            },
            None => None,
        },
        None => None,
    }
}

/// The `n` parameters from `pos` on, if the buffer holds that many.
pub open spec fn parse_args_n(s: Seq<u8>, pos: int, n: nat) -> Option<(Seq<KernelArgView>, int)>
    decreases n,
{
    if n == 0 {
        Some((Seq::empty(), pos))
    } else {
        match parse_arg(s, pos) {
            Some((a, p1)) => match parse_args_n(s, p1, (n - 1) as nat) {
                Some((rest, p2)) => Some((seq![a] + rest, p2)),
                None => None,
            },
            None => None,
        }
    }
}

/// The list of parameters at `pos`: `None` if the buffer ends early or
/// holds an unknown kind or address qualifier.
pub open spec fn parse_args(s: Seq<u8>, pos: int) -> Option<(Seq<KernelArgView>, int)> {
    match parse_u16(s, pos) {
        Some((n, p)) => parse_args_n(s, p, n as nat),
        None => None,
    }
}

/// The kind of internal argument at `pos`.
pub open spec fn parse_internal_kind(s: Seq<u8>, pos: int) -> Option<(InternalKernelArgType, int)> {
    match parse_u8(s, pos) {
        Some((t, p1)) => match t {
            0 => Some((InternalKernelArgType::ConstantBuffer, p1)),
            1 => Some((InternalKernelArgType::GlobalWorkOffsets, p1)),
            2 => Some((InternalKernelArgType::PrintfBuffer, p1)),
            3 => match parse_u8(s, p1) {
                Some((norm, p2)) => match parse_u32(s, p2) {
                    Some((addr_mode, p3)) => match parse_u32(s, p3) {
                        Some((filter_mode, p4)) => Some(
                            (
                                InternalKernelArgType::InlineSampler(
                                    (addr_mode, filter_mode, norm != 0),
                                ),
                                p4,
                            ),
                        ),
                        None => None,
                    },
                    None => None,
                },
                None => None,
            },
            4 => Some((InternalKernelArgType::FormatArray, p1)),
            5 => Some((InternalKernelArgType::OrderArray, p1)),
            6 => Some((InternalKernelArgType::WorkDim, p1)),
            7 => Some((InternalKernelArgType::WorkGroupOffsets, p1)),
            8 => Some((InternalKernelArgType::NumWorkgroups, p1)),
            _ => None,
        },
        None => None,
    }
}

/// The internal argument at `pos`.
#[verifier::opaque]
pub open spec fn parse_internal(s: Seq<u8>, pos: int) -> Option<(InternalKernelArg, int)> {
    match parse_u16(s, pos) {
        Some((size, p1)) => match parse_u16(s, p1) {
            Some((offset, p2)) => match parse_internal_kind(s, p2) {
                Some((kind, p3)) => Some(
                    (InternalKernelArg { kind, size: size as usize, offset: offset as usize }, p3),
                ),
                None => None,
            },
            None => None,
        },
        None => None,
    }
}

/// The `n` internal arguments from `pos` on.
pub open spec fn parse_internals_n(s: Seq<u8>, pos: int, n: nat) -> Option<
    (Seq<InternalKernelArg>, int),
>
    decreases n,
{
    if n == 0 {
        Some((Seq::empty(), pos))
    } else {
        match parse_internal(s, pos) {
            Some((a, p1)) => match parse_internals_n(s, p1, (n - 1) as nat) {
                Some((rest, p2)) => Some((seq![a] + rest, p2)),
                None => None,
            },
            None => None,
        }
    }
}

/// The list of internal arguments at `pos`: `None` if the buffer ends
/// early or holds an unknown kind.
pub open spec fn parse_internals(s: Seq<u8>, pos: int) -> Option<(Seq<InternalKernelArg>, int)> {
    match parse_u16(s, pos) {
        Some((n, p)) => parse_internals_n(s, p, n as nat),
        None => None,
    }
}

/// The low 16 bits of a number.
fn to_u16(x: usize) -> (r: u16)
    ensures
        r == low16(x as int),
{
    (x % 0x10000) as u16
}

impl SPIRVKernelArg {
    /// Appends the description to a buffer.
    pub fn serialize(&self, blob: &mut Blob)
        ensures
            final(blob)@ == old(blob)@ + ser_spirv(self@),
    {
        proof {
            reveal(ser_spirv);
        }
        blob.write_uint32(self.access_qualifier);
        blob.write_uint32(self.type_qualifier);
        blob.write_uint16(to_u16(self.name.len()));
        blob.write_uint16(to_u16(self.ty_name.len()));
        blob.write_bytes(self.name.as_slice());
        blob.write_bytes(self.ty_name.as_slice());
        blob.write_uint8(self.address_qualifier.to_u8());
        assert(blob@ =~= old(blob)@ + ser_spirv(self@));
    }

    /// Reads a description from a buffer.
    pub fn deserialize(reader: &mut BlobReader) -> (r: Option<Self>)
        requires
            old(reader).wf(),
        ensures
            final(reader).wf(),
            final(reader).data == old(reader).data,
            match parse_spirv(old(reader).data@, old(reader).pos as int) {
                Some((v, p)) => r is Some && r.unwrap()@ == v && final(reader).pos == p,
                None => r is None,
            },
    {
        proof {
            reveal(parse_spirv);
        }
        let access_qualifier = reader.read_uint32()?;
        let type_qualifier = reader.read_uint32()?;
        let name_len = reader.read_uint16()?;
        let type_len = reader.read_uint16()?;
        let name = reader.read_bytes(name_len as usize)?;
        let ty_name = reader.read_bytes(type_len as usize)?;
        let t = reader.read_uint8()?;
        let address_qualifier = AddressQualifier::from_u8(t)?;
        Some(SPIRVKernelArg { name, ty_name, access_qualifier, address_qualifier, type_qualifier })
    }
}

impl KernelArg {
    /// Appends one parameter to a buffer.
    pub fn serialize_one(&self, blob: &mut Blob)
        ensures
            final(blob)@ == old(blob)@ + ser_arg(self@),
    {
        proof {
            reveal(ser_arg);
        }
        self.spirv.serialize(blob);
        blob.write_uint16(to_u16(self.size));
        blob.write_uint16(to_u16(self.offset));
        blob.write_uint16((self.binding % 0x10000) as u16);
        blob.write_uint8(
            if self.dead {
                1
            } else {
                0
            },
        );
        blob.write_uint8(self.kind.to_u8());
        assert(blob@ =~= old(blob)@ + ser_arg(self@));
    }

    /// Appends a list of parameters to a buffer.  Counts, sizes,
    /// offsets and bindings are stored in 16 bits each.
    pub fn serialize(args: &[Self], blob: &mut Blob)
        ensures
            final(blob)@ == old(blob)@ + ser_args(arg_views(args@)),
    {
        let ghost views = arg_views(args@);
        blob.write_uint16(to_u16(args.len()));
        let mut i: usize = 0;
        while i < args.len()
            invariant
                i <= args@.len(),
                views == arg_views(args@),
                blob@ + ser_args_from(views, i as int) == old(blob)@ + ser_args(views),
            decreases args@.len() - i,
        {
            let ghost before = blob@;
            args[i].serialize_one(blob);
            assert(blob@ + ser_args_from(views, i + 1) =~= before + ser_args_from(views, i as int));
            i = i + 1;
        }
        assert(blob@ =~= blob@ + ser_args_from(views, i as int));
    }

    /// Reads one parameter from a buffer.
    pub fn deserialize_one(reader: &mut BlobReader) -> (r: Option<Self>)
        requires
            old(reader).wf(),
        ensures
            final(reader).wf(),
            final(reader).data == old(reader).data,
            match parse_arg(old(reader).data@, old(reader).pos as int) {
                Some((v, p)) => r is Some && r.unwrap()@ == v && final(reader).pos == p,
                None => r is None,
            },
    {
        proof {
            reveal(parse_arg);
        }
        let spirv = SPIRVKernelArg::deserialize(reader)?;
        let size = reader.read_uint16()?;
        let offset = reader.read_uint16()?;
        let binding = reader.read_uint16()?;
        let dead = reader.read_uint8()?;
        let t = reader.read_uint8()?;
        let kind = KernelArgType::from_u8(t)?;
        Some(
            KernelArg {
                spirv,
                kind,
                size: size as usize,
                offset: offset as usize,
                binding: binding as u32,
                dead: dead != 0,
            },
        )
    }

    /// Reads a list of parameters from a buffer.  A buffer that ends
    /// early, or that holds a kind or an address qualifier that is not
    /// known, gives `None`.
    pub fn deserialize(reader: &mut BlobReader) -> (r: Option<Vec<Self>>)
        requires
            old(reader).wf(),
        ensures
            final(reader).wf(),
            final(reader).data == old(reader).data,
            match parse_args(old(reader).data@, old(reader).pos as int) {
                Some((v, p)) => r is Some && arg_views(r.unwrap()@) == v && final(reader).pos == p,
                None => r is None,
            },
    {
        let len = reader.read_uint16()?;
        let ghost s = reader.data@;
        let ghost start = reader.pos as int;
        let mut res: Vec<Self> = Vec::new();
        let mut i: u16 = 0;
        while i < len
            invariant
                i <= len,
                reader.wf(),
                reader.data == old(reader).data,
                s == reader.data@,
                res@.len() == i,
                parse_args(old(reader).data@, old(reader).pos as int) == parse_args_n(
                    s,
                    start,
                    len as nat,
                ),
                parse_args_n(s, start, len as nat) == (match parse_args_n(
                    s,
                    reader.pos as int,
                    (len - i) as nat,
                ) {
                    Some((rest, p)) => Some((arg_views(res@) + rest, p)),
                    None => None,
                }),
            decreases len - i,
        {
            let ghost before = arg_views(res@);
            let ghost pos = reader.pos as int;
            let arg = match Self::deserialize_one(reader) {
                Some(arg) => arg,
                None => {
                    assert(parse_args_n(s, pos, (len - i) as nat) is None);
                    return None;
                },
            };
            res.push(arg);
            proof {
                let a = parse_arg(s, pos).unwrap().0;
                assert(arg_views(res@) =~= before + seq![a]);
                match parse_args_n(s, reader.pos as int, (len - i - 1) as nat) {
                    Some((rest, p)) => {
                        assert(before + (seq![a] + rest) =~= arg_views(res@) + rest);
                    },
                    None => {},
                }
            }
            i = i + 1;
        }
        assert(arg_views(res@) + Seq::<KernelArgView>::empty() =~= arg_views(res@));
        Some(res)
    }
}

impl InternalKernelArg {
    /// Appends one internal argument to a buffer.
    pub fn serialize_one(&self, blob: &mut Blob)
        ensures
            final(blob)@ == old(blob)@ + ser_internal(*self),
    {
        proof {
            reveal(ser_internal);
        }
        blob.write_uint16(to_u16(self.size));
        blob.write_uint16(to_u16(self.offset));
        match self.kind {
            InternalKernelArgType::ConstantBuffer => blob.write_uint8(0),
            InternalKernelArgType::GlobalWorkOffsets => blob.write_uint8(1),
            InternalKernelArgType::PrintfBuffer => blob.write_uint8(2),
            InternalKernelArgType::InlineSampler((addr_mode, filter_mode, norm)) => {
                blob.write_uint8(3);
                blob.write_uint8(
                    if norm {
                        1
                    } else {
                        0
                    },
                );
                blob.write_uint32(addr_mode);
                blob.write_uint32(filter_mode);
            },
            InternalKernelArgType::FormatArray => blob.write_uint8(4),
            InternalKernelArgType::OrderArray => blob.write_uint8(5),
            InternalKernelArgType::WorkDim => blob.write_uint8(6),
            InternalKernelArgType::WorkGroupOffsets => blob.write_uint8(7),
            InternalKernelArgType::NumWorkgroups => blob.write_uint8(8),
        }
        assert(blob@ =~= old(blob)@ + ser_internal(*self));
    }

    /// Appends a list of internal arguments to a buffer.
    pub fn serialize(args: &[Self], blob: &mut Blob)
        ensures
            final(blob)@ == old(blob)@ + ser_internals(args@),
    {
        blob.write_uint16(to_u16(args.len()));
        let mut i: usize = 0;
        while i < args.len()
            invariant
                i <= args@.len(),
                blob@ + ser_internals_from(args@, i as int) == old(blob)@ + ser_internals(args@),
            decreases args@.len() - i,
        {
            let ghost before = blob@;
            args[i].serialize_one(blob);
            assert(blob@ + ser_internals_from(args@, i + 1) =~= before + ser_internals_from(
                args@,
                i as int,
            ));
            i = i + 1;
        }
        assert(blob@ =~= blob@ + ser_internals_from(args@, i as int));
    }

    /// Reads one internal argument from a buffer.
    pub fn deserialize_one(reader: &mut BlobReader) -> (r: Option<Self>)
        requires
            old(reader).wf(),
        ensures
            final(reader).wf(),
            final(reader).data == old(reader).data,
            match parse_internal(old(reader).data@, old(reader).pos as int) {
                Some((v, p)) => r == Some(v) && final(reader).pos == p,
                None => r is None,
            },
    {
        proof {
            reveal(parse_internal);
        }
        let size = reader.read_uint16()?;
        let offset = reader.read_uint16()?;
        let t = reader.read_uint8()?;
        let kind = match t {
            0 => InternalKernelArgType::ConstantBuffer,
            1 => InternalKernelArgType::GlobalWorkOffsets,
            2 => InternalKernelArgType::PrintfBuffer,
            3 => {
                let norm = reader.read_uint8()?;
                let addr_mode = reader.read_uint32()?;
                let filter_mode = reader.read_uint32()?;
                InternalKernelArgType::InlineSampler((addr_mode, filter_mode, norm != 0))
            },
            4 => InternalKernelArgType::FormatArray,
            5 => InternalKernelArgType::OrderArray,
            6 => InternalKernelArgType::WorkDim,
            7 => InternalKernelArgType::WorkGroupOffsets,
            8 => InternalKernelArgType::NumWorkgroups,
            _ => {
                return None;
            },
        };
        Some(InternalKernelArg { kind, size: size as usize, offset: offset as usize })
    }

    /// Reads a list of internal arguments from a buffer.  A buffer that
    /// ends early, or that holds a kind that is not known, gives
    /// `None`.
    pub fn deserialize(reader: &mut BlobReader) -> (r: Option<Vec<Self>>)
        requires
            old(reader).wf(),
        ensures
            final(reader).wf(),
            final(reader).data == old(reader).data,
            match parse_internals(old(reader).data@, old(reader).pos as int) {
                Some((v, p)) => r is Some && r.unwrap()@ == v && final(reader).pos == p,
                None => r is None,
            },
    {
        let len = reader.read_uint16()?;
        let ghost s = reader.data@;
        let ghost start = reader.pos as int;
        let mut res: Vec<Self> = Vec::new();
        let mut i: u16 = 0;
        while i < len
            invariant
                i <= len,
                reader.wf(),
                reader.data == old(reader).data,
                s == reader.data@,
                res@.len() == i,
                parse_internals(old(reader).data@, old(reader).pos as int) == parse_internals_n(
                    s,
                    start,
                    len as nat,
                ),
                parse_internals_n(s, start, len as nat) == (match parse_internals_n(
                    s,
                    reader.pos as int,
                    (len - i) as nat,
                ) {
                    Some((rest, p)) => Some((res@ + rest, p)),
                    None => None,
                }),
            decreases len - i,
        {
            let ghost before = res@;
            let ghost pos = reader.pos as int;
            let arg = match Self::deserialize_one(reader) {
                Some(arg) => arg,
                None => {
                    assert(parse_internals_n(s, pos, (len - i) as nat) is None);
                    return None;
                },
            };
            res.push(arg);
            proof {
                match parse_internals_n(s, reader.pos as int, (len - i - 1) as nat) {
                    Some((rest, p)) => {
                        assert(before + (seq![arg] + rest) =~= res@ + rest);
                    },
                    None => {},
                }
            }
            i = i + 1;
        }
        assert(res@ + Seq::<InternalKernelArg>::empty() =~= res@);
        Some(res)
    }
}

} // verus!
