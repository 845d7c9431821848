//! Encodings of the memory, attribute and interpolation operations.

use crate::bitview::{
    check_fits_signed, fits_signed, lemma_mask_values, signed_bits, with_bit, with_field,
};
use crate::ir::{CBuf, Dst, RegFile, SrcMod, SrcRef, SrcType};
use crate::legalize::{
    BuilderState, check_ext_src, ext_src_ok, legalize_ext_instr, LegalizeBuilder, src_is_reg_spec,
};
use crate::ops::{
    AtomOp, AtomType, AttrAccess, InterpFreq, InterpLoc, LdcMode, MemAddrType, MemScope, MemSpace,
    OpALd, OpASt, OpAtom, OpIpa, OpLd, OpLdc, OpMemBar, OpSt,
};
use crate::sm50::SM50Op;
use crate::sm50::encoder::{
    addr_type_bits, atom_op_bits, cb_idx, check_dst, check_reg_src, dst_ok, EncodeState,
    mem_type_bits, put_dst, put_mem_access, put_opcode, put_pred_dst, put_reg_src_ref, reg_src_ok,
    SM50Encoder, src_cb,
};
use crate::sm50::legalize_ops::{check_copyable, copyable, to_reg};
use vstd::prelude::*;

verus! {

pub open spec fn ld_opcode(space: MemSpace) -> u16 {
    match space {
        MemSpace::Global(_) => 0xeed0,
        MemSpace::Local => 0xef40,
        MemSpace::Shared => 0xef48,
    }
}

pub open spec fn st_opcode(space: MemSpace) -> u16 {
    match space {
        MemSpace::Global(_) => 0xeed8,
        MemSpace::Local => 0xef50,
        MemSpace::Shared => 0xef58,
    }
}

pub open spec fn ldc_mode_bits(mode: LdcMode) -> u64 {
    match mode {
        LdcMode::Indexed => 0,
        LdcMode::IndexedLinear => 1,
        LdcMode::IndexedSegmented => 2,
        LdcMode::IndexedSegmentedLinear => 3,
    }
}

/// The types on which a global atomic can operate.
pub open spec fn global_atom_type_ok(atom_type: AtomType) -> bool {
    atom_type != AtomType::F16x2 && atom_type != AtomType::F64
}

pub open spec fn global_atom_type_bits(atom_type: AtomType) -> u64 {
    match atom_type {
        AtomType::U32 => 0,
        AtomType::I32 => 1,
        AtomType::U64 => 2,
        AtomType::F32 => 3,
        _ => 5,
    }
}

/// The types on which a shared-memory atomic can operate.
pub open spec fn shared_atom_type_ok(atom_type: AtomType) -> bool {
    atom_type == AtomType::U32 || atom_type == AtomType::I32 || atom_type == AtomType::U64
        || atom_type == AtomType::I64
}

pub open spec fn shared_atom_type_bits(atom_type: AtomType) -> u64 {
    match atom_type {
        AtomType::U32 => 0,
        AtomType::I32 => 1,
        AtomType::U64 => 2,
        _ => 3,
    }
}

/// An attribute access by offset, of one to four components, at an
/// address of ten bits.
pub open spec fn attr_access_ok(access: AttrAccess) -> bool {
    !access.phys && access.addr <= 0x3ff && 1 <= access.comps <= 4
}

/// The attribute address in 20..30, the patch and output flags in 31
/// and 32, the component count less one in 47..49.
pub open spec fn put_attr_access(w: u64, access: AttrAccess) -> u64 {
    let w = with_field(w, 20, 30, access.addr as u64);
    let w = with_bit(w, 31, access.patch);
    let w = with_bit(w, 32, access.output);
    with_field(w, 47, 49, (access.comps - 1) as u64)
}

pub open spec fn interp_loc_bits(loc: InterpLoc) -> u64 {
    match loc {
        InterpLoc::Center => 0,
        InterpLoc::Centroid => 1,
        InterpLoc::Offset => 2,
    }
}

pub open spec fn interp_freq_bits(freq: InterpFreq) -> u64 {
    match freq {
        InterpFreq::Pass => 0,
        InterpFreq::PassMulW => 1,
        InterpFreq::Constant => 2,
        InterpFreq::State => 3,
    }
}

pub open spec fn membar_scope_bits(scope: MemScope) -> u64 {
    match scope {
        MemScope::CTA => 0,
        MemScope::GPU => 1,
        MemScope::System => 2,
    }
}

impl<'a> SM50Encoder<'a> {
    /// Writes the fields of an attribute access.
    pub fn set_attr_access(&mut self, access: &AttrAccess)
        requires
            attr_access_ok(*access),
        ensures
            final(self).word() == put_attr_access(old(self).word(), *access),
            final(self).same_context(*old(self)),
    {
        proof {
            lemma_mask_values();
        }
        self.set_field(20, 30, access.addr as u64);
        self.set_bit(31, access.patch);
        self.set_bit(32, access.output);
        self.set_field(47, 49, (access.comps - 1) as u64);
    }
}

pub fn check_attr_access(access: &AttrAccess) -> (r: bool)
    ensures
        r == attr_access_ok(*access),
{
    !access.phys && access.addr <= 0x3ff && 1 <= access.comps && access.comps <= 4
}

/// Whether a number is a multiple of 4.
pub fn is_multiple_of_4(x: i32) -> (r: bool)
    ensures
        r == (x % 4 == 0),
{
    if x >= 0 {
        x % 4 == 0
    } else {
        let n: i64 = -(x as i64);
        assert((n % 4 == 0) == (x % 4 == 0)) by {
            vstd::arithmetic::div_mod::lemma_fundamental_div_mod(x as int, 4);
            vstd::arithmetic::div_mod::lemma_fundamental_div_mod(n as int, 4);
        }
        n % 4 == 0
    }
}

impl SM50Op for OpLd {

    /// An external unit takes its sources as they are: vectors of SSA
    /// values and general-purpose registers.
    open spec fn can_legalize(&self, b: BuilderState) -> bool {
        &&& ext_src_ok(self.addr, SrcType::GPR)
    }

    fn legalizable(&self, b: &LegalizeBuilder) -> (r: bool) {
        check_ext_src(&self.addr, SrcType::GPR)
    }

    /// Nothing is rewritten.
    open spec fn legalized(&self, b: BuilderState) -> (Self, BuilderState) {
        (*self, b)
    }

    open spec fn is_legal(&self) -> bool {
        &&& ext_src_ok(self.addr, SrcType::GPR)
    }

    fn legalize(&mut self, b: &mut LegalizeBuilder) {
        let srcs = [self.addr];
        let src_types = [SrcType::GPR];
        legalize_ext_instr(srcs.as_slice(), src_types.as_slice(), b);
    }

    /// The address is a register and the offset fits 24 signed bits.
    open spec fn can_encode(&self, e: EncodeState) -> bool {
        &&& dst_ok(self.dst)
        &&& reg_src_ok(self.addr)
        &&& fits_signed(self.offset as i64, 20, 44)
    }

    /// Opcode 0xeed0 global, 0xef40 local, 0xef48 shared.
    open spec fn encoded(&self, e: EncodeState) -> u64 {
        let w = put_opcode(e.word, ld_opcode(self.access.space));
        let w = put_dst(w, self.dst);
        let w = put_reg_src_ref(w, 8, 16, self.addr.src_ref);
        let w = with_field(w, 20, 44, signed_bits(self.offset as i64, 20, 44));
        put_mem_access(w, self.access)
    }

    fn encodable(&self, e: &SM50Encoder<'_>) -> (r: bool) {
        check_dst(&self.dst) && check_reg_src(&self.addr) && check_fits_signed(self.offset as i64, 20, 44)
    }

    fn encode(&self, e: &mut SM50Encoder<'_>) {
        e.set_opcode(
            match self.access.space {
                MemSpace::Global(_) => 0xeed0,
                MemSpace::Local => 0xef40,
                MemSpace::Shared => 0xef48,
            },
        );
        e.set_dst(self.dst);
        e.set_reg_src(8, 16, self.addr);
        e.set_field_signed(20, 44, self.offset as i64);
        e.set_mem_access(&self.access);
    }
}

impl SM50Op for OpLdc {

    open spec fn can_legalize(&self, b: BuilderState) -> bool {
        &&& b.has_room(1)
        &&& copyable(self.offset, SrcType::GPR)
    }

    fn legalizable(&self, b: &LegalizeBuilder) -> (r: bool) {
        b.room_for(1)
            && check_copyable(&self.offset, SrcType::GPR)
    }

    open spec fn legalized(&self, b: BuilderState) -> (Self, BuilderState) {
        let (b1, offset_1) = to_reg(b, self.offset, SrcType::GPR);
        (OpLdc { offset: offset_1, ..*self }, b1)
    }

    open spec fn is_legal(&self) -> bool {
        &&& src_is_reg_spec(self.offset, RegFile::GPR)
    }

    fn legalize(&mut self, b: &mut LegalizeBuilder) {
        let mut offset = self.offset;
        b.src_to_reg(&mut offset, SrcType::GPR);
        self.offset = offset;
    }

    /// The buffer is bound, unmodified, in a slot of five bits; the
    /// offset is a register.
    open spec fn can_encode(&self, e: EncodeState) -> bool {
        &&& dst_ok(self.dst)
        &&& reg_src_ok(self.offset)
        &&& self.cb.src_mod == SrcMod::Plain
        &&& match self.cb.src_ref {
            SrcRef::CBuf(cb) => match cb.buf {
                CBuf::Binding(idx) => idx <= 31,
                _ => false,
            },
            _ => false,
        }
    }

    /// Opcode 0xef90; the byte offset in 20..36, the slot in 36..41.
    open spec fn encoded(&self, e: EncodeState) -> u64 {
        let w = put_opcode(e.word, 0xef90);
        let w = put_dst(w, self.dst);
        let w = put_reg_src_ref(w, 8, 16, self.offset.src_ref);
        let w = with_field(w, 20, 36, src_cb(self.cb).offset as u64);
        let w = with_field(w, 36, 41, cb_idx(src_cb(self.cb)));
        let w = with_field(w, 44, 46, ldc_mode_bits(self.mode));
        with_field(w, 48, 51, mem_type_bits(self.mem_type))
    }

    fn encodable(&self, e: &SM50Encoder<'_>) -> (r: bool) {
        check_dst(&self.dst) && check_reg_src(&self.offset) && self.cb.src_mod.is_none() && match self.cb.src_ref {
            SrcRef::CBuf(cb) => match cb.buf {
                CBuf::Binding(idx) => idx <= 31,
                _ => false,
            },
            _ => false,
        }
    }

    fn encode(&self, e: &mut SM50Encoder<'_>) {
        proof {
            lemma_mask_values();
        }
        let (cb_offset, slot): (u16, u8) = match self.cb.src_ref {
            SrcRef::CBuf(cb) => match cb.buf {
                CBuf::Binding(idx) => (cb.offset, idx),
                _ => (cb.offset, 0),
            },
            _ => (0, 0),
        };
        e.set_opcode(0xef90);
        e.set_dst(self.dst);
        e.set_reg_src(8, 16, self.offset);
        e.set_field(20, 36, cb_offset as u64);
        e.set_field(36, 41, slot as u64);
        e.set_field(
            44,
            46,
            match self.mode {
                LdcMode::Indexed => 0,
                LdcMode::IndexedLinear => 1,
                LdcMode::IndexedSegmented => 2,
                LdcMode::IndexedSegmentedLinear => 3,
            },
        );
        e.set_mem_type(48, 51, self.mem_type);
    }
}

impl SM50Op for OpSt {

    /// An external unit takes its sources as they are: vectors of SSA
    /// values and general-purpose registers.
    open spec fn can_legalize(&self, b: BuilderState) -> bool {
        &&& ext_src_ok(self.addr, SrcType::GPR)
        &&& ext_src_ok(self.data, SrcType::SSA)
    }

    fn legalizable(&self, b: &LegalizeBuilder) -> (r: bool) {
        check_ext_src(&self.addr, SrcType::GPR) && check_ext_src(&self.data, SrcType::SSA)
    }

    /// Nothing is rewritten.
    open spec fn legalized(&self, b: BuilderState) -> (Self, BuilderState) {
        (*self, b)
    }

    open spec fn is_legal(&self) -> bool {
        &&& ext_src_ok(self.addr, SrcType::GPR)
        &&& ext_src_ok(self.data, SrcType::SSA)
    }

    fn legalize(&mut self, b: &mut LegalizeBuilder) {
        let srcs = [self.addr, self.data];
        let src_types = [SrcType::GPR, SrcType::SSA];
        legalize_ext_instr(srcs.as_slice(), src_types.as_slice(), b);
    }

    open spec fn can_encode(&self, e: EncodeState) -> bool {
        &&& reg_src_ok(self.data)
        &&& reg_src_ok(self.addr)
        &&& fits_signed(self.offset as i64, 20, 44)
    }

    /// Opcode 0xeed8 global, 0xef50 local, 0xef58 shared; the data
    /// register takes the place of a destination.
    open spec fn encoded(&self, e: EncodeState) -> u64 {
        let w = put_opcode(e.word, st_opcode(self.access.space));
        let w = put_reg_src_ref(w, 0, 8, self.data.src_ref);
        let w = put_reg_src_ref(w, 8, 16, self.addr.src_ref);
        let w = with_field(w, 20, 44, signed_bits(self.offset as i64, 20, 44));
        put_mem_access(w, self.access)
    }

    fn encodable(&self, e: &SM50Encoder<'_>) -> (r: bool) {
        check_reg_src(&self.data) && check_reg_src(&self.addr) && check_fits_signed(self.offset as i64, 20, 44)
    }

    fn encode(&self, e: &mut SM50Encoder<'_>) {
        e.set_opcode(
            match self.access.space {
                MemSpace::Global(_) => 0xeed8,
                MemSpace::Local => 0xef50,
                MemSpace::Shared => 0xef58,
            },
        );
        e.set_reg_src(0, 8, self.data);
        e.set_reg_src(8, 16, self.addr);
        e.set_field_signed(20, 44, self.offset as i64);
        e.set_mem_access(&self.access);
    }
}

impl SM50Op for OpAtom {

    /// An external unit takes its sources as they are: vectors of SSA
    /// values and general-purpose registers.
    open spec fn can_legalize(&self, b: BuilderState) -> bool {
        &&& ext_src_ok(self.addr, SrcType::GPR)
        &&& ext_src_ok(self.compare, SrcType::GPR)
        &&& ext_src_ok(self.data, SrcType::SSA)
    }

    fn legalizable(&self, b: &LegalizeBuilder) -> (r: bool) {
        check_ext_src(&self.addr, SrcType::GPR) && check_ext_src(&self.compare, SrcType::GPR) && check_ext_src(&self.data, SrcType::SSA)
    }

    /// Nothing is rewritten.
    open spec fn legalized(&self, b: BuilderState) -> (Self, BuilderState) {
        (*self, b)
    }

    open spec fn is_legal(&self) -> bool {
        &&& ext_src_ok(self.addr, SrcType::GPR)
        &&& ext_src_ok(self.compare, SrcType::GPR)
        &&& ext_src_ok(self.data, SrcType::SSA)
    }

    fn legalize(&mut self, b: &mut LegalizeBuilder) {
        let srcs = [self.addr, self.compare, self.data];
        let src_types = [SrcType::GPR, SrcType::GPR, SrcType::SSA];
        legalize_ext_instr(srcs.as_slice(), src_types.as_slice(), b);
    }

    /// Global or shared memory, an operation other than
    /// compare-and-exchange, register operands.  A global offset fits
    /// 20 signed bits; a shared offset is a multiple of 4 whose
    /// quarter fits 22 signed bits.
    open spec fn can_encode(&self, e: EncodeState) -> bool {
        &&& dst_ok(self.dst)
        &&& reg_src_ok(self.addr)
        &&& reg_src_ok(self.data)
        &&& self.atom_op != AtomOp::CompareExch
        &&& match self.mem_space {
            MemSpace::Global(_) => global_atom_type_ok(self.atom_type) && fits_signed(
                self.addr_offset as i64,
                28,
                48,
            ),
            MemSpace::Shared => shared_atom_type_ok(self.atom_type) && self.addr_offset % 4 == 0
                && fits_signed((self.addr_offset / 4) as i64, 30, 52),
            MemSpace::Local => false,
        }
    }

    /// Opcode 0xed00 global, with the offset in 28..48, the address
    /// width in bit 48 and the type in 49..52; opcode 0xec00 shared,
    /// with the type in 28..30 and the offset in words in 30..52.  The
    /// operation is in 52..56.
    open spec fn encoded(&self, e: EncodeState) -> u64 {
        match self.mem_space {
            MemSpace::Shared => {
                let w = put_opcode(e.word, 0xec00);
                let w = put_dst(w, self.dst);
                let w = put_reg_src_ref(w, 8, 16, self.addr.src_ref);
                let w = put_reg_src_ref(w, 20, 28, self.data.src_ref);
                let w = with_field(w, 28, 30, shared_atom_type_bits(self.atom_type));
                let w = with_field(
                    w,
                    30,
                    52,
                    signed_bits((self.addr_offset / 4) as i64, 30, 52),
                );
                with_field(w, 52, 56, atom_op_bits(self.atom_op))
            },
            _ => {
                let w = put_opcode(e.word, 0xed00);
                let w = put_dst(w, self.dst);
                let w = put_reg_src_ref(w, 8, 16, self.addr.src_ref);
                let w = put_reg_src_ref(w, 20, 28, self.data.src_ref);
                let w = with_field(w, 28, 48, signed_bits(self.addr_offset as i64, 28, 48));
                let w = with_field(w, 48, 49, addr_type_bits(self.mem_space.addr_type_spec()));
                let w = with_field(w, 49, 52, global_atom_type_bits(self.atom_type));
                with_field(w, 52, 56, atom_op_bits(self.atom_op))
            },
        }
    }

    fn encodable(&self, e: &SM50Encoder<'_>) -> (r: bool) {
        check_dst(&self.dst) && check_reg_src(&self.addr) && check_reg_src(&self.data) && !matches!(
            self.atom_op,
            AtomOp::CompareExch
        ) && match self.mem_space {
            MemSpace::Global(_) => !matches!(self.atom_type, AtomType::F16x2 | AtomType::F64)
                && check_fits_signed(self.addr_offset as i64, 28, 48),
            MemSpace::Shared => matches!(
                self.atom_type,
                AtomType::U32 | AtomType::I32 | AtomType::U64 | AtomType::I64
            ) && is_multiple_of_4(self.addr_offset) && check_fits_signed(
                quarter(self.addr_offset),
                30,
                52,
            ),
            MemSpace::Local => false,
        }
    }

    fn encode(&self, e: &mut SM50Encoder<'_>) {
        proof {
            lemma_mask_values();
        }
        match self.mem_space {
            MemSpace::Shared => {
                e.set_opcode(0xec00);
                e.set_mem_order(&self.mem_order);
                e.set_dst(self.dst);
                e.set_reg_src(8, 16, self.addr);
                e.set_reg_src(20, 28, self.data);
                e.set_field(
                    28,
                    30,
                    match self.atom_type {
                        AtomType::U32 => 0,
                        AtomType::I32 => 1,
                        AtomType::U64 => 2,
                        _ => 3,
                    },
                );
                let words: i64 = quarter(self.addr_offset);
                e.set_field_signed(30, 52, words);
                e.set_atom_op(52, 56, self.atom_op);
            },
            _ => {
                e.set_opcode(0xed00);
                e.set_mem_order(&self.mem_order);
                e.set_dst(self.dst);
                e.set_reg_src(8, 16, self.addr);
                e.set_reg_src(20, 28, self.data);
                e.set_field_signed(28, 48, self.addr_offset as i64);
                e.set_field(
                    48,
                    49,
                    match self.mem_space.addr_type() {
                        MemAddrType::A32 => 0,
                        MemAddrType::A64 => 1,
                    },
                );
                e.set_field(
                    49,
                    52,
                    match self.atom_type {
                        AtomType::U32 => 0,
                        AtomType::I32 => 1,
                        AtomType::U64 => 2,
                        AtomType::F32 => 3,
                        _ => 5,
                    },
                );
                e.set_atom_op(52, 56, self.atom_op);
            },
        }
    }
}

/// A quarter of a multiple of 4.
fn quarter(x: i32) -> (q: i64)
    requires
        x % 4 == 0,
    ensures
        q == x / 4,
{
    if x >= 0 {
        (x / 4) as i64
    } else {
        let n: i64 = -(x as i64);
        assert(n % 4 == 0 && -(n / 4) == x / 4) by {
            assert(x == 4 * (x / 4)) by {
                vstd::arithmetic::div_mod::lemma_fundamental_div_mod(x as int, 4);
            }
        }
        -(n / 4)
    }
}

impl SM50Op for OpALd {

    /// An external unit takes its sources as they are: vectors of SSA
    /// values and general-purpose registers.
    open spec fn can_legalize(&self, b: BuilderState) -> bool {
        &&& ext_src_ok(self.vtx, SrcType::GPR)
        &&& ext_src_ok(self.offset, SrcType::GPR)
    }

    fn legalizable(&self, b: &LegalizeBuilder) -> (r: bool) {
        check_ext_src(&self.vtx, SrcType::GPR) && check_ext_src(&self.offset, SrcType::GPR)
    }

    /// Nothing is rewritten.
    open spec fn legalized(&self, b: BuilderState) -> (Self, BuilderState) {
        (*self, b)
    }

    open spec fn is_legal(&self) -> bool {
        &&& ext_src_ok(self.vtx, SrcType::GPR)
        &&& ext_src_ok(self.offset, SrcType::GPR)
    }

    fn legalize(&mut self, b: &mut LegalizeBuilder) {
        let srcs = [self.vtx, self.offset];
        let src_types = [SrcType::GPR, SrcType::GPR];
        legalize_ext_instr(srcs.as_slice(), src_types.as_slice(), b);
    }

    open spec fn can_encode(&self, e: EncodeState) -> bool {
        &&& dst_ok(self.dst)
        &&& reg_src_ok(self.offset)
        &&& reg_src_ok(self.vtx)
        &&& attr_access_ok(self.access)
    }

    /// Opcode 0xefd8.
    open spec fn encoded(&self, e: EncodeState) -> u64 {
        let w = put_opcode(e.word, 0xefd8);
        let w = put_dst(w, self.dst);
        let w = put_reg_src_ref(w, 8, 16, self.offset.src_ref);
        let w = put_reg_src_ref(w, 39, 47, self.vtx.src_ref);
        put_attr_access(w, self.access)
    }

    fn encodable(&self, e: &SM50Encoder<'_>) -> (r: bool) {
        check_dst(&self.dst) && check_reg_src(&self.offset) && check_reg_src(&self.vtx) && check_attr_access(&self.access)
    }

    fn encode(&self, e: &mut SM50Encoder<'_>) {
        e.set_opcode(0xefd8);
        e.set_dst(self.dst);
        e.set_reg_src(8, 16, self.offset);
        e.set_reg_src(39, 47, self.vtx);
        e.set_attr_access(&self.access);
    }
}

impl SM50Op for OpASt {

    /// An external unit takes its sources as they are: vectors of SSA
    /// values and general-purpose registers.
    open spec fn can_legalize(&self, b: BuilderState) -> bool {
        &&& ext_src_ok(self.vtx, SrcType::GPR)
        &&& ext_src_ok(self.offset, SrcType::GPR)
        &&& ext_src_ok(self.data, SrcType::SSA)
    }

    fn legalizable(&self, b: &LegalizeBuilder) -> (r: bool) {
        check_ext_src(&self.vtx, SrcType::GPR) && check_ext_src(&self.offset, SrcType::GPR) && check_ext_src(&self.data, SrcType::SSA)
    }

    /// Nothing is rewritten.
    open spec fn legalized(&self, b: BuilderState) -> (Self, BuilderState) {
        (*self, b)
    }

    open spec fn is_legal(&self) -> bool {
        &&& ext_src_ok(self.vtx, SrcType::GPR)
        &&& ext_src_ok(self.offset, SrcType::GPR)
        &&& ext_src_ok(self.data, SrcType::SSA)
    }

    fn legalize(&mut self, b: &mut LegalizeBuilder) {
        let srcs = [self.vtx, self.offset, self.data];
        let src_types = [SrcType::GPR, SrcType::GPR, SrcType::SSA];
        legalize_ext_instr(srcs.as_slice(), src_types.as_slice(), b);
    }

    /// As a load, and the access is to an output.
    open spec fn can_encode(&self, e: EncodeState) -> bool {
        &&& reg_src_ok(self.data)
        &&& reg_src_ok(self.offset)
        &&& reg_src_ok(self.vtx)
        &&& attr_access_ok(self.access)
        &&& self.access.output
    }

    /// Opcode 0xeff0; the data register takes the place of a
    /// destination.
    open spec fn encoded(&self, e: EncodeState) -> u64 {
        let w = put_opcode(e.word, 0xeff0);
        let w = put_reg_src_ref(w, 0, 8, self.data.src_ref);
        let w = put_reg_src_ref(w, 8, 16, self.offset.src_ref);
        let w = put_reg_src_ref(w, 39, 47, self.vtx.src_ref);
        put_attr_access(w, self.access)
    }

    fn encodable(&self, e: &SM50Encoder<'_>) -> (r: bool) {
        check_reg_src(&self.data) && check_reg_src(&self.offset) && check_reg_src(&self.vtx) && check_attr_access(&self.access) && self.access.output
    }

    fn encode(&self, e: &mut SM50Encoder<'_>) {
        e.set_opcode(0xeff0);
        e.set_reg_src(0, 8, self.data);
        e.set_reg_src(8, 16, self.offset);
        e.set_reg_src(39, 47, self.vtx);
        e.set_attr_access(&self.access);
    }
}

impl SM50Op for OpIpa {

    open spec fn can_legalize(&self, b: BuilderState) -> bool {
        &&& b.has_room(2)
        &&& copyable(self.offset, SrcType::GPR)
        &&& copyable(self.inv_w, SrcType::GPR)
    }

    fn legalizable(&self, b: &LegalizeBuilder) -> (r: bool) {
        b.room_for(2)
            && check_copyable(&self.offset, SrcType::GPR)
            && check_copyable(&self.inv_w, SrcType::GPR)
    }

    open spec fn legalized(&self, b: BuilderState) -> (Self, BuilderState) {
        let (b1, offset_1) = to_reg(b, self.offset, SrcType::GPR);
        let (b2, inv_w_2) = to_reg(b1, self.inv_w, SrcType::GPR);
        (OpIpa { offset: offset_1, inv_w: inv_w_2, ..*self }, b2)
    }

    open spec fn is_legal(&self) -> bool {
        &&& src_is_reg_spec(self.offset, RegFile::GPR)
        &&& src_is_reg_spec(self.inv_w, RegFile::GPR)
    }

    fn legalize(&mut self, b: &mut LegalizeBuilder) {
        let mut offset = self.offset;
        b.src_to_reg(&mut offset, SrcType::GPR);
        let mut inv_w = self.inv_w;
        b.src_to_reg(&mut inv_w, SrcType::GPR);
        self.offset = offset;
        self.inv_w = inv_w;
    }

    /// The address is a multiple of 4 of ten bits.
    open spec fn can_encode(&self, e: EncodeState) -> bool {
        &&& dst_ok(self.dst)
        &&& reg_src_ok(self.inv_w)
        &&& reg_src_ok(self.offset)
        &&& self.addr % 4 == 0
        &&& self.addr <= 0x3ff
    }

    /// Opcode 0xe000; the address register is always the zero
    /// register.
    open spec fn encoded(&self, e: EncodeState) -> u64 {
        let w = put_opcode(e.word, 0xe000);
        let w = put_dst(w, self.dst);
        let w = put_reg_src_ref(w, 8, 16, SrcRef::Zero);
        let w = put_reg_src_ref(w, 20, 28, self.inv_w.src_ref);
        let w = put_reg_src_ref(w, 39, 47, self.offset.src_ref);
        let w = with_field(w, 28, 38, self.addr as u64);
        let w = with_bit(w, 38, false);
        let w = put_pred_dst(w, 47, 50, Dst::Discard);
        let w = with_bit(w, 51, false);
        let w = with_field(w, 52, 54, interp_loc_bits(self.loc));
        with_field(w, 54, 56, interp_freq_bits(self.freq))
    }

    fn encodable(&self, e: &SM50Encoder<'_>) -> (r: bool) {
        check_dst(&self.dst) && check_reg_src(&self.inv_w) && check_reg_src(&self.offset) && self.addr % 4 == 0 && self.addr <= 0x3ff
    }

    fn encode(&self, e: &mut SM50Encoder<'_>) {
        proof {
            lemma_mask_values();
        }
        e.set_opcode(0xe000);
        e.set_dst(self.dst);
        e.set_reg_src(8, 16, crate::ir::Src::new_zero());  // addr
        e.set_reg_src(20, 28, self.inv_w);
        e.set_reg_src(39, 47, self.offset);
        e.set_field(28, 38, self.addr as u64);
        e.set_bit(38, false);  // .IDX
        e.set_pred_dst(47, 50, Dst::Discard);
        e.set_bit(51, false);  // .SAT
        e.set_field(
            52,
            54,
            match self.loc {
                InterpLoc::Center => 0,
                InterpLoc::Centroid => 1,
                InterpLoc::Offset => 2,
            },
        );
        e.set_field(
            54,
            56,
            match self.freq {
                InterpFreq::Pass => 0,
                InterpFreq::PassMulW => 1,
                InterpFreq::Constant => 2,
                InterpFreq::State => 3,
            },
        );
    }
}

impl SM50Op for OpMemBar {

    open spec fn can_legalize(&self, b: BuilderState) -> bool {
        true
    }

    fn legalizable(&self, b: &LegalizeBuilder) -> (r: bool) {
        true
    }

    /// Nothing is rewritten.
    open spec fn legalized(&self, b: BuilderState) -> (Self, BuilderState) {
        (*self, b)
    }

    open spec fn is_legal(&self) -> bool {
        true
    }

    fn legalize(&mut self, _b: &mut LegalizeBuilder) {
    }

    open spec fn can_encode(&self, e: EncodeState) -> bool {
        true
    }

    /// Opcode 0xef98; the scope in 8..10.
    open spec fn encoded(&self, e: EncodeState) -> u64 {
        with_field(put_opcode(e.word, 0xef98), 8, 10, membar_scope_bits(self.scope))
    }

    fn encodable(&self, e: &SM50Encoder<'_>) -> (r: bool) {
        true
    }

    fn encode(&self, e: &mut SM50Encoder<'_>) {
        proof {
            lemma_mask_values();
        }
        e.set_opcode(0xef98);
        e.set_field(
            8,
            10,
            match self.scope {
                MemScope::CTA => 0,
                MemScope::GPU => 1,
                MemScope::System => 2,
            },
        );
    }
}

} // verus!
