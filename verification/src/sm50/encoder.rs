//! The encoder state and the field writers that every operation shares.
//!
//! Each writer states the new instruction word as the old one with
//! fields replaced; the spec functions named `put_*` are those words.

use crate::bitview::{
    check_fits_signed, field, fits, fits_signed, join_words, lemma_mask_values, range_ok, set_field_u64, signed_bits,
    u64_mask_for_bits, u64_to_words, with_bit, with_field, words_to_u64,
};
use crate::ir::{CBuf, CBufRef, Dst, InstrDeps, Pred, PredRef, RegFile, RegRef, Src, SrcMod, SrcRef};
use crate::ops::{
    AtomOp, FloatCompare, FRndMode, ImageDim, IntCompare, MemAccess, MemAddrType, MemOrder, MemType,
    PredSetOp, TexDim, TexLodMode,
};
use std::collections::HashMap;
use vstd::prelude::*;

verus! {

broadcast use vstd::std_specs::hash::group_hash_axioms;

/// The distance that the hardware adds to a branch offset.
pub const BRANCH_LATENCY: i64 = 8;

/// The state of the encoder while it builds one instruction.
pub struct SM50Encoder<'a> {
    /// The shader model number.
    pub sm: u8,
    /// The address of the instruction in the stream.
    pub ip: usize,
    /// The address of each label, by label index.
    pub labels: &'a HashMap<u32, usize>,
    /// The instruction, low word first.
    pub inst: [u32; 2],
    /// The scheduling data of the instruction.
    pub sched: u32,
}

/// What an encoder holds, as plain values: the model, the address of
/// the instruction, the address of each label and the instruction word
/// so far.
pub struct EncodeState {
    pub sm: u8,
    pub ip: usize,
    pub labels: Map<u32, usize>,
    pub word: u64,
}

impl EncodeState {
    /// The state at the start of an instruction: the word is zero.
    pub open spec fn fresh(sm: u8, ip: usize, labels: Map<u32, usize>) -> EncodeState {
        EncodeState { sm, ip, labels, word: 0 }
    }
}

/// A general-purpose register that an 8-bit field can name.
pub open spec fn gpr_ok(reg: RegRef) -> bool {
    reg.file == RegFile::GPR && reg.base_idx <= 255
}

/// A single predicate register that a 3-bit field can name.
pub open spec fn pred_reg_ok(reg: RegRef) -> bool {
    reg.file == RegFile::Pred && reg.base_idx <= 7 && reg.comps == 1
}

/// The zero register or a general-purpose register.
pub open spec fn reg_ref_ok(src_ref: SrcRef) -> bool {
    match src_ref {
        SrcRef::Zero => true,
        SrcRef::Reg(reg) => gpr_ok(reg),
        _ => false,
    }
}

/// An unmodified register source.
pub open spec fn reg_src_ok(src: Src) -> bool {
    reg_ref_ok(src.src_ref) && src.src_mod == SrcMod::Plain
}

/// A register source with at most a floating-point modifier.
pub open spec fn reg_fmod_src_ok(src: Src) -> bool {
    reg_ref_ok(src.src_ref) && src.src_mod.is_float()
}

/// A register source with at most integer negation.
pub open spec fn reg_ineg_src_ok(src: Src) -> bool {
    reg_ref_ok(src.src_ref) && src.src_mod.is_int()
}

/// A bound constant buffer whose slot fits 5 bits, at an offset that
/// is a multiple of 4.
pub open spec fn cb_ok(cb: CBufRef) -> bool {
    cb.offset % 4 == 0 && match cb.buf {
        CBuf::Binding(idx) => idx <= 31,
        _ => false,
    }
}

/// A constant-buffer source with at most a floating-point modifier.
pub open spec fn cb_fmod_src_ok(src: Src) -> bool {
    src.src_mod.is_float() && match src.src_ref {
        SrcRef::CBuf(cb) => cb_ok(cb),
        _ => false,
    }
}

/// A constant-buffer source with at most integer negation.
pub open spec fn cb_ineg_src_ok(src: Src) -> bool {
    src.src_mod.is_int() && match src.src_ref {
        SrcRef::CBuf(cb) => cb_ok(cb),
        _ => false,
    }
}

/// A predicate source: true, false or a predicate register, with at
/// most a bitwise not.
pub open spec fn pred_src_ok(src: Src) -> bool {
    src.src_mod.is_bitwise() && match src.src_ref {
        SrcRef::True => true,
        SrcRef::False => true,
        SrcRef::Reg(reg) => pred_reg_ok(reg),
        _ => false,
    }
}

/// A predicate destination: none or a predicate register.
pub open spec fn pred_dst_ok(dst: Dst) -> bool {
    match dst {
        Dst::Discard => true,
        Dst::Reg(reg) => pred_reg_ok(reg),
        _ => false,
    }
}

/// A destination: none or a general-purpose register.
pub open spec fn dst_ok(dst: Dst) -> bool {
    match dst {
        Dst::Discard => true,
        Dst::Reg(reg) => gpr_ok(reg),
        _ => false,
    }
}

/// A guard that can be encoded: not the constant false, and in a
/// predicate register if in any.
pub open spec fn pred_ok(pred: Pred) -> bool {
    !pred.is_false_spec() && match pred.pred_ref {
        PredRef::Always => true,
        PredRef::Reg(reg) => pred_reg_ok(reg),
        PredRef::SSA(_) => false,
    }
}

/// Scheduling data whose every part fits its field.
pub open spec fn deps_ok(deps: InstrDeps) -> bool {
    &&& deps.delay <= 0xf
    &&& deps.wr_bar <= 7
    &&& deps.rd_bar <= 7
    &&& deps.wt_bar_mask <= 0x3f
    &&& deps.reuse_mask <= 0xf
}

/// The number that names `src_ref` in a register field: the zero
/// register is 255.
pub open spec fn reg_ref_idx(src_ref: SrcRef) -> u64 {
    match src_ref {
        SrcRef::Reg(reg) => reg.base_idx as u64,
        _ => 255,
    }
}

/// The number that names a destination in a register field.
pub open spec fn dst_idx(dst: Dst) -> u64 {
    match dst {
        Dst::Reg(reg) => reg.base_idx as u64,
        _ => 255,
    }
}

/// The number that names a predicate destination: none is register 7.
pub open spec fn pred_dst_idx(dst: Dst) -> u64 {
    match dst {
        Dst::Reg(reg) => reg.base_idx as u64,
        _ => 7,
    }
}

/// The register that a predicate source names: true and false both
/// name register 7, which always reads true.
pub open spec fn pred_src_idx(src: Src) -> u64 {
    match src.src_ref {
        SrcRef::Reg(reg) => reg.base_idx as u64,
        _ => 7,
    }
}

/// Whether a predicate source is read inverted: false is true
/// inverted, and a bitwise not inverts once more.
pub open spec fn pred_src_not(src: Src) -> bool {
    (src.src_ref is False) != (src.src_mod == SrcMod::BNot)
}

pub open spec fn bool_bits(b: bool) -> u64 {
    if b {
        1
    } else {
        0
    }
}

pub open spec fn rnd_mode_bits(rnd_mode: FRndMode) -> u64 {
    match rnd_mode {
        FRndMode::NearestEven => 0,
        FRndMode::NegInf => 1,
        FRndMode::PosInf => 2,
        FRndMode::Zero => 3,
    }
}

pub open spec fn float_compare_bits(op: FloatCompare) -> u64 {
    match op {
        FloatCompare::OrdLt => 0x01,
        FloatCompare::OrdEq => 0x02,
        FloatCompare::OrdLe => 0x03,
        FloatCompare::OrdGt => 0x04,
        FloatCompare::OrdNe => 0x05,
        FloatCompare::OrdGe => 0x06,
        FloatCompare::UnordLt => 0x09,
        FloatCompare::UnordEq => 0x0a,
        FloatCompare::UnordLe => 0x0b,
        FloatCompare::UnordGt => 0x0c,
        FloatCompare::UnordNe => 0x0d,
        FloatCompare::UnordGe => 0x0e,
        FloatCompare::IsNum => 0x07,
        FloatCompare::IsNan => 0x08,
    }
}

pub open spec fn pred_set_op_bits(op: PredSetOp) -> u64 {
    match op {
        PredSetOp::And => 0,
        PredSetOp::Or => 1,
        PredSetOp::Xor => 2,
    }
}

pub open spec fn int_compare_bits(op: IntCompare) -> u64 {
    match op {
        IntCompare::Eq => 2,
        IntCompare::Ne => 5,
        IntCompare::Lt => 1,
        IntCompare::Le => 3,
        IntCompare::Gt => 4,
        IntCompare::Ge => 6,
    }
}

pub open spec fn tex_dim_bits(dim: TexDim) -> u64 {
    match dim {
        TexDim::_1D => 0,
        TexDim::Array1D => 1,
        TexDim::_2D => 2,
        TexDim::Array2D => 3,
        TexDim::_3D => 4,
        TexDim::Cube => 6,
        TexDim::ArrayCube => 7,
    }
}

/// The level-of-detail modes that the family can encode.
pub open spec fn tex_lod_mode_ok(lod_mode: TexLodMode) -> bool {
    lod_mode != TexLodMode::Clamp && lod_mode != TexLodMode::BiasClamp
}

pub open spec fn tex_lod_mode_bits(lod_mode: TexLodMode) -> u64 {
    match lod_mode {
        TexLodMode::Auto => 0,
        TexLodMode::Zero => 1,
        TexLodMode::Bias => 2,
        _ => 3,
    }
}

pub open spec fn mem_type_bits(mem_type: MemType) -> u64 {
    match mem_type {
        MemType::U8 => 0,
        MemType::I8 => 1,
        MemType::U16 => 2,
        MemType::I16 => 3,
        MemType::B32 => 4,
        MemType::B64 => 5,
        MemType::B128 => 6,
    }
}

pub open spec fn addr_type_bits(addr_type: MemAddrType) -> u64 {
    match addr_type {
        MemAddrType::A32 => 0,
        MemAddrType::A64 => 1,
    }
}

pub open spec fn image_dim_bits(dim: ImageDim) -> u64 {
    match dim {
        ImageDim::_1D => 0,
        ImageDim::_1DBuffer => 1,
        ImageDim::_1DArray => 2,
        ImageDim::_2D => 3,
        ImageDim::_2DArray => 4,
        ImageDim::_3D => 5,
    }
}

/// The number of an atomic operation; compare-and-exchange has none
/// in this field.
pub open spec fn atom_op_bits(atom_op: AtomOp) -> u64 {
    match atom_op {
        AtomOp::Add => 0,
        AtomOp::Min => 1,
        AtomOp::Max => 2,
        AtomOp::Inc => 3,
        AtomOp::Dec => 4,
        AtomOp::And => 5,
        AtomOp::Or => 6,
        AtomOp::Xor => 7,
        _ => 8,
    }
}

pub open spec fn put_opcode(w: u64, opcode: u16) -> u64 {
    with_field(w, 48, 64, opcode as u64)
}

pub open spec fn put_reg_src_ref(w: u64, lo: u32, hi: u32, src_ref: SrcRef) -> u64 {
    with_field(w, lo, hi, reg_ref_idx(src_ref))
}

pub open spec fn put_reg_fmod_src(w: u64, lo: u32, hi: u32, abs_bit: u32, neg_bit: u32, src: Src) -> u64 {
    with_bit(
        with_bit(put_reg_src_ref(w, lo, hi, src.src_ref), abs_bit, src.src_mod.fabs_spec()),
        neg_bit,
        src.src_mod.fneg_spec(),
    )
}

pub open spec fn put_reg_ineg_src(w: u64, lo: u32, hi: u32, neg_bit: u32, src: Src) -> u64 {
    with_bit(put_reg_src_ref(w, lo, hi, src.src_ref), neg_bit, src.src_mod == SrcMod::INeg)
}

pub open spec fn put_pred_dst(w: u64, lo: u32, hi: u32, dst: Dst) -> u64 {
    with_field(w, lo, hi, pred_dst_idx(dst))
}

pub open spec fn put_pred_src(w: u64, lo: u32, hi: u32, not_bit: u32, src: Src) -> u64 {
    with_bit(with_field(w, lo, hi, pred_src_idx(src)), not_bit, pred_src_not(src))
}

pub open spec fn put_dst(w: u64, dst: Dst) -> u64 {
    with_field(w, 0, 8, dst_idx(dst))
}

/// The guard: its register in bits 16..19, its inversion in bit 19.
pub open spec fn put_pred(w: u64, pred: Pred) -> u64 {
    with_bit(
        with_field(
            w,
            16,
            19,
            match pred.pred_ref {
                PredRef::Reg(reg) => reg.base_idx as u64,
                _ => 7,
            },
        ),
        19,
        pred.pred_inv,
    )
}

/// A short signed immediate: its low 19 bits in `lo..hi`, its sign in
/// `sign_bit`.
pub open spec fn put_src_imm_i20(w: u64, lo: u32, hi: u32, sign_bit: u32, i: u32) -> u64 {
    with_field(
        with_field(w, lo, hi, (i & 0x7ffff) as u64),
        sign_bit,
        (sign_bit + 1) as u32,
        ((i & 0x80000) >> 19) as u64,
    )
}

/// A short floating-point immediate: bits 12..31 of the float in
/// `lo..hi`, its sign in `sign_bit`.
pub open spec fn put_src_imm_f20(w: u64, lo: u32, hi: u32, sign_bit: u32, f: u32) -> u64 {
    with_field(
        with_field(w, lo, hi, ((f >> 12) & 0x7ffff) as u64),
        sign_bit,
        (sign_bit + 1) as u32,
        (f >> 31) as u64,
    )
}

pub open spec fn cb_idx(cb: CBufRef) -> u64 {
    match cb.buf {
        CBuf::Binding(idx) => idx as u64,
        _ => 0,
    }
}

/// A constant-buffer reference in the 19 bits from `lo`: the offset in
/// words in the low 14, the slot in the 5 above.
pub open spec fn put_src_cb(w: u64, lo: u32, cb: CBufRef) -> u64 {
    with_field(
        with_field(w, lo, (lo + 14) as u32, (cb.offset >> 2) as u64),
        (lo + 14) as u32,
        (lo + 19) as u32,
        cb_idx(cb),
    )
}

pub open spec fn src_cb(src: Src) -> CBufRef {
    match src.src_ref {
        SrcRef::CBuf(cb) => cb,
        _ => CBufRef { buf: CBuf::Binding(0), offset: 0 },
    }
}

pub open spec fn put_cb_fmod_src(w: u64, lo: u32, abs_bit: u32, neg_bit: u32, src: Src) -> u64 {
    with_bit(
        with_bit(put_src_cb(w, lo, src_cb(src)), abs_bit, src.src_mod.fabs_spec()),
        neg_bit,
        src.src_mod.fneg_spec(),
    )
}

pub open spec fn put_cb_ineg_src(w: u64, lo: u32, neg_bit: u32, src: Src) -> u64 {
    with_bit(put_src_cb(w, lo, src_cb(src)), neg_bit, src.src_mod == SrcMod::INeg)
}

/// The address width in bit 45 and the memory type in bits 48..51.
pub open spec fn put_mem_access(w: u64, access: MemAccess) -> u64 {
    with_field(
        with_field(w, 45, 46, addr_type_bits(access.space.addr_type_spec())),
        48,
        51,
        mem_type_bits(access.mem_type),
    )
}

pub open spec fn bar_bits(bar: i8) -> u64 {
    if bar < 0 {
        7
    } else {
        bar as u64
    }
}

/// The 21 bits of scheduling data: delay, yield, write barrier, read
/// barrier (7 for none), wait mask, reuse mask.
pub open spec fn sched_bits(deps: InstrDeps) -> u64 {
    with_field(
        with_field(
            with_field(
                with_field(
                    with_bit(with_field(0, 0, 4, deps.delay as u64), 4, deps.yld),
                    5,
                    8,
                    bar_bits(deps.wr_bar),
                ),
                8,
                11,
                bar_bits(deps.rd_bar),
            ),
            11,
            17,
            deps.wt_bar_mask as u64,
        ),
        17,
        21,
        deps.reuse_mask as u64,
    )
}

/// A branch from `ip` to `target_ip` has an offset that fits the
/// signed field `lo..hi`, and both addresses fit 31 bits.
pub open spec fn rel_offset_ok(ip: usize, target_ip: usize, lo: u32, hi: u32) -> bool {
    &&& ip <= 0x7fff_ffff
    &&& target_ip <= 0x7fff_ffff
    &&& fits_signed(rel_offset(ip, target_ip), lo, hi)
}

/// The branch offset: the target less the branch's own address less
/// the pipeline latency.
pub open spec fn rel_offset(ip: usize, target_ip: usize) -> i64 {
    (target_ip - ip - BRANCH_LATENCY) as i64
}

impl<'a> SM50Encoder<'a> {
    /// The instruction as one 64-bit word.
    pub open spec fn word(self) -> u64 {
        join_words(self.inst[0], self.inst[1])
    }

    /// Everything but the instruction word is as in `other`.
    pub open spec fn same_context(self, other: Self) -> bool {
        &&& self.sm == other.sm
        &&& self.ip == other.ip
        &&& self.labels == other.labels
        &&& self.sched == other.sched
    }

    /// The encoder's state as plain values.
    pub open spec fn state(self) -> EncodeState {
        EncodeState { sm: self.sm, ip: self.ip, labels: self.labels@, word: self.word() }
    }

    /// A fresh encoder: instruction and scheduling data all zero.
    pub fn new(sm: u8, ip: usize, labels: &'a HashMap<u32, usize>) -> (e: Self)
        ensures
            e.state() == EncodeState::fresh(sm, ip, labels@),
            e.labels == labels,
            e.sched == 0,
    {
        assert(join_words(0, 0) == 0) by (bit_vector);
        SM50Encoder { sm, ip, labels, inst: [0, 0], sched: 0 }
    }

    /// Reads the bits `lo..hi` of the instruction.
    pub fn get_bit_range_u64(&self, lo: u32, hi: u32) -> (val: u64)
        requires
            range_ok(lo, hi),
        ensures
            val == field(self.word(), lo, hi),
    {
        crate::bitview::get_bit_range_u64(words_to_u64(self.inst), lo, hi)
    }

    /// Replaces the bits `lo..hi` of the instruction by the low bits of
    /// `val`.
    pub fn set_bit_range_u64(&mut self, lo: u32, hi: u32, val: u64)
        requires
            range_ok(lo, hi),
        ensures
            final(self).word() == with_field(old(self).word(), lo, hi, val),
            final(self).same_context(*old(self)),
    {
        let w: u64 = crate::bitview::set_bit_range_u64(words_to_u64(self.inst), lo, hi, val);
        self.inst = u64_to_words(w);
    }

    /// Writes `val`, which fits, to the bits `lo..hi`.
    pub fn set_field(&mut self, lo: u32, hi: u32, val: u64)
        requires
            range_ok(lo, hi),
            fits(val, lo, hi),
        ensures
            final(self).word() == with_field(old(self).word(), lo, hi, val),
            field(final(self).word(), lo, hi) == val,
            final(self).same_context(*old(self)),
    {
        let w: u64 = set_field_u64(words_to_u64(self.inst), lo, hi, val);
        self.inst = u64_to_words(w);
    }

    /// Writes the signed `val`, which fits, to the bits `lo..hi` in
    /// two's complement.
    pub fn set_field_signed(&mut self, lo: u32, hi: u32, val: i64)
        requires
            range_ok(lo, hi),
            fits_signed(val, lo, hi),
        ensures
            final(self).word() == with_field(old(self).word(), lo, hi, signed_bits(val, lo, hi)),
            final(self).same_context(*old(self)),
    {
        let mask: u64 = u64_mask_for_bits(hi - lo);
        let bits: u64 = (#[verifier::truncate] (val as u64)) & mask;
        assert(bits <= mask) by (bit_vector)
            requires
                bits == (val as u64) & mask,
        ;
        self.set_field(lo, hi, bits);
    }

    /// Writes one bit.
    pub fn set_bit(&mut self, bit: u32, val: bool)
        requires
            bit < 64,
        ensures
            final(self).word() == with_bit(old(self).word(), bit, val),
            final(self).same_context(*old(self)),
    {
        proof {
            lemma_mask_values();
        }
        self.set_field(
            bit,
            bit + 1,
            if val {
                1
            } else {
                0
            },
        );
    }

    /// Writes the opcode to the top 16 bits.
    pub fn set_opcode(&mut self, opcode: u16)
        ensures
            final(self).word() == put_opcode(old(self).word(), opcode),
            final(self).same_context(*old(self)),
    {
        proof {
            lemma_mask_values();
        }
        self.set_field(48, 64, opcode as u64);
    }

    /// Writes a predicate register's index to a 3-bit field.
    pub fn set_pred_reg(&mut self, lo: u32, hi: u32, reg: RegRef)
        requires
            hi == lo + 3,
            hi <= 64,
            pred_reg_ok(reg),
        ensures
            final(self).word() == with_field(old(self).word(), lo, hi, reg.base_idx as u64),
            final(self).same_context(*old(self)),
    {
        proof {
            lemma_mask_values();
        }
        self.set_field(lo, hi, reg.base_idx() as u64);
    }

    /// Writes the guard of the instruction.
    pub fn set_pred(&mut self, pred: &Pred)
        requires
            pred_ok(*pred),
        ensures
            final(self).word() == put_pred(old(self).word(), *pred),
            final(self).same_context(*old(self)),
    {
        let reg: RegRef = match pred.pred_ref {
            PredRef::Reg(reg) => reg,
            _ => RegRef::zero(RegFile::Pred, 1),
        };
        self.set_pred_reg(16, 19, reg);
        self.set_bit(19, pred.pred_inv);
    }

    /// Writes the scheduling data of the instruction.
    pub fn set_instr_deps(&mut self, deps: &InstrDeps)
        requires
            deps_ok(*deps),
        ensures
            final(self).sched == sched_bits(*deps),
            final(self).word() == old(self).word(),
            final(self).sm == old(self).sm,
            final(self).ip == old(self).ip,
            final(self).labels == old(self).labels,
    {
        proof {
            lemma_mask_values();
        }
        let wr: u64 = match deps.wr_bar() {
            Some(b) => b as u64,
            None => 7,
        };
        let rd: u64 = match deps.rd_bar() {
            Some(b) => b as u64,
            None => 7,
        };
        let mut s: u64 = 0;
        s = set_field_u64(s, 0, 4, deps.delay as u64);
        s = set_field_u64(
            s,
            4,
            5,
            if deps.yld {
                1
            } else {
                0
            },
        );
        s = set_field_u64(s, 5, 8, wr);
        s = set_field_u64(s, 8, 11, rd);
        s = set_field_u64(s, 11, 17, deps.wt_bar_mask as u64);
        s = set_field_u64(s, 17, 21, deps.reuse_mask as u64);
        proof {
            lemma_sched_bits_fit(*deps);
        }
        self.sched = s as u32;
    }

    /// Writes a general-purpose register's index to an 8-bit field.
    pub fn set_reg(&mut self, lo: u32, hi: u32, reg: RegRef)
        requires
            hi == lo + 8,
            hi <= 64,
            gpr_ok(reg),
        ensures
            final(self).word() == with_field(old(self).word(), lo, hi, reg.base_idx as u64),
            final(self).same_context(*old(self)),
    {
        proof {
            lemma_mask_values();
        }
        self.set_field(lo, hi, reg.base_idx() as u64);
    }

    /// Writes the register that `src_ref` names; zero is register 255.
    pub fn set_reg_src_ref(&mut self, lo: u32, hi: u32, src_ref: SrcRef)
        requires
            hi == lo + 8,
            hi <= 64,
            reg_ref_ok(src_ref),
        ensures
            final(self).word() == put_reg_src_ref(old(self).word(), lo, hi, src_ref),
            final(self).same_context(*old(self)),
    {
        match src_ref {
            SrcRef::Reg(reg) => self.set_reg(lo, hi, reg),
            _ => self.set_reg(lo, hi, RegRef::zero(RegFile::GPR, 1)),
        }
    }

    /// Writes an unmodified register source.
    pub fn set_reg_src(&mut self, lo: u32, hi: u32, src: Src)
        requires
            hi == lo + 8,
            hi <= 64,
            reg_src_ok(src),
        ensures
            final(self).word() == put_reg_src_ref(old(self).word(), lo, hi, src.src_ref),
            final(self).same_context(*old(self)),
    {
        self.set_reg_src_ref(lo, hi, src.src_ref);
    }

    /// Writes a register source and its absolute-value and negation
    /// flags.
    pub fn set_reg_fmod_src(&mut self, lo: u32, hi: u32, abs_bit: u32, neg_bit: u32, src: Src)
        requires
            hi == lo + 8,
            hi <= 64,
            abs_bit < 64,
            neg_bit < 64,
            reg_fmod_src_ok(src),
        ensures
            final(self).word() == put_reg_fmod_src(
                old(self).word(),
                lo,
                hi,
                abs_bit,
                neg_bit,
                src,
            ),
            final(self).same_context(*old(self)),
    {
        self.set_reg_src_ref(lo, hi, src.src_ref);
        self.set_bit(abs_bit, src.src_mod.has_fabs());
        self.set_bit(neg_bit, src.src_mod.has_fneg());
    }

    /// Writes a register source and its negation flag.
    pub fn set_reg_ineg_src(&mut self, lo: u32, hi: u32, neg_bit: u32, src: Src)
        requires
            hi == lo + 8,
            hi <= 64,
            neg_bit < 64,
            reg_ineg_src_ok(src),
        ensures
            final(self).word() == put_reg_ineg_src(old(self).word(), lo, hi, neg_bit, src),
            final(self).same_context(*old(self)),
    {
        self.set_reg_src_ref(lo, hi, src.src_ref);
        self.set_bit(neg_bit, src.src_mod.is_ineg());
    }

    /// Writes a predicate destination; none is register 7.
    pub fn set_pred_dst(&mut self, lo: u32, hi: u32, dst: Dst)
        requires
            hi == lo + 3,
            hi <= 64,
            pred_dst_ok(dst),
        ensures
            final(self).word() == put_pred_dst(old(self).word(), lo, hi, dst),
            final(self).same_context(*old(self)),
    {
        match dst {
            Dst::Reg(reg) => self.set_pred_reg(lo, hi, reg),
            _ => self.set_pred_reg(lo, hi, RegRef::zero(RegFile::Pred, 1)),
        }
    }

    /// Writes a predicate source and its inversion flag.
    pub fn set_pred_src(&mut self, lo: u32, hi: u32, not_bit: u32, src: Src)
        requires
            hi == lo + 3,
            hi <= 64,
            not_bit < 64,
            pred_src_ok(src),
        ensures
            final(self).word() == put_pred_src(old(self).word(), lo, hi, not_bit, src),
            final(self).same_context(*old(self)),
    {
        // The default for predicates is true
        let true_reg: RegRef = RegRef::new(RegFile::Pred, 7, 1);
        let (not, reg): (bool, RegRef) = match src.src_ref {
            SrcRef::False => (true, true_reg),
            SrcRef::Reg(reg) => (false, reg),
            _ => (false, true_reg),
        };
        self.set_pred_reg(lo, hi, reg);
        self.set_bit(not_bit, not != src.src_mod.is_bnot());
    }

    /// Writes the destination register to bits 0..8; none is register
    /// 255.
    pub fn set_dst(&mut self, dst: Dst)
        requires
            dst_ok(dst),
        ensures
            final(self).word() == put_dst(old(self).word(), dst),
            final(self).same_context(*old(self)),
    {
        let reg: RegRef = match dst {
            Dst::Reg(reg) => reg,
            _ => RegRef::zero(RegFile::GPR, 1),
        };
        self.set_reg(0, 8, reg);
    }

    /// Writes a full 32-bit immediate.
    pub fn set_src_imm32(&mut self, lo: u32, hi: u32, u: u32)
        requires
            hi == lo + 32,
            hi <= 64,
        ensures
            final(self).word() == with_field(old(self).word(), lo, hi, u as u64),
            final(self).same_context(*old(self)),
    {
        proof {
            lemma_mask_values();
        }
        self.set_field(lo, hi, u as u64);
    }

    /// Writes a short signed immediate: the bits that are dropped are
    /// copies of the sign.
    pub fn set_src_imm_i20(&mut self, lo: u32, hi: u32, sign_bit: u32, i: u32)
        requires
            hi == lo + 19,
            hi <= 64,
            sign_bit < 64,
            Src::i20_ok(i),
        ensures
            final(self).word() == put_src_imm_i20(old(self).word(), lo, hi, sign_bit, i),
            final(self).same_context(*old(self)),
    {
        proof {
            lemma_mask_values();
        }
        let low: u32 = i & 0x7ffff;
        let sign: u32 = (i & 0x80000) >> 19;
        assert(low <= 0x7ffff && sign <= 1) by (bit_vector)
            requires
                low == i & 0x7ffff,
                sign == (i & 0x80000) >> 19,
        ;
        self.set_field(lo, hi, low as u64);
        self.set_field(sign_bit, sign_bit + 1, sign as u64);
    }

    /// Writes a short floating-point immediate: the bits that are
    /// dropped are zero.
    pub fn set_src_imm_f20(&mut self, lo: u32, hi: u32, sign_bit: u32, f: u32)
        requires
            hi == lo + 19,
            hi <= 64,
            sign_bit < 64,
            Src::f20_ok(f),
        ensures
            final(self).word() == put_src_imm_f20(old(self).word(), lo, hi, sign_bit, f),
            final(self).same_context(*old(self)),
    {
        proof {
            lemma_mask_values();
        }
        let low: u32 = (f >> 12) & 0x7ffff;
        let sign: u32 = f >> 31;
        assert(low <= 0x7ffff && sign <= 1) by (bit_vector)
            requires
                low == (f >> 12) & 0x7ffff,
                sign == f >> 31,
        ;
        self.set_field(lo, hi, low as u64);
        self.set_field(sign_bit, sign_bit + 1, sign as u64);
    }

    /// Writes a constant-buffer reference to the 19 bits from `lo`.
    pub fn set_src_cb(&mut self, lo: u32, hi: u32, cb: &CBufRef)
        requires
            hi == lo + 19,
            hi <= 64,
            cb_ok(*cb),
        ensures
            final(self).word() == put_src_cb(old(self).word(), lo, *cb),
            final(self).same_context(*old(self)),
    {
        proof {
            lemma_mask_values();
        }
        let byte_off: u16 = cb.offset;
        let off: u16 = byte_off >> 2;
        assert(off <= 0x3fff) by (bit_vector)
            requires
                off == byte_off >> 2,
        ;
        let idx: u8 = match cb.buf {
            CBuf::Binding(idx) => idx,
            _ => 0,
        };
        self.set_field(lo, lo + 14, off as u64);
        self.set_field(lo + 14, lo + 19, idx as u64);
    }

    /// Writes a constant-buffer source and its absolute-value and
    /// negation flags.
    pub fn set_cb_fmod_src(&mut self, lo: u32, hi: u32, abs_bit: u32, neg_bit: u32, src: Src)
        requires
            hi == lo + 19,
            hi <= 64,
            abs_bit < 64,
            neg_bit < 64,
            cb_fmod_src_ok(src),
        ensures
            final(self).word() == put_cb_fmod_src(old(self).word(), lo, abs_bit, neg_bit, src),
            final(self).same_context(*old(self)),
    {
        match src.src_ref {
            SrcRef::CBuf(cb) => {
                self.set_src_cb(lo, hi, &cb);
            },
            _ => {},
        }
        self.set_bit(abs_bit, src.src_mod.has_fabs());
        self.set_bit(neg_bit, src.src_mod.has_fneg());
    }

    /// Writes a constant-buffer source and its negation flag.
    pub fn set_cb_ineg_src(&mut self, lo: u32, hi: u32, neg_bit: u32, src: Src)
        requires
            hi == lo + 19,
            hi <= 64,
            neg_bit < 64,
            cb_ineg_src_ok(src),
        ensures
            final(self).word() == put_cb_ineg_src(old(self).word(), lo, neg_bit, src),
            final(self).same_context(*old(self)),
    {
        match src.src_ref {
            SrcRef::CBuf(cb) => {
                self.set_src_cb(lo, hi, &cb);
            },
            _ => {},
        }
        self.set_bit(neg_bit, src.src_mod.is_ineg());
    }

    pub fn set_rnd_mode(&mut self, lo: u32, hi: u32, rnd_mode: FRndMode)
        requires
            hi == lo + 2,
            hi <= 64,
        ensures
            final(self).word() == with_field(old(self).word(), lo, hi, rnd_mode_bits(rnd_mode)),
            final(self).same_context(*old(self)),
    {
        proof {
            lemma_mask_values();
        }
        let v: u64 = match rnd_mode {
            FRndMode::NearestEven => 0,
            FRndMode::NegInf => 1,
            FRndMode::PosInf => 2,
            FRndMode::Zero => 3,
        };
        self.set_field(lo, hi, v);
    }

    pub fn set_float_compare_op(&mut self, lo: u32, hi: u32, op: FloatCompare)
        requires
            hi == lo + 4,
            hi <= 64,
        ensures
            final(self).word() == with_field(old(self).word(), lo, hi, float_compare_bits(op)),
            final(self).same_context(*old(self)),
    {
        proof {
            lemma_mask_values();
        }
        let v: u64 = match op {
            FloatCompare::OrdLt => 0x01,
            FloatCompare::OrdEq => 0x02,
            FloatCompare::OrdLe => 0x03,
            FloatCompare::OrdGt => 0x04,
            FloatCompare::OrdNe => 0x05,
            FloatCompare::OrdGe => 0x06,
            FloatCompare::UnordLt => 0x09,
            FloatCompare::UnordEq => 0x0a,
            FloatCompare::UnordLe => 0x0b,
            FloatCompare::UnordGt => 0x0c,
            FloatCompare::UnordNe => 0x0d,
            FloatCompare::UnordGe => 0x0e,
            FloatCompare::IsNum => 0x07,
            FloatCompare::IsNan => 0x08,
        };
        self.set_field(lo, hi, v);
    }

    pub fn set_pred_set_op(&mut self, lo: u32, hi: u32, op: PredSetOp)
        requires
            hi == lo + 2,
            hi <= 64,
        ensures
            final(self).word() == with_field(old(self).word(), lo, hi, pred_set_op_bits(op)),
            final(self).same_context(*old(self)),
    {
        proof {
            lemma_mask_values();
        }
        let v: u64 = match op {
            PredSetOp::And => 0,
            PredSetOp::Or => 1,
            PredSetOp::Xor => 2,
        };
        self.set_field(lo, hi, v);
    }

    pub fn set_int_compare_op(&mut self, lo: u32, hi: u32, op: IntCompare)
        requires
            hi == lo + 3,
            hi <= 64,
        ensures
            final(self).word() == with_field(old(self).word(), lo, hi, int_compare_bits(op)),
            final(self).same_context(*old(self)),
    {
        proof {
            lemma_mask_values();
        }
        let v: u64 = match op {
            IntCompare::Eq => 2,
            IntCompare::Ne => 5,
            IntCompare::Lt => 1,
            IntCompare::Le => 3,
            IntCompare::Gt => 4,
            IntCompare::Ge => 6,
        };
        self.set_field(lo, hi, v);
    }

    pub fn set_tex_dim(&mut self, lo: u32, hi: u32, dim: TexDim)
        requires
            hi == lo + 3,
            hi <= 64,
        ensures
            final(self).word() == with_field(old(self).word(), lo, hi, tex_dim_bits(dim)),
            final(self).same_context(*old(self)),
    {
        proof {
            lemma_mask_values();
        }
        let v: u64 = match dim {
            TexDim::_1D => 0,
            TexDim::Array1D => 1,
            TexDim::_2D => 2,
            TexDim::Array2D => 3,
            TexDim::_3D => 4,
            TexDim::Cube => 6,
            TexDim::ArrayCube => 7,
        };
        self.set_field(lo, hi, v);
    }

    pub fn set_tex_lod_mode(&mut self, lo: u32, hi: u32, lod_mode: TexLodMode)
        requires
            hi == lo + 2,
            hi <= 64,
            tex_lod_mode_ok(lod_mode),
        ensures
            final(self).word() == with_field(
                old(self).word(),
                lo,
                hi,
                tex_lod_mode_bits(lod_mode),
            ),
            final(self).same_context(*old(self)),
    {
        proof {
            lemma_mask_values();
        }
        let v: u64 = match lod_mode {
            TexLodMode::Auto => 0,
            TexLodMode::Zero => 1,
            TexLodMode::Bias => 2,
            _ => 3,
        };
        self.set_field(lo, hi, v);
    }

    pub fn set_mem_type(&mut self, lo: u32, hi: u32, mem_type: MemType)
        requires
            hi == lo + 3,
            hi <= 64,
        ensures
            final(self).word() == with_field(old(self).word(), lo, hi, mem_type_bits(mem_type)),
            final(self).same_context(*old(self)),
    {
        proof {
            lemma_mask_values();
        }
        let v: u64 = match mem_type {
            MemType::U8 => 0,
            MemType::I8 => 1,
            MemType::U16 => 2,
            MemType::I16 => 3,
            MemType::B32 => 4,
            MemType::B64 => 5,
            MemType::B128 => 6,
        };
        self.set_field(lo, hi, v);
    }

    /// Memory order and scope have no encoding in this family: nothing
    /// is written.
    pub fn set_mem_order(&mut self, _order: &MemOrder)
        ensures
            *final(self) == *old(self),
    {
    }

    /// Writes the address width and the type of a memory access.
    pub fn set_mem_access(&mut self, access: &MemAccess)
        ensures
            final(self).word() == put_mem_access(old(self).word(), *access),
            final(self).same_context(*old(self)),
    {
        proof {
            lemma_mask_values();
        }
        let v: u64 = match access.space.addr_type() {
            MemAddrType::A32 => 0,
            MemAddrType::A64 => 1,
        };
        self.set_field(45, 46, v);
        self.set_mem_type(48, 51, access.mem_type);
        self.set_mem_order(&access.order);
    }

    pub fn set_image_dim(&mut self, lo: u32, hi: u32, dim: ImageDim)
        requires
            hi == lo + 3,
            hi <= 64,
        ensures
            final(self).word() == with_field(old(self).word(), lo, hi, image_dim_bits(dim)),
            final(self).same_context(*old(self)),
    {
        proof {
            lemma_mask_values();
        }
        let v: u64 = match dim {
            ImageDim::_1D => 0,
            ImageDim::_1DBuffer => 1,
            ImageDim::_1DArray => 2,
            ImageDim::_2D => 3,
            ImageDim::_2DArray => 4,
            ImageDim::_3D => 5,
        };
        self.set_field(lo, hi, v);
    }

    /// Writes an atomic operation other than compare-and-exchange.
    pub fn set_atom_op(&mut self, lo: u32, hi: u32, atom_op: AtomOp)
        requires
            hi == lo + 4,
            hi <= 64,
            atom_op != AtomOp::CompareExch,
        ensures
            final(self).word() == with_field(old(self).word(), lo, hi, atom_op_bits(atom_op)),
            final(self).same_context(*old(self)),
    {
        proof {
            lemma_mask_values();
        }
        let v: u64 = match atom_op {
            AtomOp::Add => 0,
            AtomOp::Min => 1,
            AtomOp::Max => 2,
            AtomOp::Inc => 3,
            AtomOp::Dec => 4,
            AtomOp::And => 5,
            AtomOp::Or => 6,
            AtomOp::Xor => 7,
            _ => 8,
        };
        self.set_field(lo, hi, v);
    }

    /// Writes the offset of a branch to the block named `label` to the
    /// bits `lo..hi`, in two's complement.
    pub fn set_rel_offset(&mut self, lo: u32, hi: u32, label: u32)
        requires
            range_ok(lo, hi),
            old(self).labels@.contains_key(label),
            rel_offset_ok(old(self).ip, old(self).labels@[label], lo, hi),
        ensures
            final(self).word() == with_field(
                old(self).word(),
                lo,
                hi,
                signed_bits(rel_offset(old(self).ip, old(self).labels@[label]), lo, hi),
            ),
            final(self).same_context(*old(self)),
    {
        let ip: i64 = self.ip as i64;
        let target_ip: i64 = match self.labels.get(&label) {
            Some(t) => *t as i64,
            None => 0,
        };
        let rel: i64 = target_ip - ip - BRANCH_LATENCY;
        self.set_field_signed(lo, hi, rel);
    }
}

/// Whether a register is a general-purpose one that 8 bits can name.
pub fn check_gpr(reg: &RegRef) -> (r: bool)
    ensures
        r == gpr_ok(*reg),
{
    matches!(reg.file, RegFile::GPR) && reg.base_idx <= 255
}

/// Whether a register is a single predicate that 3 bits can name.
pub fn check_pred_reg(reg: &RegRef) -> (r: bool)
    ensures
        r == pred_reg_ok(*reg),
{
    matches!(reg.file, RegFile::Pred) && reg.base_idx <= 7 && reg.comps == 1
}

pub fn check_reg_ref(src_ref: &SrcRef) -> (r: bool)
    ensures
        r == reg_ref_ok(*src_ref),
{
    match src_ref {
        SrcRef::Zero => true,
        SrcRef::Reg(reg) => check_gpr(reg),
        _ => false,
    }
}

pub fn check_reg_src(src: &Src) -> (r: bool)
    ensures
        r == reg_src_ok(*src),
{
    check_reg_ref(&src.src_ref) && src.src_mod.is_none()
}

pub fn check_reg_fmod_src(src: &Src) -> (r: bool)
    ensures
        r == reg_fmod_src_ok(*src),
{
    check_reg_ref(&src.src_ref) && src.src_mod.is_float_mod()
}

pub fn check_reg_ineg_src(src: &Src) -> (r: bool)
    ensures
        r == reg_ineg_src_ok(*src),
{
    check_reg_ref(&src.src_ref) && src.src_mod.is_int_mod()
}

pub fn check_cb(cb: &CBufRef) -> (r: bool)
    ensures
        r == cb_ok(*cb),
{
    cb.offset % 4 == 0 && match cb.buf {
        CBuf::Binding(idx) => idx <= 31,
        _ => false,
    }
}

pub fn check_cb_fmod_src(src: &Src) -> (r: bool)
    ensures
        r == cb_fmod_src_ok(*src),
{
    src.src_mod.is_float_mod() && match &src.src_ref {
        SrcRef::CBuf(cb) => check_cb(cb),
        _ => false,
    }
}

pub fn check_cb_ineg_src(src: &Src) -> (r: bool)
    ensures
        r == cb_ineg_src_ok(*src),
{
    src.src_mod.is_int_mod() && match &src.src_ref {
        SrcRef::CBuf(cb) => check_cb(cb),
        _ => false,
    }
}

pub fn check_pred_src(src: &Src) -> (r: bool)
    ensures
        r == pred_src_ok(*src),
{
    src.src_mod.is_bitwise_mod() && match &src.src_ref {
        SrcRef::True => true,
        SrcRef::False => true,
        SrcRef::Reg(reg) => check_pred_reg(reg),
        _ => false,
    }
}

pub fn check_pred_dst(dst: &Dst) -> (r: bool)
    ensures
        r == pred_dst_ok(*dst),
{
    match dst {
        Dst::Discard => true,
        Dst::Reg(reg) => check_pred_reg(reg),
        _ => false,
    }
}

pub fn check_dst(dst: &Dst) -> (r: bool)
    ensures
        r == dst_ok(*dst),
{
    match dst {
        Dst::Discard => true,
        Dst::Reg(reg) => check_gpr(reg),
        _ => false,
    }
}

/// Whether a guard can be encoded.
pub fn check_pred(pred: &Pred) -> (r: bool)
    ensures
        r == pred_ok(*pred),
{
    !pred.is_false() && match &pred.pred_ref {
        PredRef::Always => true,
        PredRef::Reg(reg) => check_pred_reg(reg),
        PredRef::SSA(_) => false,
    }
}

/// Whether every part of the scheduling data fits its field.
pub fn check_deps(deps: &InstrDeps) -> (r: bool)
    ensures
        r == deps_ok(*deps),
{
    deps.delay <= 0xf && deps.wr_bar <= 7 && deps.rd_bar <= 7 && deps.wt_bar_mask <= 0x3f
        && deps.reuse_mask <= 0xf
}

/// Whether a branch from `ip` to `target_ip` can be encoded with its
/// offset in the bits `lo..hi`.
pub fn check_rel_offset(ip: usize, target_ip: usize, lo: u32, hi: u32) -> (r: bool)
    requires
        range_ok(lo, hi),
    ensures
        r == rel_offset_ok(ip, target_ip, lo, hi),
{
    if ip > 0x7fff_ffff || target_ip > 0x7fff_ffff {
        return false;
    }
    let rel: i64 = target_ip as i64 - ip as i64 - BRANCH_LATENCY;
    check_fits_signed(rel, lo, hi)
}

/// The short signed form loses nothing: the immediate is its 19 low
/// bits with the sign bit copied into the 13 bits above.
pub proof fn lemma_imm_i20_lossless(i: u32)
    requires
        Src::i20_ok(i),
    ensures
        i == (i & 0x7ffff) | (if (i & 0x80000) >> 19 == 1 {
            0xfff80000u32
        } else {
            0u32
        }),
{
    assert(((i & 0xfff80000) == 0 || (i & 0xfff80000) == 0xfff80000) ==> i == (i & 0x7ffff) | (if (
    i & 0x80000) >> 19 == 1 {
        0xfff80000u32
    } else {
        0u32
    })) by (bit_vector);
}

/// The short floating-point form loses nothing: the immediate is its
/// sign bit and the 19 bits below it, over 12 zero bits.
pub proof fn lemma_imm_f20_lossless(f: u32)
    requires
        Src::f20_ok(f),
    ensures
        f == ((f >> 31) << 31) | (((f >> 12) & 0x7ffff) << 12),
{
    assert((f & 0xfff) == 0 ==> f == ((f >> 31) << 31) | (((f >> 12) & 0x7ffff) << 12))
        by (bit_vector);
}

/// Scheduling data that fits its fields packs into 21 bits.
pub proof fn lemma_sched_bits_fit(deps: InstrDeps)
    requires
        deps_ok(deps),
    ensures
        sched_bits(deps) <= 0x1f_ffff,
{
    let a: u64 = deps.delay as u64;
    let y: u64 = bool_bits(deps.yld);
    let w: u64 = bar_bits(deps.wr_bar);
    let r: u64 = bar_bits(deps.rd_bar);
    let m: u64 = deps.wt_bar_mask as u64;
    let u: u64 = deps.reuse_mask as u64;
    assert(with_field(
        with_field(
            with_field(with_field(with_field(with_field(0, 0, 4, a), 4, 5, y), 5, 8, w), 8, 11, r),
            11,
            17,
            m,
        ),
        17,
        21,
        u,
    ) <= 0x1f_ffff) by (bit_vector);
}

} // verus!
