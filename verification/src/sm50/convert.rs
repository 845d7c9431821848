//! Encodings of the conversions, moves, selects and lane operations.

use crate::bitview::{lemma_mask_values, with_bit, with_field};
use crate::ir::{RegFile, Src, SrcMod, SrcRef, SrcType};
use crate::legalize::{BuilderState, copy_ok, LegalizeBuilder, src_is_reg_spec, src_ready, swapped};
use crate::ops::{
    FloatType, IntType, OpF2F, OpF2I, OpI2F, OpI2I, OpMov, OpPrmt, OpPSetP, OpSel, OpShfl, ShflOp,
};
use crate::sm50::SM50Op;
use crate::sm50::alu_float::{check_fmod_src1, fmod_src1_ok, put_fmod_src1};
use crate::sm50::alu_int::{check_int_src1, int_src1_ok, put_int_src1};
use crate::sm50::encoder::{
    cb_fmod_src_ok, cb_ok, check_cb, check_cb_fmod_src, check_dst, check_pred_dst, check_pred_src,
    check_reg_fmod_src, check_reg_src, dst_ok, EncodeState, pred_dst_ok, pred_set_op_bits,
    pred_src_ok, put_cb_fmod_src, put_dst, put_opcode, put_pred_dst, put_pred_src, put_reg_fmod_src,
    put_reg_src_ref, put_src_cb, put_src_imm_i20, reg_fmod_src_ok, reg_src_ok, rnd_mode_bits,
    SM50Encoder,
};
use crate::sm50::legalize_ops::{
    binary_legal, binary_ok, binary_spec, check_copyable, check_imm_ruled, check_reg_imm_or_copy,
    check_swapped, copyable, fit_imm, imm_overflows, imm_ruled, ImmRule, to_reg, to_reg_or_imm,
};
use vstd::prelude::*;

verus! {

/// The base-2 logarithm of the size in bytes of a float type.
pub open spec fn float_size_bits(t: FloatType) -> u64 {
    match t {
        FloatType::F16 => 1,
        FloatType::F32 => 2,
        FloatType::F64 => 3,
    }
}

/// The base-2 logarithm of the size in bytes of an integer type.
pub open spec fn int_size_bits(t: IntType) -> u64 {
    match t {
        IntType::U8 | IntType::I8 => 0,
        IntType::U16 | IntType::I16 => 1,
        IntType::U32 | IntType::I32 => 2,
        IntType::U64 | IntType::I64 => 3,
    }
}

pub open spec fn shfl_op_bits(op: ShflOp) -> u64 {
    match op {
        ShflOp::Idx => 0,
        ShflOp::Up => 1,
        ShflOp::Down => 2,
        ShflOp::Bfly => 3,
    }
}

/// A lane or clamp operand of a shuffle: an unmodified register, or an
/// immediate.
pub open spec fn shfl_src_ok(src: Src) -> bool {
    match src.src_ref {
        SrcRef::Zero | SrcRef::Reg(_) => reg_src_ok(src),
        SrcRef::Imm32(_) => true,
        _ => false,
    }
}

/// An integer source in a short form, unmodified if it is a register.
pub open spec fn int_src_plain_reg_ok(src: Src) -> bool {
    int_src1_ok(src) && (src.reg_or_zero_spec() ==> src.src_mod == SrcMod::Plain)
}

impl<'a> SM50Encoder<'a> {
    /// Writes the size of a float type to a 2-bit field.
    pub fn set_float_size(&mut self, lo: u32, hi: u32, t: FloatType)
        requires
            hi == lo + 2,
            hi <= 64,
        ensures
            final(self).word() == with_field(old(self).word(), lo, hi, float_size_bits(t)),
            final(self).same_context(*old(self)),
    {
        proof {
            lemma_mask_values();
        }
        let v: u64 = match t {
            FloatType::F16 => 1,
            FloatType::F32 => 2,
            FloatType::F64 => 3,
        };
        self.set_field(lo, hi, v);
    }

    /// Writes the size of an integer type to a 2-bit field.
    pub fn set_int_size(&mut self, lo: u32, hi: u32, t: IntType)
        requires
            hi == lo + 2,
            hi <= 64,
        ensures
            final(self).word() == with_field(old(self).word(), lo, hi, int_size_bits(t)),
            final(self).same_context(*old(self)),
    {
        proof {
            lemma_mask_values();
        }
        let v: u64 = match t {
            IntType::U8 | IntType::I8 => 0,
            IntType::U16 | IntType::I16 => 1,
            IntType::U32 | IntType::I32 => 2,
            IntType::U64 | IntType::I64 => 3,
        };
        self.set_field(lo, hi, v);
    }
}

pub fn check_shfl_src(src: &Src) -> (r: bool)
    ensures
        r == shfl_src_ok(*src),
{
    match src.src_ref {
        SrcRef::Zero | SrcRef::Reg(_) => check_reg_src(src),
        SrcRef::Imm32(_) => true,
        _ => false,
    }
}

pub fn check_int_src_plain_reg(src: &Src) -> (r: bool)
    ensures
        r == int_src_plain_reg_ok(*src),
{
    check_int_src1(src) && (!src.is_reg_or_zero() || src.src_mod.is_none())
}

impl SM50Op for OpF2F {

    open spec fn can_legalize(&self, b: BuilderState) -> bool {
        &&& b.has_room(1)
        &&& imm_ruled(self.src, SrcType::ALU, ImmRule::F20)
    }

    fn legalizable(&self, b: &LegalizeBuilder) -> (r: bool) {
        b.room_for(1)
            && check_imm_ruled(&self.src, SrcType::ALU, ImmRule::F20)
    }

    open spec fn legalized(&self, b: BuilderState) -> (Self, BuilderState) {
        let (b1, src_1) = fit_imm(b, self.src, SrcType::ALU, ImmRule::F20);
        (OpF2F { src: src_1, ..*self }, b1)
    }

    open spec fn is_legal(&self) -> bool {
        &&& !imm_overflows(self.src, ImmRule::F20)
    }

    fn legalize(&mut self, b: &mut LegalizeBuilder) {
        let mut src = self.src;
        b.src_fit_imm(&mut src, SrcType::ALU, ImmRule::F20);
        self.src = src;
    }

    /// The source is a register.
    open spec fn can_encode(&self, e: EncodeState) -> bool {
        dst_ok(self.dst) && reg_fmod_src_ok(self.src)
    }

    /// Opcode 0x5ca8; the destination size in 8..10, the source size
    /// in 10..12.
    open spec fn encoded(&self, e: EncodeState) -> u64 {
        let w = put_opcode(e.word, 0x5ca8);
        let w = put_reg_fmod_src(w, 20, 28, 49, 45, self.src);
        let w = with_field(w, 8, 10, float_size_bits(self.dst_type));
        let w = with_field(w, 10, 12, float_size_bits(self.src_type));
        let w = with_field(w, 39, 41, rnd_mode_bits(self.rnd_mode));
        let w = with_bit(w, 42, self.integer_rnd);
        let w = with_bit(w, 44, self.ftz);
        put_dst(w, self.dst)
    }

    fn encodable(&self, e: &SM50Encoder<'_>) -> (r: bool) {
        check_dst(&self.dst) && check_reg_fmod_src(&self.src)
    }

    fn encode(&self, e: &mut SM50Encoder<'_>) {
        e.set_opcode(0x5ca8);
        e.set_reg_fmod_src(20, 28, 49, 45, self.src);
        // no saturation in the IR, would be bit 50
        e.set_float_size(8, 10, self.dst_type);
        e.set_float_size(10, 12, self.src_type);
        e.set_rnd_mode(39, 41, self.rnd_mode);
        e.set_bit(42, self.integer_rnd);
        e.set_bit(44, self.ftz);
        e.set_dst(self.dst);
    }
}

impl SM50Op for OpF2I {

    open spec fn can_legalize(&self, b: BuilderState) -> bool {
        &&& b.has_room(1)
        &&& imm_ruled(self.src, SrcType::ALU, ImmRule::F20)
    }

    fn legalizable(&self, b: &LegalizeBuilder) -> (r: bool) {
        b.room_for(1)
            && check_imm_ruled(&self.src, SrcType::ALU, ImmRule::F20)
    }

    open spec fn legalized(&self, b: BuilderState) -> (Self, BuilderState) {
        let (b1, src_1) = fit_imm(b, self.src, SrcType::ALU, ImmRule::F20);
        (OpF2I { src: src_1, ..*self }, b1)
    }

    open spec fn is_legal(&self) -> bool {
        &&& !imm_overflows(self.src, ImmRule::F20)
    }

    fn legalize(&mut self, b: &mut LegalizeBuilder) {
        let mut src = self.src;
        b.src_fit_imm(&mut src, SrcType::ALU, ImmRule::F20);
        self.src = src;
    }

    open spec fn can_encode(&self, e: EncodeState) -> bool {
        dst_ok(self.dst) && fmod_src1_ok(self.src)
    }

    /// 0x5cb0 register, 0x38b0 immediate, 0x4cb0 constant buffer.
    open spec fn encoded(&self, e: EncodeState) -> u64 {
        let w = put_fmod_src1(e.word, 0x38b0, 0x5cb0, 0x4cb0, 49, 45, 45, self.src);
        let w = put_dst(w, self.dst);
        let w = with_field(w, 8, 10, int_size_bits(self.dst_type));
        let w = with_field(w, 10, 12, float_size_bits(self.src_type));
        let w = with_bit(w, 12, self.dst_type.signed_spec());
        let w = with_field(w, 39, 41, rnd_mode_bits(self.rnd_mode));
        let w = with_bit(w, 44, self.ftz);
        with_bit(w, 47, false)
    }

    fn encodable(&self, e: &SM50Encoder<'_>) -> (r: bool) {
        check_dst(&self.dst) && check_fmod_src1(&self.src)
    }

    fn encode(&self, e: &mut SM50Encoder<'_>) {
        e.set_fmod_src1(0x38b0, 0x5cb0, 0x4cb0, 49, 45, 45, self.src);
        e.set_dst(self.dst);
        e.set_int_size(8, 10, self.dst_type);
        e.set_float_size(10, 12, self.src_type);
        e.set_bit(12, self.dst_type.is_signed());
        e.set_rnd_mode(39, 41, self.rnd_mode);
        e.set_bit(44, self.ftz);
        e.set_bit(47, false);  // .CC
    }
}

impl SM50Op for OpI2F {

    open spec fn can_legalize(&self, b: BuilderState) -> bool {
        &&& b.has_room(1)
        &&& imm_ruled(self.src, SrcType::ALU, ImmRule::I20)
    }

    fn legalizable(&self, b: &LegalizeBuilder) -> (r: bool) {
        b.room_for(1)
            && check_imm_ruled(&self.src, SrcType::ALU, ImmRule::I20)
    }

    open spec fn legalized(&self, b: BuilderState) -> (Self, BuilderState) {
        let (b1, src_1) = fit_imm(b, self.src, SrcType::ALU, ImmRule::I20);
        (OpI2F { src: src_1, ..*self }, b1)
    }

    open spec fn is_legal(&self) -> bool {
        &&& !imm_overflows(self.src, ImmRule::I20)
    }

    fn legalize(&mut self, b: &mut LegalizeBuilder) {
        let mut src = self.src;
        b.src_fit_imm(&mut src, SrcType::ALU, ImmRule::I20);
        self.src = src;
    }

    /// A register or a constant buffer may carry a float modifier; an
    /// immediate fits 20 signed bits.
    open spec fn can_encode(&self, e: EncodeState) -> bool {
        &&& dst_ok(self.dst)
        &&& match self.src.src_ref {
            SrcRef::Zero | SrcRef::Reg(_) => reg_fmod_src_ok(self.src),
            SrcRef::Imm32(i) => Src::i20_ok(i),
            SrcRef::CBuf(_) => cb_fmod_src_ok(self.src),
            _ => false,
        }
    }

    /// 0x5cb8 register, 0x38b8 immediate, 0x4cb8 constant buffer.
    open spec fn encoded(&self, e: EncodeState) -> u64 {
        let w = match self.src.src_ref {
            SrcRef::Imm32(imm) => put_src_imm_i20(put_opcode(e.word, 0x38b8), 20, 39, 56, imm),
            SrcRef::CBuf(_) => put_cb_fmod_src(put_opcode(e.word, 0x4cb8), 20, 49, 45, self.src),
            _ => put_reg_fmod_src(put_opcode(e.word, 0x5cb8), 20, 28, 49, 45, self.src),
        };
        let w = with_field(w, 41, 43, 0);
        let w = with_bit(w, 13, self.src_type.signed_spec());
        let w = with_field(w, 8, 10, float_size_bits(self.dst_type));
        let w = with_field(w, 39, 41, rnd_mode_bits(self.rnd_mode));
        let w = with_field(w, 10, 12, int_size_bits(self.src_type));
        put_dst(w, self.dst)
    }

    fn encodable(&self, e: &SM50Encoder<'_>) -> (r: bool) {
        check_dst(&self.dst) && match self.src.src_ref {
            SrcRef::Zero | SrcRef::Reg(_) => check_reg_fmod_src(&self.src),
            SrcRef::Imm32(i) => Src::fits_i20(i),
            SrcRef::CBuf(cb) => check_cb_fmod_src(&self.src),
            _ => false,
        }
    }

    fn encode(&self, e: &mut SM50Encoder<'_>) {
        proof {
            lemma_mask_values();
        }
        match self.src.src_ref {
            SrcRef::Imm32(imm) => {
                e.set_opcode(0x38b8);
                e.set_src_imm_i20(20, 39, 56, imm);
            },
            SrcRef::CBuf(_) => {
                e.set_opcode(0x4cb8);
                e.set_cb_fmod_src(20, 39, 49, 45, self.src);
            },
            _ => {
                e.set_opcode(0x5cb8);
                e.set_reg_fmod_src(20, 28, 49, 45, self.src);
            },
        }
        e.set_field(41, 43, 0);  // subop
        e.set_bit(13, self.src_type.is_signed());
        e.set_float_size(8, 10, self.dst_type);
        e.set_rnd_mode(39, 41, self.rnd_mode);
        e.set_int_size(10, 12, self.src_type);
        e.set_dst(self.dst);
    }
}

impl SM50Op for OpI2I {

    open spec fn can_legalize(&self, b: BuilderState) -> bool {
        &&& b.has_room(1)
        &&& imm_ruled(self.src, SrcType::ALU, ImmRule::I20)
    }

    fn legalizable(&self, b: &LegalizeBuilder) -> (r: bool) {
        b.room_for(1)
            && check_imm_ruled(&self.src, SrcType::ALU, ImmRule::I20)
    }

    open spec fn legalized(&self, b: BuilderState) -> (Self, BuilderState) {
        let (b1, src_1) = fit_imm(b, self.src, SrcType::ALU, ImmRule::I20);
        (OpI2I { src: src_1, ..*self }, b1)
    }

    open spec fn is_legal(&self) -> bool {
        &&& !imm_overflows(self.src, ImmRule::I20)
    }

    fn legalize(&mut self, b: &mut LegalizeBuilder) {
        let mut src = self.src;
        b.src_fit_imm(&mut src, SrcType::ALU, ImmRule::I20);
        self.src = src;
    }

    open spec fn can_encode(&self, e: EncodeState) -> bool {
        dst_ok(self.dst) && int_src_plain_reg_ok(self.src)
    }

    /// 0x5ce0 register, 0x38e0 immediate, 0x4ce0 constant buffer.
    open spec fn encoded(&self, e: EncodeState) -> u64 {
        let w = put_int_src1(e.word, 0x38e0, 0x5ce0, 0x4ce0, self.src);
        let w = with_bit(w, 45, self.neg);
        let w = with_bit(w, 49, self.abs);
        let w = with_bit(w, 50, self.saturate);
        let w = with_bit(w, 12, self.dst_type.signed_spec());
        let w = with_bit(w, 13, self.src_type.signed_spec());
        let w = with_field(w, 8, 10, int_size_bits(self.dst_type));
        let w = with_field(w, 10, 12, int_size_bits(self.src_type));
        let w = with_field(w, 41, 43, 0);
        let w = with_bit(w, 47, false);
        put_dst(w, self.dst)
    }

    fn encodable(&self, e: &SM50Encoder<'_>) -> (r: bool) {
        check_dst(&self.dst) && check_int_src_plain_reg(&self.src)
    }

    fn encode(&self, e: &mut SM50Encoder<'_>) {
        proof {
            lemma_mask_values();
        }
        e.set_int_src1(0x38e0, 0x5ce0, 0x4ce0, self.src);
        e.set_bit(45, self.neg);
        e.set_bit(49, self.abs);
        e.set_bit(50, self.saturate);
        e.set_bit(12, self.dst_type.is_signed());
        e.set_bit(13, self.src_type.is_signed());
        e.set_int_size(8, 10, self.dst_type);
        e.set_int_size(10, 12, self.src_type);
        e.set_field(41, 43, 0);  // src.B1-3
        e.set_bit(47, false);  // dst.CC
        e.set_dst(self.dst);
    }
}

impl SM50Op for OpMov {

    open spec fn can_legalize(&self, b: BuilderState) -> bool {
        &&& b.has_room(1)
        &&& imm_ruled(self.src, SrcType::ALU, ImmRule::I20)
    }

    fn legalizable(&self, b: &LegalizeBuilder) -> (r: bool) {
        b.room_for(1)
            && check_imm_ruled(&self.src, SrcType::ALU, ImmRule::I20)
    }

    open spec fn legalized(&self, b: BuilderState) -> (Self, BuilderState) {
        let (b1, src_1) = fit_imm(b, self.src, SrcType::ALU, ImmRule::I20);
        (OpMov { src: src_1, ..*self }, b1)
    }

    open spec fn is_legal(&self) -> bool {
        &&& !imm_overflows(self.src, ImmRule::I20)
    }

    fn legalize(&mut self, b: &mut LegalizeBuilder) {
        let mut src = self.src;
        b.src_fit_imm(&mut src, SrcType::ALU, ImmRule::I20);
        self.src = src;
    }

    /// The source is an unmodified register, any immediate or a bound
    /// constant buffer; the lane mask has four bits.
    open spec fn can_encode(&self, e: EncodeState) -> bool {
        &&& dst_ok(self.dst)
        &&& self.quad_lanes <= 0xf
        &&& match self.src.src_ref {
            SrcRef::Zero | SrcRef::Reg(_) => reg_src_ok(self.src),
            SrcRef::Imm32(_) => true,
            SrcRef::CBuf(cb) => cb_ok(cb),
            _ => false,
        }
    }

    /// 0x5c98 register and 0x4c98 constant buffer, with the lane mask
    /// in 39..43; 0x0100 immediate, with all 32 bits in 20..52 and the
    /// lane mask in 12..16.
    open spec fn encoded(&self, e: EncodeState) -> u64 {
        let w = match self.src.src_ref {
            SrcRef::Imm32(i) => {
                let w = put_opcode(e.word, 0x0100);
                let w = with_field(w, 20, 52, i as u64);
                with_field(w, 12, 16, self.quad_lanes as u64)
            },
            SrcRef::CBuf(cb) => {
                let w = put_opcode(e.word, 0x4c98);
                let w = put_src_cb(w, 20, cb);
                with_field(w, 39, 43, self.quad_lanes as u64)
            },
            _ => {
                let w = put_opcode(e.word, 0x5c98);
                let w = put_reg_src_ref(w, 20, 28, self.src.src_ref);
                with_field(w, 39, 43, self.quad_lanes as u64)
            },
        };
        put_dst(w, self.dst)
    }

    fn encodable(&self, e: &SM50Encoder<'_>) -> (r: bool) {
        check_dst(&self.dst) && self.quad_lanes <= 0xf && match self.src.src_ref {
            SrcRef::Zero | SrcRef::Reg(_) => check_reg_src(&self.src),
            SrcRef::Imm32(_) => true,
            SrcRef::CBuf(cb) => check_cb(&cb),
            _ => false,
        }
    }

    fn encode(&self, e: &mut SM50Encoder<'_>) {
        proof {
            lemma_mask_values();
        }
        match self.src.src_ref {
            SrcRef::Imm32(i) => {
                e.set_opcode(0x0100);
                e.set_src_imm32(20, 52, i);
                e.set_field(12, 16, self.quad_lanes as u64);
            },
            SrcRef::CBuf(cb) => {
                e.set_opcode(0x4c98);
                e.set_src_cb(20, 39, &cb);
                e.set_field(39, 43, self.quad_lanes as u64);
            },
            _ => {
                e.set_opcode(0x5c98);
                e.set_reg_src(20, 28, self.src);
                e.set_field(39, 43, self.quad_lanes as u64);
            },
        }
        e.set_dst(self.dst);
    }
}

impl SM50Op for OpPrmt {

    open spec fn can_legalize(&self, b: BuilderState) -> bool {
        &&& b.has_room(3)
        &&& copyable(self.srcs[0], SrcType::GPR)
        &&& copyable(self.srcs[1], SrcType::GPR)
        &&& imm_ruled(self.sel, SrcType::ALU, ImmRule::I20)
    }

    fn legalizable(&self, b: &LegalizeBuilder) -> (r: bool) {
        b.room_for(3)
            && check_copyable(&self.srcs[0], SrcType::GPR)
            && check_copyable(&self.srcs[1], SrcType::GPR)
            && check_imm_ruled(&self.sel, SrcType::ALU, ImmRule::I20)
    }

    open spec fn legalized(&self, b: BuilderState) -> (Self, BuilderState) {
        let (b1, s0_1) = to_reg(b, self.srcs[0], SrcType::GPR);
        let (b2, s1_2) = to_reg(b1, self.srcs[1], SrcType::GPR);
        let (b3, sel_3) = fit_imm(b2, self.sel, SrcType::ALU, ImmRule::I20);
        (OpPrmt { sel: sel_3, srcs: [s0_1, s1_2], ..*self }, b3)
    }

    open spec fn is_legal(&self) -> bool {
        &&& src_is_reg_spec(self.srcs[0], RegFile::GPR)
        &&& src_is_reg_spec(self.srcs[1], RegFile::GPR)
        &&& !imm_overflows(self.sel, ImmRule::I20)
    }

    fn legalize(&mut self, b: &mut LegalizeBuilder) {
        let mut s0 = self.srcs[0];
        b.src_to_reg(&mut s0, SrcType::GPR);
        let mut s1 = self.srcs[1];
        b.src_to_reg(&mut s1, SrcType::GPR);
        let mut sel = self.sel;
        b.src_fit_imm(&mut sel, SrcType::ALU, ImmRule::I20);
        self.sel = sel;
        self.srcs = [s0, s1];
    }

    open spec fn can_encode(&self, e: EncodeState) -> bool {
        &&& dst_ok(self.dst)
        &&& reg_src_ok(self.srcs[0])
        &&& reg_src_ok(self.srcs[1])
        &&& int_src_plain_reg_ok(self.sel)
    }

    /// 0x5bc0 register, 0x36c0 immediate, 0x4bc0 constant buffer.
    open spec fn encoded(&self, e: EncodeState) -> u64 {
        let w = put_int_src1(e.word, 0x36c0, 0x5bc0, 0x4bc0, self.sel);
        let w = put_reg_src_ref(w, 8, 16, self.srcs[0].src_ref);
        let w = put_reg_src_ref(w, 39, 47, self.srcs[1].src_ref);
        put_dst(w, self.dst)
    }

    fn encodable(&self, e: &SM50Encoder<'_>) -> (r: bool) {
        check_dst(&self.dst) && check_reg_src(&self.srcs[0]) && check_reg_src(&self.srcs[1]) && check_int_src_plain_reg(&self.sel)
    }

    fn encode(&self, e: &mut SM50Encoder<'_>) {
        e.set_int_src1(0x36c0, 0x5bc0, 0x4bc0, self.sel);
        e.set_reg_src(8, 16, self.srcs[0]);
        e.set_reg_src(39, 47, self.srcs[1]);
        e.set_dst(self.dst);
    }
}

impl SM50Op for OpSel {

    open spec fn can_legalize(&self, b: BuilderState) -> bool {
        &&& binary_ok(b, self.srcs[0], self.srcs[1], SrcType::ALU, ImmRule::I20)
        &&& (swapped(self.srcs[0], self.srcs[1], RegFile::GPR) ==> self.cond.src_mod.is_bitwise())
    }

    fn legalizable(&self, b: &LegalizeBuilder) -> (r: bool) {
        b.check_binary_ok(&self.srcs[0], &self.srcs[1], SrcType::ALU, ImmRule::I20) && (!check_swapped(&self.srcs[0], &self.srcs[1]) || self.cond.src_mod.is_bitwise_mod())
    }

    open spec fn legalized(&self, b: BuilderState) -> (Self, BuilderState) {
        let (b1, s0, s1) = binary_spec(
            b,
            self.srcs[0],
            self.srcs[1],
            SrcType::ALU,
            ImmRule::I20,
        );
        (
            OpSel {
                srcs: [s0, s1],
                cond: if swapped(self.srcs[0], self.srcs[1], RegFile::GPR) {
                    Src { src_ref: self.cond.src_ref, src_mod: self.cond.src_mod.bnot_spec() }
                } else {
                    self.cond
                },
                ..*self
            },
            b1,
        )
    }

    open spec fn is_legal(&self) -> bool {
        binary_legal(self.srcs[0], self.srcs[1], ImmRule::I20)
    }

    fn legalize(&mut self, b: &mut LegalizeBuilder) {
        let mut s0 = self.srcs[0];
        let mut s1 = self.srcs[1];
        if b.legalize_binary(&mut s0, &mut s1, SrcType::ALU, ImmRule::I20) {
            self.cond = self.cond.bnot();
        }
        self.srcs = [s0, s1];
    }

    open spec fn can_encode(&self, e: EncodeState) -> bool {
        &&& dst_ok(self.dst)
        &&& reg_src_ok(self.srcs[0])
        &&& int_src1_ok(self.srcs[1])
        &&& pred_src_ok(self.cond)
    }

    /// 0x5ca0 register, 0x38a0 immediate, 0x4ca0 constant buffer.
    open spec fn encoded(&self, e: EncodeState) -> u64 {
        let w = put_int_src1(e.word, 0x38a0, 0x5ca0, 0x4ca0, self.srcs[1]);
        let w = put_dst(w, self.dst);
        let w = put_reg_src_ref(w, 8, 16, self.srcs[0].src_ref);
        put_pred_src(w, 39, 42, 42, self.cond)
    }

    fn encodable(&self, e: &SM50Encoder<'_>) -> (r: bool) {
        check_dst(&self.dst) && check_reg_src(&self.srcs[0]) && check_int_src1(&self.srcs[1]) && check_pred_src(&self.cond)
    }

    fn encode(&self, e: &mut SM50Encoder<'_>) {
        e.set_int_src1(0x38a0, 0x5ca0, 0x4ca0, self.srcs[1]);
        e.set_dst(self.dst);
        e.set_reg_src(8, 16, self.srcs[0]);
        e.set_pred_src(39, 42, 42, self.cond);
    }
}

impl SM50Op for OpShfl {

    open spec fn can_legalize(&self, b: BuilderState) -> bool {
        &&& b.has_room(3)
        &&& copyable(self.src, SrcType::GPR)
        &&& src_ready(self.lane)
        &&& (src_is_reg_spec(self.lane, RegFile::GPR) || self.lane.src_ref is Imm32 || copy_ok(self.lane, SrcType::ALU))
        &&& src_ready(self.c)
        &&& (src_is_reg_spec(self.c, RegFile::GPR) || self.c.src_ref is Imm32 || copy_ok(self.c, SrcType::ALU))
    }

    fn legalizable(&self, b: &LegalizeBuilder) -> (r: bool) {
        b.room_for(3)
            && check_copyable(&self.src, SrcType::GPR)
            && check_reg_imm_or_copy(&self.lane, SrcType::ALU)
            && check_reg_imm_or_copy(&self.c, SrcType::ALU)
    }

    open spec fn legalized(&self, b: BuilderState) -> (Self, BuilderState) {
        let (b1, src_1) = to_reg(b, self.src, SrcType::GPR);
        let (b2, lane_2) = to_reg_or_imm(b1, self.lane, SrcType::ALU);
        let (b3, c_3) = to_reg_or_imm(b2, self.c, SrcType::ALU);
        (OpShfl { src: src_1, lane: lane_2, c: c_3, ..*self }, b3)
    }

    open spec fn is_legal(&self) -> bool {
        &&& src_is_reg_spec(self.src, RegFile::GPR)
        &&& (src_is_reg_spec(self.lane, RegFile::GPR) || self.lane.src_ref is Imm32)
        &&& (src_is_reg_spec(self.c, RegFile::GPR) || self.c.src_ref is Imm32)
    }

    fn legalize(&mut self, b: &mut LegalizeBuilder) {
        let mut src = self.src;
        b.src_to_reg(&mut src, SrcType::GPR);
        let mut lane = self.lane;
        b.src_to_reg_or_imm(&mut lane, SrcType::ALU);
        let mut c = self.c;
        b.src_to_reg_or_imm(&mut c, SrcType::ALU);
        self.src = src;
        self.lane = lane;
        self.c = c;
    }

    open spec fn can_encode(&self, e: EncodeState) -> bool {
        &&& dst_ok(self.dst)
        &&& pred_dst_ok(self.in_bounds)
        &&& reg_src_ok(self.src)
        &&& shfl_src_ok(self.lane)
        &&& shfl_src_ok(self.c)
    }

    /// Opcode 0xef10.  Bits 28 and 29 say that the lane and the clamp
    /// are immediates; of an immediate lane 5 bits are kept, of an
    /// immediate clamp the bits of 0x1f1f.
    open spec fn encoded(&self, e: EncodeState) -> u64 {
        let w = put_opcode(e.word, 0xef10);
        let w = put_dst(w, self.dst);
        let w = put_pred_dst(w, 48, 51, self.in_bounds);
        let w = put_reg_src_ref(w, 8, 16, self.src.src_ref);
        let w = match self.lane.src_ref {
            SrcRef::Imm32(imm) => with_field(with_bit(w, 28, true), 20, 25, (imm & 0x1f) as u64),
            _ => put_reg_src_ref(with_bit(w, 28, false), 20, 28, self.lane.src_ref),
        };
        let w = match self.c.src_ref {
            SrcRef::Imm32(imm) => with_field(with_bit(w, 29, true), 34, 47, (imm & 0x1f1f) as u64),
            _ => put_reg_src_ref(with_bit(w, 29, false), 39, 47, self.c.src_ref),
        };
        with_field(w, 30, 32, shfl_op_bits(self.op))
    }

    fn encodable(&self, e: &SM50Encoder<'_>) -> (r: bool) {
        check_dst(&self.dst) && check_pred_dst(&self.in_bounds) && check_reg_src(&self.src) && check_shfl_src(&self.lane) && check_shfl_src(&self.c)
    }

    fn encode(&self, e: &mut SM50Encoder<'_>) {
        proof {
            lemma_mask_values();
        }
        e.set_opcode(0xef10);
        e.set_dst(self.dst);
        e.set_pred_dst(48, 51, self.in_bounds);
        e.set_reg_src(8, 16, self.src);
        match self.lane.src_ref {
            SrcRef::Imm32(imm) => {
                e.set_bit(28, true);
                let low: u32 = imm & 0x1f;
                assert(low <= 0x1f) by (bit_vector)
                    requires
                        low == imm & 0x1f,
                ;
                e.set_field(20, 25, low as u64);
            },
            _ => {
                e.set_bit(28, false);
                e.set_reg_src(20, 28, self.lane);
            },
        }
        match self.c.src_ref {
            SrcRef::Imm32(imm) => {
                e.set_bit(29, true);
                let low: u32 = imm & 0x1f1f;
                assert(low <= 0x1fff) by (bit_vector)
                    requires
                        low == imm & 0x1f1f,
                ;
                e.set_field(34, 47, low as u64);
            },
            _ => {
                e.set_bit(29, false);
                e.set_reg_src(39, 47, self.c);
            },
        }
        e.set_field(
            30,
            32,
            match self.op {
                ShflOp::Idx => 0,
                ShflOp::Up => 1,
                ShflOp::Down => 2,
                ShflOp::Bfly => 3,
            },
        );
    }
}

impl SM50Op for OpPSetP {

    open spec fn can_legalize(&self, b: BuilderState) -> bool {
        true
    }

    fn legalizable(&self, b: &LegalizeBuilder) -> (r: bool) {
        true
    }

    /// Nothing is rewritten.
    open spec fn legalized(&self, b: BuilderState) -> (Self, BuilderState) {
        (*self, b)
    }

    open spec fn is_legal(&self) -> bool {
        true
    }

    fn legalize(&mut self, _b: &mut LegalizeBuilder) {
    }

    open spec fn can_encode(&self, e: EncodeState) -> bool {
        &&& pred_dst_ok(self.dsts[0])
        &&& pred_dst_ok(self.dsts[1])
        &&& pred_src_ok(self.srcs[0])
        &&& pred_src_ok(self.srcs[1])
        &&& pred_src_ok(self.srcs[2])
    }

    /// Opcode 0x5090: three predicate sources combined by two
    /// operations into two predicate results.
    open spec fn encoded(&self, e: EncodeState) -> u64 {
        let w = put_opcode(e.word, 0x5090);
        let w = put_pred_dst(w, 3, 6, self.dsts[0]);
        let w = put_pred_dst(w, 0, 3, self.dsts[1]);
        let w = put_pred_src(w, 12, 15, 15, self.srcs[0]);
        let w = put_pred_src(w, 29, 32, 32, self.srcs[1]);
        let w = put_pred_src(w, 39, 42, 42, self.srcs[2]);
        let w = with_field(w, 24, 26, pred_set_op_bits(self.ops[0]));
        with_field(w, 45, 47, pred_set_op_bits(self.ops[1]))
    }

    fn encodable(&self, e: &SM50Encoder<'_>) -> (r: bool) {
        check_pred_dst(&self.dsts[0]) && check_pred_dst(&self.dsts[1]) && check_pred_src(&self.srcs[0]) && check_pred_src(&self.srcs[1]) && check_pred_src(&self.srcs[2])
    }

    fn encode(&self, e: &mut SM50Encoder<'_>) {
        e.set_opcode(0x5090);
        e.set_pred_dst(3, 6, self.dsts[0]);
        e.set_pred_dst(0, 3, self.dsts[1]);
        e.set_pred_src(12, 15, 15, self.srcs[0]);
        e.set_pred_src(29, 32, 32, self.srcs[1]);
        e.set_pred_src(39, 42, 42, self.srcs[2]);
        e.set_pred_set_op(24, 26, self.ops[0]);
        e.set_pred_set_op(45, 47, self.ops[1]);
    }
}

} // verus!
