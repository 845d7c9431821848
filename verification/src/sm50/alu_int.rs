//! Encodings of the integer arithmetic, logic and shift operations.

use crate::bitview::{lemma_mask_values, with_bit, with_field};
use crate::ir::{Dst, RegFile, Src, SrcMod, SrcRef, SrcType};
use crate::legalize::{
    BuilderState, check_src_ready, LegalizeBuilder, src_is_reg, src_is_reg_spec, src_ready,
    swap_srcs_if_not_reg, swapped,
};
use crate::ops::{
    IntCompareType, IntType, LogicOp2, OpBfe, OpFlo, OpIAdd2, OpIMad, OpIMnMx, OpIMul, OpISetP,
    OpLop2, OpPopC, OpShf, OpShl, OpShr,
};
use crate::sm50::SM50Op;
use crate::sm50::convert::check_int_src_plain_reg;
use crate::sm50::encoder::{
    bool_bits, cb_ineg_src_ok, cb_ok, check_cb, check_cb_ineg_src, check_dst, check_gpr,
    check_pred_dst, check_pred_src, check_reg_ineg_src, check_reg_ref, check_reg_src, dst_ok,
    EncodeState, gpr_ok, int_compare_bits, pred_dst_ok, pred_set_op_bits, pred_src_ok,
    put_cb_ineg_src, put_dst, put_opcode, put_pred_dst, put_pred_src, put_reg_ineg_src,
    put_reg_src_ref, put_src_cb, put_src_imm_i20, reg_ineg_src_ok, reg_ref_ok, reg_src_ok,
    SM50Encoder,
};
use crate::sm50::legalize_ops::{
    binary_legal, binary_ok, binary_spec, check_copyable, check_imm_ruled, check_swapped, copyable,
    first_after_swap, fit_imm, imm_overflows, imm_ruled, imm_to_reg, ImmRule, second_after_swap,
    to_reg,
};
use vstd::prelude::*;

verus! {

/// The second source of an integer operation in one of the three short
/// forms: a register, an immediate that fits 20 signed bits, or a bound
/// constant buffer.
pub open spec fn int_src1_ok(src: Src) -> bool {
    match src.src_ref {
        SrcRef::Zero | SrcRef::Reg(_) => reg_ref_ok(src.src_ref),
        SrcRef::Imm32(i) => Src::i20_ok(i),
        SrcRef::CBuf(cb) => cb_ok(cb),
        _ => false,
    }
}

/// The word with the second source of an integer operation written in
/// its short form: opcode `op_imm` with a short immediate, `op_cb` with
/// a constant buffer, `op_reg` with a register.
pub open spec fn put_int_src1(w: u64, op_imm: u16, op_reg: u16, op_cb: u16, src: Src) -> u64 {
    match src.src_ref {
        SrcRef::Imm32(imm) => put_src_imm_i20(put_opcode(w, op_imm), 20, 39, 56, imm),
        SrcRef::CBuf(cb) => put_src_cb(put_opcode(w, op_cb), 20, cb),
        _ => put_reg_src_ref(put_opcode(w, op_reg), 20, 28, src.src_ref),
    }
}

/// As `put_int_src1`, with the negation flag of a register or constant
/// buffer in `neg_bit`.
pub open spec fn put_ineg_src1(
    w: u64,
    op_imm: u16,
    op_reg: u16,
    op_cb: u16,
    neg_bit: u32,
    src: Src,
) -> u64 {
    match src.src_ref {
        SrcRef::Imm32(imm) => put_src_imm_i20(put_opcode(w, op_imm), 20, 39, 56, imm),
        SrcRef::CBuf(_) => put_cb_ineg_src(put_opcode(w, op_cb), 20, neg_bit, src),
        _ => put_reg_ineg_src(put_opcode(w, op_reg), 20, 28, neg_bit, src),
    }
}

/// The carry flag read as a source: the carry register or zero.
pub open spec fn carry_in_ok(src: Src) -> bool {
    match src.src_ref {
        SrcRef::Zero => true,
        SrcRef::Reg(reg) => reg.file == RegFile::Carry,
        _ => false,
    }
}

/// The carry flag written as a destination: the carry register or
/// nothing.
pub open spec fn carry_out_ok(dst: Dst) -> bool {
    match dst {
        Dst::Discard => true,
        Dst::Reg(reg) => reg.file == RegFile::Carry,
        _ => false,
    }
}

pub open spec fn logic_op_bits(op: LogicOp2) -> u64 {
    match op {
        LogicOp2::And => 0,
        LogicOp2::Or => 1,
        LogicOp2::Xor => 2,
        LogicOp2::PassB => 3,
    }
}

/// The data types that a funnel shift takes.
pub open spec fn shf_type_ok(data_type: IntType) -> bool {
    data_type == IntType::I32 || data_type == IntType::U32 || data_type == IntType::U64
        || data_type == IntType::I64
}

pub open spec fn shf_type_bits(data_type: IntType) -> u64 {
    match data_type {
        IntType::U64 => 2,
        IntType::I64 => 3,
        _ => 0,
    }
}

impl<'a> SM50Encoder<'a> {
    /// Writes the opcode and the second source of an integer operation
    /// in the short form that the kind of source selects.
    pub fn set_int_src1(&mut self, op_imm: u16, op_reg: u16, op_cb: u16, src: Src)
        requires
            int_src1_ok(src),
        ensures
            final(self).word() == put_int_src1(old(self).word(), op_imm, op_reg, op_cb, src),
            final(self).same_context(*old(self)),
    {
        match src.src_ref {
            SrcRef::Imm32(imm) => {
                self.set_opcode(op_imm);
                self.set_src_imm_i20(20, 39, 56, imm);
            },
            SrcRef::CBuf(cb) => {
                self.set_opcode(op_cb);
                self.set_src_cb(20, 39, &cb);
            },
            _ => {
                self.set_opcode(op_reg);
                self.set_reg_src_ref(20, 28, src.src_ref);
            },
        }
    }

    /// As `set_int_src1`, and writes the negation flag of a register or
    /// constant buffer.
    pub fn set_ineg_src1(&mut self, op_imm: u16, op_reg: u16, op_cb: u16, neg_bit: u32, src: Src)
        requires
            int_src1_ok(src),
            src.src_mod.is_int(),
            neg_bit < 64,
        ensures
            final(self).word() == put_ineg_src1(
                old(self).word(),
                op_imm,
                op_reg,
                op_cb,
                neg_bit,
                src,
            ),
            final(self).same_context(*old(self)),
    {
        match src.src_ref {
            SrcRef::Imm32(imm) => {
                self.set_opcode(op_imm);
                self.set_src_imm_i20(20, 39, 56, imm);
            },
            SrcRef::CBuf(_) => {
                self.set_opcode(op_cb);
                self.set_cb_ineg_src(20, 39, neg_bit, src);
            },
            _ => {
                self.set_opcode(op_reg);
                self.set_reg_ineg_src(20, 28, neg_bit, src);
            },
        }
    }
}

pub fn check_int_src1(src: &Src) -> (r: bool)
    ensures
        r == int_src1_ok(*src),
{
    match src.src_ref {
        SrcRef::Zero | SrcRef::Reg(_) => check_reg_ref(&src.src_ref),
        SrcRef::Imm32(i) => Src::fits_i20(i),
        SrcRef::CBuf(cb) => check_cb(&cb),
        _ => false,
    }
}

pub fn check_carry_in(src: &Src) -> (r: bool)
    ensures
        r == carry_in_ok(*src),
{
    match src.src_ref {
        SrcRef::Zero => true,
        SrcRef::Reg(reg) => matches!(reg.file, RegFile::Carry),
        _ => false,
    }
}

pub fn check_carry_out(dst: &Dst) -> (r: bool)
    ensures
        r == carry_out_ok(*dst),
{
    match dst {
        Dst::Discard => true,
        Dst::Reg(reg) => matches!(reg.file, RegFile::Carry),
        _ => false,
    }
}

impl SM50Op for OpBfe {

    open spec fn can_legalize(&self, b: BuilderState) -> bool {
        &&& b.has_room(1)
        &&& copyable(self.base, SrcType::ALU)
    }

    fn legalizable(&self, b: &LegalizeBuilder) -> (r: bool) {
        b.room_for(1)
            && check_copyable(&self.base, SrcType::ALU)
    }

    open spec fn legalized(&self, b: BuilderState) -> (Self, BuilderState) {
        let (b1, base_1) = to_reg(b, self.base, SrcType::ALU);
        (OpBfe { base: base_1, ..*self }, b1)
    }

    open spec fn is_legal(&self) -> bool {
        &&& src_is_reg_spec(self.base, RegFile::GPR)
    }

    fn legalize(&mut self, b: &mut LegalizeBuilder) {
        let mut base = self.base;
        b.src_to_reg(&mut base, SrcType::ALU);
        self.base = base;
    }

    /// The base is a register; the range is an unmodified register, an
    /// immediate or a bound constant buffer.
    open spec fn can_encode(&self, e: EncodeState) -> bool {
        &&& dst_ok(self.dst)
        &&& reg_src_ok(self.base)
        &&& match self.range.src_ref {
            SrcRef::Zero | SrcRef::Reg(_) => reg_src_ok(self.range),
            SrcRef::Imm32(_) => true,
            SrcRef::CBuf(cb) => cb_ok(cb),
            _ => false,
        }
    }

    /// 0x5c00 register, 0x3800 immediate, 0x4c00 constant buffer.  Of
    /// an immediate range only the low 16 bits are kept.  Bit 48 is
    /// set for a signed and bit 40 for a reversed extract; neither is
    /// cleared.
    open spec fn encoded(&self, e: EncodeState) -> u64 {
        let w = match self.range.src_ref {
            SrcRef::Imm32(imm) => put_src_imm_i20(
                put_opcode(e.word, 0x3800),
                20,
                39,
                56,
                imm & 0xffff,
            ),
            SrcRef::CBuf(cb) => put_src_cb(put_opcode(e.word, 0x4c00), 20, cb),
            _ => put_reg_src_ref(put_opcode(e.word, 0x5c00), 20, 28, self.range.src_ref),
        };
        let w = if self.signed {
            with_bit(w, 48, true)
        } else {
            w
        };
        let w = if self.reverse {
            with_bit(w, 40, true)
        } else {
            w
        };
        let w = put_reg_src_ref(w, 8, 16, self.base.src_ref);
        put_dst(w, self.dst)
    }

    fn encodable(&self, e: &SM50Encoder<'_>) -> (r: bool) {
        check_dst(&self.dst) && check_reg_src(&self.base) && match self.range.src_ref {
            SrcRef::Zero | SrcRef::Reg(_) => check_reg_src(&self.range),
            SrcRef::Imm32(_) => true,
            SrcRef::CBuf(cb) => check_cb(&cb),
            _ => false,
        }
    }

    fn encode(&self, e: &mut SM50Encoder<'_>) {
        match self.range.src_ref {
            SrcRef::Imm32(imm) => {
                e.set_opcode(0x3800);
                let low: u32 = imm & 0xffff;
                assert((low & 0xfff80000) == 0) by (bit_vector)
                    requires
                        low == imm & 0xffff,
                ;
                e.set_src_imm_i20(20, 39, 56, low);
            },
            SrcRef::CBuf(cb) => {
                e.set_opcode(0x4c00);
                e.set_src_cb(20, 39, &cb);
            },
            _ => {
                e.set_opcode(0x5c00);
                e.set_reg_src(20, 28, self.range);
            },
        }
        if self.signed {
            e.set_bit(48, true);
        }
        if self.reverse {
            e.set_bit(40, true);
        }
        e.set_reg_src(8, 16, self.base);
        e.set_dst(self.dst);
    }
}

impl SM50Op for OpFlo {

    open spec fn can_legalize(&self, b: BuilderState) -> bool {
        true
    }

    fn legalizable(&self, b: &LegalizeBuilder) -> (r: bool) {
        true
    }

    /// Nothing is rewritten.
    open spec fn legalized(&self, b: BuilderState) -> (Self, BuilderState) {
        (*self, b)
    }

    open spec fn is_legal(&self) -> bool {
        true
    }

    fn legalize(&mut self, _b: &mut LegalizeBuilder) {
    }

    open spec fn can_encode(&self, e: EncodeState) -> bool {
        dst_ok(self.dst) && int_src1_ok(self.src) && self.src.src_mod.is_bitwise()
    }

    /// 0x5c30 register, 0x3830 immediate, 0x4c30 constant buffer.
    open spec fn encoded(&self, e: EncodeState) -> u64 {
        let w = put_int_src1(e.word, 0x3830, 0x5c30, 0x4c30, self.src);
        let w = put_dst(w, self.dst);
        let w = with_bit(w, 40, self.src.src_mod == SrcMod::BNot);
        let w = with_bit(w, 48, self.signed);
        let w = with_bit(w, 41, self.return_shift_amount);
        with_bit(w, 47, false)
    }

    fn encodable(&self, e: &SM50Encoder<'_>) -> (r: bool) {
        check_dst(&self.dst) && check_int_src1(&self.src) && self.src.src_mod.is_bitwise_mod()
    }

    fn encode(&self, e: &mut SM50Encoder<'_>) {
        e.set_int_src1(0x3830, 0x5c30, 0x4c30, self.src);
        e.set_dst(self.dst);
        e.set_bit(40, self.src.src_mod.is_bnot());
        e.set_bit(48, self.signed);
        e.set_bit(41, self.return_shift_amount);
        e.set_bit(47, false);  /* dst.CC */
    }
}

impl SM50Op for OpIAdd2 {

    open spec fn can_legalize(&self, b: BuilderState) -> bool {
        &&& binary_ok(b, self.srcs[0], self.srcs[1], SrcType::I32, ImmRule::I20)
    }

    fn legalizable(&self, b: &LegalizeBuilder) -> (r: bool) {
        b.check_binary_ok(&self.srcs[0], &self.srcs[1], SrcType::I32, ImmRule::I20)
    }

    open spec fn legalized(&self, b: BuilderState) -> (Self, BuilderState) {
        let (b1, s0, s1) = binary_spec(
            b,
            self.srcs[0],
            self.srcs[1],
            SrcType::I32,
            ImmRule::I20,
        );
        (
            OpIAdd2 {
                srcs: [s0, s1],
                ..*self
            },
            b1,
        )
    }

    open spec fn is_legal(&self) -> bool {
        binary_legal(self.srcs[0], self.srcs[1], ImmRule::I20)
    }

    fn legalize(&mut self, b: &mut LegalizeBuilder) {
        let mut s0 = self.srcs[0];
        let mut s1 = self.srcs[1];
        b.legalize_binary(&mut s0, &mut s1, SrcType::I32, ImmRule::I20);
        self.srcs = [s0, s1];
    }

    /// The first source is a register; the second a register, an
    /// unmodified immediate or a bound constant buffer; the carries
    /// are the carry register or absent.
    open spec fn can_encode(&self, e: EncodeState) -> bool {
        &&& dst_ok(self.dst)
        &&& carry_in_ok(self.carry_in)
        &&& carry_out_ok(self.carry_out)
        &&& reg_ineg_src_ok(self.srcs[0])
        &&& match self.srcs[1].src_ref {
            SrcRef::Zero | SrcRef::Reg(_) => reg_ineg_src_ok(self.srcs[1]),
            SrcRef::Imm32(_) => self.srcs[1].src_mod == SrcMod::Plain,
            SrcRef::CBuf(_) => cb_ineg_src_ok(self.srcs[1]),
            _ => false,
        }
    }

    /// An immediate that does not fit 20 signed bits takes the long
    /// form, opcode 0x1c00, with all 32 bits in 20..52.  The short
    /// forms are 0x5c10 register, 0x3810 immediate, 0x4c10 constant
    /// buffer.
    open spec fn encoded(&self, e: EncodeState) -> u64 {
        let w = e.word;
        let carry_in = self.carry_in.src_ref is Reg;
        let carry_out = self.carry_out is Reg;
        match self.srcs[1].imm_not_i20_spec() {
            Some(imm32) => {
                let w = put_opcode(w, 0x1c00);
                let w = put_dst(w, self.dst);
                let w = put_reg_ineg_src(w, 8, 16, 56, self.srcs[0]);
                let w = with_field(w, 20, 52, imm32 as u64);
                let w = with_bit(w, 53, carry_in);
                with_bit(w, 52, carry_out)
            },
            None => {
                let w = put_ineg_src1(w, 0x3810, 0x5c10, 0x4c10, 48, self.srcs[1]);
                let w = put_dst(w, self.dst);
                let w = put_reg_ineg_src(w, 8, 16, 49, self.srcs[0]);
                let w = with_bit(w, 43, carry_in);
                with_bit(w, 47, carry_out)
            },
        }
    }

    fn encodable(&self, e: &SM50Encoder<'_>) -> (r: bool) {
        check_dst(&self.dst) && check_carry_in(&self.carry_in) && check_carry_out(&self.carry_out) && check_reg_ineg_src(&self.srcs[0]) && match self.srcs[1].src_ref {
            SrcRef::Zero | SrcRef::Reg(_) => check_reg_ineg_src(&self.srcs[1]),
            SrcRef::Imm32(_) => self.srcs[1].src_mod.is_none(),
            SrcRef::CBuf(cb) => check_cb_ineg_src(&self.srcs[1]),
            _ => false,
        }
    }

    fn encode(&self, e: &mut SM50Encoder<'_>) {
        let carry_in: bool = matches!(self.carry_in.src_ref, SrcRef::Reg(_));
        let carry_out: bool = matches!(self.carry_out, Dst::Reg(_));
        if let Some(imm32) = self.srcs[1].as_imm_not_i20() {
            e.set_opcode(0x1c00);
            e.set_dst(self.dst);
            e.set_reg_ineg_src(8, 16, 56, self.srcs[0]);
            e.set_src_imm32(20, 52, imm32);
            e.set_bit(53, carry_in);
            e.set_bit(52, carry_out);
        } else {
            e.set_ineg_src1(0x3810, 0x5c10, 0x4c10, 48, self.srcs[1]);
            e.set_dst(self.dst);
            e.set_reg_ineg_src(8, 16, 49, self.srcs[0]);
            e.set_bit(43, carry_in);
            e.set_bit(47, carry_out);
        }
    }
}

impl SM50Op for OpIMad {

    /// The sources are in SSA form, and the one that ends up second
    /// carries no modifier if it is an immediate.
    open spec fn can_legalize(&self, b: BuilderState) -> bool {
        &&& b.has_room(3)
        &&& src_ready(self.srcs[0])
        &&& src_ready(self.srcs[1])
        &&& src_ready(self.srcs[2])
        &&& (!src_is_reg_spec(second_after_swap(self.srcs[0], self.srcs[1]), RegFile::GPR)
            ==> second_after_swap(self.srcs[0], self.srcs[1]).imm_unmodified())
    }

    fn legalizable(&self, b: &LegalizeBuilder) -> (r: bool) {
        if !b.room_for(3) || !check_src_ready(&self.srcs[0]) || !check_src_ready(&self.srcs[1])
            || !check_src_ready(&self.srcs[2]) {
            return false;
        }
        let second: &Src = if check_swapped(&self.srcs[0], &self.srcs[1]) {
            &self.srcs[0]
        } else {
            &self.srcs[1]
        };
        src_is_reg(second, RegFile::GPR) || second.is_imm_unmodified()
    }

    /// A register is put first, or the first source is made one.  The
    /// encoding takes one source that is no register: if the second is
    /// a register, the third may stay anything but an immediate; else
    /// the second is held to 20 signed bits and the third is made a
    /// register.
    open spec fn legalized(&self, b: BuilderState) -> (Self, BuilderState) {
        let (b1, s0) = to_reg(b, first_after_swap(self.srcs[0], self.srcs[1]), SrcType::ALU);
        let y = second_after_swap(self.srcs[0], self.srcs[1]);
        if src_is_reg_spec(y, RegFile::GPR) {
            let (b2, s2) = imm_to_reg(b1, self.srcs[2], SrcType::ALU);
            (OpIMad { srcs: [s0, y, s2], ..*self }, b2)
        } else {
            let (b2, s1) = fit_imm(b1, y, SrcType::ALU, ImmRule::I20);
            let (b3, s2) = to_reg(b2, self.srcs[2], SrcType::ALU);
            (OpIMad { srcs: [s0, s1, s2], ..*self }, b3)
        }
    }

    open spec fn is_legal(&self) -> bool {
        &&& src_is_reg_spec(self.srcs[0], RegFile::GPR)
        &&& if src_is_reg_spec(self.srcs[1], RegFile::GPR) {
            !(self.srcs[2].src_ref is Imm32)
        } else {
            !imm_overflows(self.srcs[1], ImmRule::I20) && src_is_reg_spec(
                self.srcs[2],
                RegFile::GPR,
            )
        }
    }

    fn legalize(&mut self, b: &mut LegalizeBuilder) {
        let mut s0 = self.srcs[0];
        let mut s1 = self.srcs[1];
        let mut s2 = self.srcs[2];
        swap_srcs_if_not_reg(&mut s0, &mut s1, RegFile::GPR);
        b.src_to_reg(&mut s0, SrcType::ALU);
        if src_is_reg(&s1, RegFile::GPR) {
            b.src_imm_to_reg(&mut s2, SrcType::ALU);
        } else {
            b.src_fit_imm(&mut s1, SrcType::ALU, ImmRule::I20);
            b.src_to_reg(&mut s2, SrcType::ALU);
        }
        self.srcs = [s0, s1, s2];
    }

    /// The first source is an unmodified register.  Either the third
    /// is a register and the second is a register, a short immediate
    /// or a bound constant buffer, or the third is a bound constant
    /// buffer and the second a register.
    open spec fn can_encode(&self, e: EncodeState) -> bool {
        &&& dst_ok(self.dst)
        &&& reg_src_ok(self.srcs[0])
        &&& self.srcs[1].src_mod.is_int()
        &&& match self.srcs[2].src_ref {
            SrcRef::Reg(_) => int_src1_ok(self.srcs[1]),
            SrcRef::CBuf(_) => cb_ineg_src_ok(self.srcs[2]) && reg_ref_ok(self.srcs[1].src_ref),
            _ => false,
        }
    }

    /// With a register addend: 0x5a00 register, 0x3400 immediate,
    /// 0x4a00 constant buffer.  With a constant-buffer addend: 0x5200,
    /// and the second source moves to 39..47.  Bit 51 negates the
    /// product.
    open spec fn encoded(&self, e: EncodeState) -> u64 {
        let w = e.word;
        let w = match self.srcs[2].src_ref {
            SrcRef::CBuf(_) => {
                let w = put_opcode(w, 0x5200);
                let w = put_reg_ineg_src(w, 39, 47, 51, self.srcs[1]);
                put_cb_ineg_src(w, 20, 52, self.srcs[2])
            },
            _ => put_ineg_src1(w, 0x3400, 0x5a00, 0x4a00, 51, self.srcs[1]),
        };
        let w = with_bit(w, 48, self.signed);
        let w = with_bit(
            w,
            51,
            (self.srcs[0].src_mod == SrcMod::INeg) != (self.srcs[1].src_mod == SrcMod::INeg),
        );
        let w = with_bit(w, 53, self.signed);
        let w = put_reg_src_ref(w, 8, 16, self.srcs[0].src_ref);
        put_dst(w, self.dst)
    }

    fn encodable(&self, e: &SM50Encoder<'_>) -> (r: bool) {
        check_dst(&self.dst) && check_reg_src(&self.srcs[0]) && self.srcs[1].src_mod.is_int_mod()
            && match self.srcs[2].src_ref {
            SrcRef::Reg(_) => check_int_src1(&self.srcs[1]),
            SrcRef::CBuf(_) => check_cb_ineg_src(&self.srcs[2]) && check_reg_ref(
                &self.srcs[1].src_ref,
            ),
            _ => false,
        }
    }

    fn encode(&self, e: &mut SM50Encoder<'_>) {
        match self.srcs[2].src_ref {
            SrcRef::CBuf(_) => {
                e.set_opcode(0x5200);
                e.set_reg_ineg_src(39, 47, 51, self.srcs[1]);
                e.set_cb_ineg_src(20, 39, 52, self.srcs[2]);
            },
            _ => {
                e.set_ineg_src1(0x3400, 0x5a00, 0x4a00, 51, self.srcs[1]);
            },
        }
        e.set_bit(48, self.signed);  // src0 signed
        e.set_bit(51, self.srcs[0].src_mod.is_ineg() != self.srcs[1].src_mod.is_ineg());
        e.set_bit(53, self.signed);  // src1 signed
        e.set_reg_src(8, 16, self.srcs[0]);
        e.set_dst(self.dst);
    }
}

impl SM50Op for OpIMul {

    open spec fn can_legalize(&self, b: BuilderState) -> bool {
        &&& binary_ok(b, self.srcs[0], self.srcs[1], SrcType::ALU, ImmRule::Any)
    }

    fn legalizable(&self, b: &LegalizeBuilder) -> (r: bool) {
        b.check_binary_ok(&self.srcs[0], &self.srcs[1], SrcType::ALU, ImmRule::Any)
    }

    open spec fn legalized(&self, b: BuilderState) -> (Self, BuilderState) {
        let (b1, s0, s1) = binary_spec(
            b,
            self.srcs[0],
            self.srcs[1],
            SrcType::ALU,
            ImmRule::Any,
        );
        (
            OpIMul {
                srcs: [s0, s1],
                signed: if swapped(self.srcs[0], self.srcs[1], RegFile::GPR) {
                    [self.signed[1], self.signed[0]]
                } else {
                    self.signed
                },
                ..*self
            },
            b1,
        )
    }

    open spec fn is_legal(&self) -> bool {
        binary_legal(self.srcs[0], self.srcs[1], ImmRule::Any)
    }

    fn legalize(&mut self, b: &mut LegalizeBuilder) {
        let mut s0 = self.srcs[0];
        let mut s1 = self.srcs[1];
        if b.legalize_binary(&mut s0, &mut s1, SrcType::ALU, ImmRule::Any) {
            self.signed = [self.signed[1], self.signed[0]];
        }
        self.srcs = [s0, s1];
    }

    /// No source is modified; the first is a register.
    open spec fn can_encode(&self, e: EncodeState) -> bool {
        &&& dst_ok(self.dst)
        &&& reg_src_ok(self.srcs[0])
        &&& self.srcs[1].src_mod == SrcMod::Plain
        &&& match self.srcs[1].src_ref {
            SrcRef::Zero | SrcRef::Reg(_) => reg_ref_ok(self.srcs[1].src_ref),
            SrcRef::Imm32(_) => true,
            SrcRef::CBuf(cb) => cb_ok(cb),
            _ => false,
        }
    }

    /// An immediate that does not fit 20 signed bits takes the long
    /// form, opcode 0x1fc0.  The short forms are 0x5c38 register,
    /// 0x3838 immediate, 0x4c38 constant buffer.
    open spec fn encoded(&self, e: EncodeState) -> u64 {
        let w = put_dst(e.word, self.dst);
        let w = put_reg_src_ref(w, 8, 16, self.srcs[0].src_ref);
        match self.srcs[1].imm_not_i20_spec() {
            Some(i) => {
                let w = put_opcode(w, 0x1fc0);
                let w = with_field(w, 20, 52, i as u64);
                let w = with_bit(w, 53, self.high);
                let w = with_bit(w, 54, self.signed[0]);
                with_bit(w, 55, self.signed[1])
            },
            None => {
                let w = put_int_src1(w, 0x3838, 0x5c38, 0x4c38, self.srcs[1]);
                let w = with_bit(w, 39, self.high);
                let w = with_bit(w, 40, self.signed[0]);
                with_bit(w, 41, self.signed[1])
            },
        }
    }

    fn encodable(&self, e: &SM50Encoder<'_>) -> (r: bool) {
        check_dst(&self.dst) && check_reg_src(&self.srcs[0]) && self.srcs[1].src_mod.is_none() && match self.srcs[1].src_ref {
            SrcRef::Zero | SrcRef::Reg(_) => check_reg_ref(&self.srcs[1].src_ref),
            SrcRef::Imm32(_) => true,
            SrcRef::CBuf(cb) => check_cb(&cb),
            _ => false,
        }
    }

    fn encode(&self, e: &mut SM50Encoder<'_>) {
        e.set_dst(self.dst);
        e.set_reg_src(8, 16, self.srcs[0]);
        if let Some(i) = self.srcs[1].as_imm_not_i20() {
            e.set_opcode(0x1fc0);
            e.set_src_imm32(20, 52, i);
            e.set_bit(53, self.high);
            e.set_bit(54, self.signed[0]);
            e.set_bit(55, self.signed[1]);
        } else {
            e.set_int_src1(0x3838, 0x5c38, 0x4c38, self.srcs[1]);
            e.set_bit(39, self.high);
            e.set_bit(40, self.signed[0]);
            e.set_bit(41, self.signed[1]);
        }
    }
}

impl SM50Op for OpIMnMx {

    open spec fn can_legalize(&self, b: BuilderState) -> bool {
        &&& binary_ok(b, self.srcs[0], self.srcs[1], SrcType::ALU, ImmRule::I20)
    }

    fn legalizable(&self, b: &LegalizeBuilder) -> (r: bool) {
        b.check_binary_ok(&self.srcs[0], &self.srcs[1], SrcType::ALU, ImmRule::I20)
    }

    open spec fn legalized(&self, b: BuilderState) -> (Self, BuilderState) {
        let (b1, s0, s1) = binary_spec(
            b,
            self.srcs[0],
            self.srcs[1],
            SrcType::ALU,
            ImmRule::I20,
        );
        (
            OpIMnMx {
                srcs: [s0, s1],
                ..*self
            },
            b1,
        )
    }

    open spec fn is_legal(&self) -> bool {
        binary_legal(self.srcs[0], self.srcs[1], ImmRule::I20)
    }

    fn legalize(&mut self, b: &mut LegalizeBuilder) {
        let mut s0 = self.srcs[0];
        let mut s1 = self.srcs[1];
        b.legalize_binary(&mut s0, &mut s1, SrcType::ALU, ImmRule::I20);
        self.srcs = [s0, s1];
    }

    open spec fn can_encode(&self, e: EncodeState) -> bool {
        &&& dst_ok(self.dst)
        &&& reg_src_ok(self.srcs[0])
        &&& int_src1_ok(self.srcs[1])
        &&& (self.srcs[1].reg_or_zero_spec() ==> self.srcs[1].src_mod == SrcMod::Plain)
        &&& pred_src_ok(self.min)
    }

    /// 0x5c20 register, 0x3820 immediate, 0x4c20 constant buffer.  Bit
    /// 48 is set for a signed comparison.
    open spec fn encoded(&self, e: EncodeState) -> u64 {
        let w = put_int_src1(e.word, 0x3820, 0x5c20, 0x4c20, self.srcs[1]);
        let w = put_dst(w, self.dst);
        let w = put_reg_src_ref(w, 8, 16, self.srcs[0].src_ref);
        let w = put_pred_src(w, 39, 42, 42, self.min);
        let w = with_bit(w, 47, false);
        with_bit(w, 48, self.compare_type == IntCompareType::I32)
    }

    fn encodable(&self, e: &SM50Encoder<'_>) -> (r: bool) {
        check_dst(&self.dst) && check_reg_src(&self.srcs[0]) && check_int_src_plain_reg(&self.srcs[1]) && check_pred_src(&self.min)
    }

    fn encode(&self, e: &mut SM50Encoder<'_>) {
        e.set_int_src1(0x3820, 0x5c20, 0x4c20, self.srcs[1]);
        e.set_dst(self.dst);
        e.set_reg_src(8, 16, self.srcs[0]);
        e.set_pred_src(39, 42, 42, self.min);
        e.set_bit(47, false);  // .CC
        e.set_bit(48, matches!(self.compare_type, IntCompareType::I32));
    }
}

impl SM50Op for OpISetP {

    open spec fn can_legalize(&self, b: BuilderState) -> bool {
        &&& binary_ok(b, self.srcs[0], self.srcs[1], SrcType::ALU, ImmRule::I20)
    }

    fn legalizable(&self, b: &LegalizeBuilder) -> (r: bool) {
        b.check_binary_ok(&self.srcs[0], &self.srcs[1], SrcType::ALU, ImmRule::I20)
    }

    open spec fn legalized(&self, b: BuilderState) -> (Self, BuilderState) {
        let (b1, s0, s1) = binary_spec(
            b,
            self.srcs[0],
            self.srcs[1],
            SrcType::ALU,
            ImmRule::I20,
        );
        (
            OpISetP {
                srcs: [s0, s1],
                compare_op: if swapped(self.srcs[0], self.srcs[1], RegFile::GPR) {
                    self.compare_op.flip_spec()
                } else {
                    self.compare_op
                },
                ..*self
            },
            b1,
        )
    }

    open spec fn is_legal(&self) -> bool {
        binary_legal(self.srcs[0], self.srcs[1], ImmRule::I20)
    }

    fn legalize(&mut self, b: &mut LegalizeBuilder) {
        let mut s0 = self.srcs[0];
        let mut s1 = self.srcs[1];
        if b.legalize_binary(&mut s0, &mut s1, SrcType::ALU, ImmRule::I20) {
            self.compare_op = self.compare_op.flip();
        }
        self.srcs = [s0, s1];
    }

    /// No source is modified; the first is a register.
    open spec fn can_encode(&self, e: EncodeState) -> bool {
        &&& pred_dst_ok(self.dst)
        &&& reg_src_ok(self.srcs[0])
        &&& self.srcs[1].src_mod == SrcMod::Plain
        &&& int_src1_ok(self.srcs[1])
        &&& pred_src_ok(self.accum)
    }

    /// 0x5b60 register, 0x3660 immediate, 0x4b60 constant buffer.  Bit
    /// 48 is set for a signed comparison; the comparison is in 49..52.
    open spec fn encoded(&self, e: EncodeState) -> u64 {
        let w = put_int_src1(e.word, 0x3660, 0x5b60, 0x4b60, self.srcs[1]);
        let w = put_pred_dst(w, 0, 3, Dst::Discard);
        let w = put_pred_dst(w, 3, 6, self.dst);
        let w = put_reg_src_ref(w, 8, 16, self.srcs[0].src_ref);
        let w = put_pred_src(w, 39, 42, 42, self.accum);
        let w = with_bit(w, 43, false);
        let w = with_field(w, 45, 47, pred_set_op_bits(self.set_op));
        let w = with_field(w, 48, 49, bool_bits(self.compare_type == IntCompareType::I32));
        with_field(w, 49, 52, int_compare_bits(self.compare_op))
    }

    fn encodable(&self, e: &SM50Encoder<'_>) -> (r: bool) {
        check_pred_dst(&self.dst) && check_reg_src(&self.srcs[0]) && self.srcs[1].src_mod.is_none() && check_int_src1(&self.srcs[1]) && check_pred_src(&self.accum)
    }

    fn encode(&self, e: &mut SM50Encoder<'_>) {
        proof {
            lemma_mask_values();
        }
        e.set_int_src1(0x3660, 0x5b60, 0x4b60, self.srcs[1]);
        e.set_pred_dst(0, 3, Dst::Discard);  // dst1
        e.set_pred_dst(3, 6, self.dst);
        e.set_reg_src(8, 16, self.srcs[0]);
        e.set_pred_src(39, 42, 42, self.accum);
        e.set_bit(43, false);  // .X
        e.set_pred_set_op(45, 47, self.set_op);
        e.set_field(
            48,
            49,
            match self.compare_type {
                IntCompareType::U32 => 0,
                IntCompareType::I32 => 1,
            },
        );
        e.set_int_compare_op(49, 52, self.compare_op);
    }
}

impl SM50Op for OpLop2 {

    open spec fn can_legalize(&self, b: BuilderState) -> bool {
        &&& binary_ok(b, self.srcs[0], self.srcs[1], SrcType::ALU, ImmRule::Any)
    }

    fn legalizable(&self, b: &LegalizeBuilder) -> (r: bool) {
        b.check_binary_ok(&self.srcs[0], &self.srcs[1], SrcType::ALU, ImmRule::Any)
    }

    open spec fn legalized(&self, b: BuilderState) -> (Self, BuilderState) {
        let (b1, s0, s1) = binary_spec(
            b,
            self.srcs[0],
            self.srcs[1],
            SrcType::ALU,
            ImmRule::Any,
        );
        (
            OpLop2 {
                srcs: [s0, s1],
                ..*self
            },
            b1,
        )
    }

    open spec fn is_legal(&self) -> bool {
        binary_legal(self.srcs[0], self.srcs[1], ImmRule::Any)
    }

    fn legalize(&mut self, b: &mut LegalizeBuilder) {
        let mut s0 = self.srcs[0];
        let mut s1 = self.srcs[1];
        b.legalize_binary(&mut s0, &mut s1, SrcType::ALU, ImmRule::Any);
        self.srcs = [s0, s1];
    }

    /// The first source is a register.  The second is a register or a
    /// bound constant buffer, either of which may be inverted, or an
    /// unmodified immediate.  The long immediate form cannot pass its
    /// second source through.
    open spec fn can_encode(&self, e: EncodeState) -> bool {
        &&& dst_ok(self.dst)
        &&& reg_ref_ok(self.srcs[0].src_ref)
        &&& self.srcs[0].src_mod.is_bitwise()
        &&& self.srcs[1].src_mod.is_bitwise()
        &&& match self.srcs[1].src_ref {
            SrcRef::Zero | SrcRef::Reg(_) => reg_ref_ok(self.srcs[1].src_ref),
            SrcRef::Imm32(i) => self.srcs[1].src_mod == SrcMod::Plain && (Src::i20_ok(i)
                || self.op != LogicOp2::PassB),
            SrcRef::CBuf(cb) => cb_ok(cb),
            _ => false,
        }
    }

    /// An immediate that does not fit 20 signed bits takes the long
    /// form, opcode 0x0400, with the operation in 53..55.  The short
    /// forms are 0x5c40 register, 0x3840 immediate, 0x4c40 constant
    /// buffer, with the operation in 41..43.
    open spec fn encoded(&self, e: EncodeState) -> u64 {
        let w = e.word;
        match self.srcs[1].imm_not_i20_spec() {
            Some(imm32) => {
                let w = put_opcode(w, 0x0400);
                let w = put_dst(w, self.dst);
                let w = put_reg_src_ref(w, 8, 16, self.srcs[0].src_ref);
                let w = with_bit(w, 55, self.srcs[0].src_mod == SrcMod::BNot);
                let w = with_field(w, 20, 52, imm32 as u64);
                with_field(w, 53, 55, logic_op_bits(self.op))
            },
            None => {
                let w = put_int_src1(w, 0x3840, 0x5c40, 0x4c40, self.srcs[1]);
                let w = put_dst(w, self.dst);
                let w = put_reg_src_ref(w, 8, 16, self.srcs[0].src_ref);
                let w = with_bit(w, 39, self.srcs[0].src_mod == SrcMod::BNot);
                let w = with_bit(w, 40, self.srcs[1].src_mod == SrcMod::BNot);
                let w = with_field(w, 41, 43, logic_op_bits(self.op));
                put_pred_dst(w, 48, 51, Dst::Discard)
            },
        }
    }

    fn encodable(&self, e: &SM50Encoder<'_>) -> (r: bool) {
        check_dst(&self.dst) && check_reg_ref(&self.srcs[0].src_ref) && self.srcs[0].src_mod.is_bitwise_mod() && self.srcs[1].src_mod.is_bitwise_mod() && match self.srcs[1].src_ref {
            SrcRef::Zero | SrcRef::Reg(_) => check_reg_ref(&self.srcs[1].src_ref),
            SrcRef::Imm32(i) => self.srcs[1].src_mod.is_none() && (Src::fits_i20(i) || !matches!(self.op, LogicOp2::PassB)),
            SrcRef::CBuf(cb) => check_cb(&cb),
            _ => false,
        }
    }

    fn encode(&self, e: &mut SM50Encoder<'_>) {
        proof {
            lemma_mask_values();
        }
        let op: u64 = match self.op {
            LogicOp2::And => 0,
            LogicOp2::Or => 1,
            LogicOp2::Xor => 2,
            LogicOp2::PassB => 3,
        };
        if let Some(imm32) = self.srcs[1].as_imm_not_i20() {
            e.set_opcode(0x0400);
            e.set_dst(self.dst);
            e.set_reg_src_ref(8, 16, self.srcs[0].src_ref);
            e.set_bit(55, self.srcs[0].src_mod.is_bnot());
            e.set_src_imm32(20, 52, imm32);
            e.set_field(53, 55, op);
        } else {
            e.set_int_src1(0x3840, 0x5c40, 0x4c40, self.srcs[1]);
            e.set_dst(self.dst);
            e.set_reg_src_ref(8, 16, self.srcs[0].src_ref);
            e.set_bit(39, self.srcs[0].src_mod.is_bnot());
            e.set_bit(40, self.srcs[1].src_mod.is_bnot());
            e.set_field(41, 43, op);
            e.set_pred_dst(48, 51, Dst::Discard);
        }
    }
}

impl SM50Op for OpPopC {

    open spec fn can_legalize(&self, b: BuilderState) -> bool {
        true
    }

    fn legalizable(&self, b: &LegalizeBuilder) -> (r: bool) {
        true
    }

    /// Nothing is rewritten.
    open spec fn legalized(&self, b: BuilderState) -> (Self, BuilderState) {
        (*self, b)
    }

    open spec fn is_legal(&self) -> bool {
        true
    }

    fn legalize(&mut self, _b: &mut LegalizeBuilder) {
    }

    /// The source is an unmodified general-purpose register.
    open spec fn can_encode(&self, e: EncodeState) -> bool {
        &&& dst_ok(self.dst)
        &&& self.src.src_mod == SrcMod::Plain
        &&& match self.src.src_ref {
            SrcRef::Reg(reg) => gpr_ok(reg),
            _ => false,
        }
    }

    /// Opcode 0x5c08; bit 40 inverts the source.
    open spec fn encoded(&self, e: EncodeState) -> u64 {
        let w = put_opcode(e.word, 0x5c08);
        let w = put_reg_src_ref(w, 20, 28, self.src.src_ref);
        let w = with_bit(w, 40, self.src.src_mod == SrcMod::BNot);
        put_dst(w, self.dst)
    }

    fn encodable(&self, e: &SM50Encoder<'_>) -> (r: bool) {
        check_dst(&self.dst) && self.src.src_mod.is_none() && match self.src.src_ref {
            SrcRef::Reg(reg) => check_gpr(&reg),
            _ => false,
        }
    }

    fn encode(&self, e: &mut SM50Encoder<'_>) {
        e.set_opcode(0x5c08);
        e.set_reg_src(20, 28, self.src);
        let not_mod: bool = matches!(self.src.src_mod, SrcMod::BNot);
        e.set_bit(40, not_mod);
        e.set_dst(self.dst);
    }
}

impl SM50Op for OpShf {

    open spec fn can_legalize(&self, b: BuilderState) -> bool {
        &&& b.has_room(4)
        &&& copyable(self.shift, SrcType::GPR)
        &&& copyable(self.high, SrcType::ALU)
        &&& copyable(self.low, SrcType::GPR)
    }

    fn legalizable(&self, b: &LegalizeBuilder) -> (r: bool) {
        b.room_for(4)
            && check_copyable(&self.shift, SrcType::GPR)
            && check_copyable(&self.high, SrcType::ALU)
            && check_copyable(&self.low, SrcType::GPR)
    }

    open spec fn legalized(&self, b: BuilderState) -> (Self, BuilderState) {
        let (b1, shift_1) = to_reg(b, self.shift, SrcType::GPR);
        let (b2, high_2) = to_reg(b1, self.high, SrcType::ALU);
        let (b3, low_3) = to_reg(b2, self.low, SrcType::GPR);
        let (b4, shift_4) = fit_imm(b3, shift_1, SrcType::GPR, ImmRule::I20);
        (OpShf { shift: shift_4, high: high_2, low: low_3, ..*self }, b4)
    }

    open spec fn is_legal(&self) -> bool {
        &&& src_is_reg_spec(self.shift, RegFile::GPR)
        &&& src_is_reg_spec(self.high, RegFile::GPR)
        &&& src_is_reg_spec(self.low, RegFile::GPR)
        &&& !imm_overflows(self.shift, ImmRule::I20)
    }

    fn legalize(&mut self, b: &mut LegalizeBuilder) {
        let mut shift = self.shift;
        b.src_to_reg(&mut shift, SrcType::GPR);
        let mut high = self.high;
        b.src_to_reg(&mut high, SrcType::ALU);
        let mut low = self.low;
        b.src_to_reg(&mut low, SrcType::GPR);
        b.src_fit_imm(&mut shift, SrcType::GPR, ImmRule::I20);
        self.shift = shift;
        self.high = high;
        self.low = low;
    }

    /// Low and high are registers; the shift is a register or a short
    /// immediate; nothing is modified.
    open spec fn can_encode(&self, e: EncodeState) -> bool {
        &&& dst_ok(self.dst)
        &&& reg_src_ok(self.low)
        &&& reg_src_ok(self.high)
        &&& self.shift.src_mod == SrcMod::Plain
        &&& match self.shift.src_ref {
            SrcRef::Zero | SrcRef::Reg(_) => reg_ref_ok(self.shift.src_ref),
            SrcRef::Imm32(i) => Src::i20_ok(i),
            _ => false,
        }
        &&& shf_type_ok(self.data_type)
    }

    /// 0x5cf8 register, 0x38f8 immediate.  The data type is written to
    /// 37..39 after the shift, over the top of a short immediate.
    open spec fn encoded(&self, e: EncodeState) -> u64 {
        let w = match self.shift.src_ref {
            SrcRef::Imm32(i) => put_src_imm_i20(put_opcode(e.word, 0x38f8), 20, 39, 56, i),
            _ => put_reg_src_ref(put_opcode(e.word, 0x5cf8), 20, 28, self.shift.src_ref),
        };
        let w = with_field(w, 37, 39, shf_type_bits(self.data_type));
        let w = put_dst(w, self.dst);
        let w = put_reg_src_ref(w, 8, 16, self.low.src_ref);
        let w = put_reg_src_ref(w, 39, 47, self.high.src_ref);
        let w = with_bit(w, 47, false);
        let w = with_bit(w, 48, self.dst_high);
        let w = with_bit(w, 49, false);
        with_bit(w, 50, self.wrap)
    }

    fn encodable(&self, e: &SM50Encoder<'_>) -> (r: bool) {
        check_dst(&self.dst) && check_reg_src(&self.low) && check_reg_src(&self.high) && self.shift.src_mod.is_none() && match self.shift.src_ref {
            SrcRef::Zero | SrcRef::Reg(_) => check_reg_ref(&self.shift.src_ref),
            SrcRef::Imm32(i) => Src::fits_i20(i),
            _ => false,
        } && matches!(self.data_type, IntType::I32 | IntType::U32 | IntType::U64 | IntType::I64)
    }

    fn encode(&self, e: &mut SM50Encoder<'_>) {
        proof {
            lemma_mask_values();
        }
        match self.shift.src_ref {
            SrcRef::Imm32(i) => {
                e.set_opcode(0x38f8);
                e.set_src_imm_i20(20, 39, 56, i);
            },
            _ => {
                e.set_opcode(0x5cf8);
                e.set_reg_src(20, 28, self.shift);
            },
        }
        e.set_field(
            37,
            39,
            match self.data_type {
                IntType::U64 => 2,
                IntType::I64 => 3,
                _ => 0,
            },
        );
        e.set_dst(self.dst);
        e.set_reg_src(8, 16, self.low);
        e.set_reg_src(39, 47, self.high);
        e.set_bit(47, false);  // .CC
        e.set_bit(48, self.dst_high);
        e.set_bit(49, false);  // .X
        e.set_bit(50, self.wrap);
    }
}

impl SM50Op for OpShl {

    open spec fn can_legalize(&self, b: BuilderState) -> bool {
        &&& b.has_room(2)
        &&& copyable(self.src, SrcType::GPR)
        &&& imm_ruled(self.shift, SrcType::ALU, ImmRule::I20)
    }

    fn legalizable(&self, b: &LegalizeBuilder) -> (r: bool) {
        b.room_for(2)
            && check_copyable(&self.src, SrcType::GPR)
            && check_imm_ruled(&self.shift, SrcType::ALU, ImmRule::I20)
    }

    open spec fn legalized(&self, b: BuilderState) -> (Self, BuilderState) {
        let (b1, src_1) = to_reg(b, self.src, SrcType::GPR);
        let (b2, shift_2) = fit_imm(b1, self.shift, SrcType::ALU, ImmRule::I20);
        (OpShl { src: src_1, shift: shift_2, ..*self }, b2)
    }

    open spec fn is_legal(&self) -> bool {
        &&& src_is_reg_spec(self.src, RegFile::GPR)
        &&& !imm_overflows(self.shift, ImmRule::I20)
    }

    fn legalize(&mut self, b: &mut LegalizeBuilder) {
        let mut src = self.src;
        b.src_to_reg(&mut src, SrcType::GPR);
        let mut shift = self.shift;
        b.src_fit_imm(&mut shift, SrcType::ALU, ImmRule::I20);
        self.src = src;
        self.shift = shift;
    }

    open spec fn can_encode(&self, e: EncodeState) -> bool {
        &&& dst_ok(self.dst)
        &&& reg_src_ok(self.src)
        &&& int_src1_ok(self.shift)
        &&& (self.shift.reg_or_zero_spec() ==> self.shift.src_mod == SrcMod::Plain)
    }

    /// 0x5c48 register, 0x3848 immediate, 0x4c48 constant buffer.
    open spec fn encoded(&self, e: EncodeState) -> u64 {
        let w = put_dst(e.word, self.dst);
        let w = put_reg_src_ref(w, 8, 16, self.src.src_ref);
        let w = put_int_src1(w, 0x3848, 0x5c48, 0x4c48, self.shift);
        with_bit(w, 39, self.wrap)
    }

    fn encodable(&self, e: &SM50Encoder<'_>) -> (r: bool) {
        check_dst(&self.dst) && check_reg_src(&self.src) && check_int_src_plain_reg(&self.shift)
    }

    fn encode(&self, e: &mut SM50Encoder<'_>) {
        e.set_dst(self.dst);
        e.set_reg_src(8, 16, self.src);
        e.set_int_src1(0x3848, 0x5c48, 0x4c48, self.shift);
        e.set_bit(39, self.wrap);
    }
}

impl SM50Op for OpShr {

    open spec fn can_legalize(&self, b: BuilderState) -> bool {
        &&& b.has_room(2)
        &&& copyable(self.src, SrcType::GPR)
        &&& imm_ruled(self.shift, SrcType::ALU, ImmRule::I20)
    }

    fn legalizable(&self, b: &LegalizeBuilder) -> (r: bool) {
        b.room_for(2)
            && check_copyable(&self.src, SrcType::GPR)
            && check_imm_ruled(&self.shift, SrcType::ALU, ImmRule::I20)
    }

    open spec fn legalized(&self, b: BuilderState) -> (Self, BuilderState) {
        let (b1, src_1) = to_reg(b, self.src, SrcType::GPR);
        let (b2, shift_2) = fit_imm(b1, self.shift, SrcType::ALU, ImmRule::I20);
        (OpShr { src: src_1, shift: shift_2, ..*self }, b2)
    }

    open spec fn is_legal(&self) -> bool {
        &&& src_is_reg_spec(self.src, RegFile::GPR)
        &&& !imm_overflows(self.shift, ImmRule::I20)
    }

    fn legalize(&mut self, b: &mut LegalizeBuilder) {
        let mut src = self.src;
        b.src_to_reg(&mut src, SrcType::GPR);
        let mut shift = self.shift;
        b.src_fit_imm(&mut shift, SrcType::ALU, ImmRule::I20);
        self.src = src;
        self.shift = shift;
    }

    open spec fn can_encode(&self, e: EncodeState) -> bool {
        &&& dst_ok(self.dst)
        &&& reg_src_ok(self.src)
        &&& int_src1_ok(self.shift)
        &&& (self.shift.reg_or_zero_spec() ==> self.shift.src_mod == SrcMod::Plain)
    }

    /// 0x5c28 register, 0x3828 immediate, 0x4c28 constant buffer.
    open spec fn encoded(&self, e: EncodeState) -> u64 {
        let w = put_dst(e.word, self.dst);
        let w = put_reg_src_ref(w, 8, 16, self.src.src_ref);
        let w = put_int_src1(w, 0x3828, 0x5c28, 0x4c28, self.shift);
        let w = with_bit(w, 39, self.wrap);
        with_bit(w, 48, self.signed)
    }

    fn encodable(&self, e: &SM50Encoder<'_>) -> (r: bool) {
        check_dst(&self.dst) && check_reg_src(&self.src) && check_int_src_plain_reg(&self.shift)
    }

    fn encode(&self, e: &mut SM50Encoder<'_>) {
        e.set_dst(self.dst);
        e.set_reg_src(8, 16, self.src);
        e.set_int_src1(0x3828, 0x5c28, 0x4c28, self.shift);
        e.set_bit(39, self.wrap);
        e.set_bit(48, self.signed);
    }
}

} // verus!
