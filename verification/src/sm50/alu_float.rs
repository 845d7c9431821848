//! Encodings of the single- and double-precision arithmetic operations.

use crate::bitview::{lemma_mask_values, with_bit, with_field};
use crate::ir::{RegFile, Src, SrcMod, SrcRef, SrcType};
use crate::legalize::{
    BuilderState, check_src_ready, LegalizeBuilder, src_is_reg, src_is_reg_spec, src_ready,
    swap_srcs_if_not_reg, swapped,
};
use crate::ops::{
    FSwzAddOp, MuFuOp, OpDAdd, OpDFma, OpDMnMx, OpDMul, OpDSetP, OpFAdd, OpFFma, OpFMnMx, OpFMul,
    OpFSet, OpFSetP, OpFSwzAdd, OpMuFu, OpRro, RroOp,
};
use crate::sm50::SM50Op;
use crate::sm50::encoder::{
    cb_fmod_src_ok, cb_ok, check_cb, check_cb_fmod_src, check_dst, check_pred_dst, check_pred_src,
    check_reg_fmod_src, check_reg_ref, check_reg_src, dst_ok, EncodeState, float_compare_bits,
    pred_dst_ok, pred_set_op_bits, pred_src_ok, put_cb_fmod_src, put_dst, put_opcode, put_pred_dst,
    put_pred_src, put_reg_fmod_src, put_reg_src_ref, put_src_cb, put_src_imm_f20, reg_fmod_src_ok,
    reg_ref_ok, reg_src_ok, rnd_mode_bits, SM50Encoder,
};
use crate::sm50::legalize_ops::{
    binary_legal, binary_ok, binary_spec, check_copyable, check_imm_ruled, check_swapped, copyable,
    first_after_swap, fit_imm, imm_overflows, imm_ruled, imm_to_reg, ImmRule, lemma_lower_if_fabs,
    lower_if_fabs, second_after_swap, SM50LegalizeBuildHelpers, to_reg,
};
use vstd::prelude::*;

verus! {

/// A source that reads a register, with negation as its only possible
/// modifier.
pub open spec fn reg_fneg_src_ok(src: Src) -> bool {
    reg_ref_ok(src.src_ref) && src.src_mod.is_float() && !src.src_mod.fabs_spec()
}

/// The second source of a float operation in one of the three short
/// forms, where modifiers are allowed on registers and constant
/// buffers: a register, an immediate whose low 12 bits are zero, or a
/// bound constant buffer.
pub open spec fn fmod_src1_ok(src: Src) -> bool {
    match src.src_ref {
        SrcRef::Zero | SrcRef::Reg(_) => reg_fmod_src_ok(src),
        SrcRef::Imm32(i) => Src::f20_ok(i),
        SrcRef::CBuf(_) => cb_fmod_src_ok(src),
        _ => false,
    }
}

/// As `fmod_src1_ok`, for the operations that take no modifier on an
/// immediate.
pub open spec fn fmod_src1_plain_imm_ok(src: Src) -> bool {
    fmod_src1_ok(src) && (src.src_ref is Imm32 ==> src.src_mod == SrcMod::Plain)
}

/// The second source of a multiply: negation is its only possible
/// modifier, and it is folded into the sign of the product.
pub open spec fn fneg_src1_ok(src: Src) -> bool {
    src.src_mod.is_float() && !src.src_mod.fabs_spec() && match src.src_ref {
        SrcRef::Zero | SrcRef::Reg(_) => reg_ref_ok(src.src_ref),
        SrcRef::Imm32(i) => Src::f20_ok(i),
        SrcRef::CBuf(cb) => cb_ok(cb),
        _ => false,
    }
}

pub open spec fn rro_op_bits(op: RroOp) -> u64 {
    match op {
        RroOp::SinCos => 0,
        RroOp::Exp2 => 1,
    }
}

/// The functions of the multi-function unit that a model has: the
/// square root from model 52 on, the hyperbolic tangent never.
pub open spec fn mufu_op_ok(op: MuFuOp, sm: u8) -> bool {
    match op {
        MuFuOp::Sqrt => sm >= 52,
        MuFuOp::Tanh => false,
        _ => true,
    }
}

pub open spec fn mufu_op_bits(op: MuFuOp) -> u64 {
    match op {
        MuFuOp::Cos => 0,
        MuFuOp::Sin => 1,
        MuFuOp::Exp2 => 2,
        MuFuOp::Log2 => 3,
        MuFuOp::Rcp => 4,
        MuFuOp::Rsq => 5,
        MuFuOp::Rcp64H => 6,
        MuFuOp::Rsq64H => 7,
        _ => 8,
    }
}

pub open spec fn fswzadd_op_bits(op: FSwzAddOp) -> u64 {
    match op {
        FSwzAddOp::Add => 0,
        FSwzAddOp::SubLeft => 1,
        FSwzAddOp::SubRight => 2,
        FSwzAddOp::MoveLeft => 3,
    }
}

/// The word with the second source of a float operation written in its
/// short form: opcode `op_imm` with a short immediate, `op_cb` with a
/// constant buffer, `op_reg` with a register whose flags are
/// `abs_bit` and `neg_bit`.
pub open spec fn put_fmod_src1(
    w: u64,
    op_imm: u16,
    op_reg: u16,
    op_cb: u16,
    abs_bit: u32,
    neg_bit: u32,
    cb_neg_bit: u32,
    src: Src,
) -> u64 {
    match src.src_ref {
        SrcRef::Imm32(imm) => put_src_imm_f20(put_opcode(w, op_imm), 20, 39, 56, imm),
        SrcRef::CBuf(_) => put_cb_fmod_src(put_opcode(w, op_cb), 20, abs_bit, cb_neg_bit, src),
        _ => put_reg_fmod_src(put_opcode(w, op_reg), 20, 28, abs_bit, neg_bit, src),
    }
}

/// As `put_fmod_src1`, for the operations that write no flags of the
/// second source here.
pub open spec fn put_plain_src1(w: u64, op_imm: u16, op_reg: u16, op_cb: u16, src: Src) -> u64 {
    match src.src_ref {
        SrcRef::Imm32(imm) => put_src_imm_f20(put_opcode(w, op_imm), 20, 39, 56, imm),
        SrcRef::CBuf(cb) => put_src_cb(put_opcode(w, op_cb), 20, cb),
        _ => put_reg_src_ref(put_opcode(w, op_reg), 20, 28, src.src_ref),
    }
}

impl<'a> SM50Encoder<'a> {
    /// Writes the opcode and the second source of a float operation in
    /// the short form that the kind of source selects.
    pub fn set_fmod_src1(
        &mut self,
        op_imm: u16,
        op_reg: u16,
        op_cb: u16,
        abs_bit: u32,
        neg_bit: u32,
        cb_neg_bit: u32,
        src: Src,
    )
        requires
            fmod_src1_ok(src),
            abs_bit < 64,
            neg_bit < 64,
            cb_neg_bit < 64,
        ensures
            final(self).word() == put_fmod_src1(
                old(self).word(),
                op_imm,
                op_reg,
                op_cb,
                abs_bit,
                neg_bit,
                cb_neg_bit,
                src,
            ),
            final(self).same_context(*old(self)),
    {
        match src.src_ref {
            SrcRef::Imm32(imm) => {
                self.set_opcode(op_imm);
                self.set_src_imm_f20(20, 39, 56, imm);
            },
            SrcRef::CBuf(_) => {
                self.set_opcode(op_cb);
                self.set_cb_fmod_src(20, 39, abs_bit, cb_neg_bit, src);
            },
            _ => {
                self.set_opcode(op_reg);
                self.set_reg_fmod_src(20, 28, abs_bit, neg_bit, src);
            },
        }
    }

    /// Writes the opcode and the second source of a float operation
    /// that keeps the flags of that source elsewhere.
    pub fn set_plain_src1(&mut self, op_imm: u16, op_reg: u16, op_cb: u16, src: Src)
        requires
            match src.src_ref {
                SrcRef::Zero | SrcRef::Reg(_) => reg_ref_ok(src.src_ref),
                SrcRef::Imm32(i) => Src::f20_ok(i),
                SrcRef::CBuf(cb) => cb_ok(cb),
                _ => false,
            },
        ensures
            final(self).word() == put_plain_src1(old(self).word(), op_imm, op_reg, op_cb, src),
            final(self).same_context(*old(self)),
    {
        match src.src_ref {
            SrcRef::Imm32(imm) => {
                self.set_opcode(op_imm);
                self.set_src_imm_f20(20, 39, 56, imm);
            },
            SrcRef::CBuf(cb) => {
                self.set_opcode(op_cb);
                self.set_src_cb(20, 39, &cb);
            },
            _ => {
                self.set_opcode(op_reg);
                self.set_reg_src_ref(20, 28, src.src_ref);
            },
        }
    }
}

/// Whether a modifier is none or negation.
pub fn check_fneg_mod(m: &SrcMod) -> (r: bool)
    ensures
        r == (m.is_float() && !m.fabs_spec()),
{
    matches!(m, SrcMod::Plain | SrcMod::FNeg)
}

pub fn check_reg_fneg_src(src: &Src) -> (r: bool)
    ensures
        r == reg_fneg_src_ok(*src),
{
    check_reg_ref(&src.src_ref) && check_fneg_mod(&src.src_mod)
}

pub fn check_fmod_src1(src: &Src) -> (r: bool)
    ensures
        r == fmod_src1_ok(*src),
{
    match src.src_ref {
        SrcRef::Zero | SrcRef::Reg(_) => check_reg_fmod_src(src),
        SrcRef::Imm32(i) => Src::fits_f20(i),
        SrcRef::CBuf(_) => check_cb_fmod_src(src),
        _ => false,
    }
}

pub fn check_fmod_src1_plain_imm(src: &Src) -> (r: bool)
    ensures
        r == fmod_src1_plain_imm_ok(*src),
{
    check_fmod_src1(src) && src.is_imm_unmodified()
}

pub fn check_fneg_src1(src: &Src) -> (r: bool)
    ensures
        r == fneg_src1_ok(*src),
{
    check_fneg_mod(&src.src_mod) && match src.src_ref {
        SrcRef::Zero | SrcRef::Reg(_) => check_reg_ref(&src.src_ref),
        SrcRef::Imm32(i) => Src::fits_f20(i),
        SrcRef::CBuf(cb) => check_cb(&cb),
        _ => false,
    }
}

impl SM50Op for OpFAdd {

    open spec fn can_legalize(&self, b: BuilderState) -> bool {
        &&& binary_ok(b, self.srcs[0], self.srcs[1], SrcType::F32, ImmRule::Any)
    }

    fn legalizable(&self, b: &LegalizeBuilder) -> (r: bool) {
        b.check_binary_ok(&self.srcs[0], &self.srcs[1], SrcType::F32, ImmRule::Any)
    }

    open spec fn legalized(&self, b: BuilderState) -> (Self, BuilderState) {
        let (b1, s0, s1) = binary_spec(
            b,
            self.srcs[0],
            self.srcs[1],
            SrcType::F32,
            ImmRule::Any,
        );
        (
            OpFAdd {
                srcs: [s0, s1],
                ..*self
            },
            b1,
        )
    }

    open spec fn is_legal(&self) -> bool {
        binary_legal(self.srcs[0], self.srcs[1], ImmRule::Any)
    }

    fn legalize(&mut self, b: &mut LegalizeBuilder) {
        let mut s0 = self.srcs[0];
        let mut s1 = self.srcs[1];
        b.legalize_binary(&mut s0, &mut s1, SrcType::F32, ImmRule::Any);
        self.srcs = [s0, s1];
    }

    /// The first source is a register; the second is a register, an
    /// unmodified immediate or a bound constant buffer.
    open spec fn can_encode(&self, e: EncodeState) -> bool {
        &&& dst_ok(self.dst)
        &&& reg_fmod_src_ok(self.srcs[0])
        &&& match self.srcs[1].src_ref {
            SrcRef::Zero | SrcRef::Reg(_) => reg_fmod_src_ok(self.srcs[1]),
            SrcRef::Imm32(_) => self.srcs[1].src_mod == SrcMod::Plain,
            SrcRef::CBuf(_) => cb_fmod_src_ok(self.srcs[1]),
            _ => false,
        }
    }

    /// An immediate with low bits set takes the long form, opcode
    /// 0x0800, with all 32 bits in 20..52.  Anything else takes a short
    /// form: 0x5c58 register, 0x3858 immediate, 0x4c58 constant buffer.
    open spec fn encoded(&self, e: EncodeState) -> u64 {
        let w = e.word;
        match self.srcs[1].imm_not_f20_spec() {
            Some(imm32) => {
                let w = put_opcode(w, 0x0800);
                let w = put_dst(w, self.dst);
                let w = put_reg_fmod_src(w, 8, 16, 54, 56, self.srcs[0]);
                let w = with_field(w, 20, 52, imm32 as u64);
                with_bit(w, 55, self.ftz)
            },
            None => {
                let w = put_fmod_src1(w, 0x3858, 0x5c58, 0x4c58, 49, 45, 45, self.srcs[1]);
                let w = put_dst(w, self.dst);
                let w = put_reg_fmod_src(w, 8, 16, 46, 48, self.srcs[0]);
                let w = with_field(w, 39, 41, rnd_mode_bits(self.rnd_mode));
                let w = with_bit(w, 44, self.ftz);
                with_bit(w, 50, self.saturate)
            },
        }
    }

    fn encodable(&self, e: &SM50Encoder<'_>) -> (r: bool) {
        check_dst(&self.dst) && check_reg_fmod_src(&self.srcs[0]) && match self.srcs[1].src_ref {
            SrcRef::Zero | SrcRef::Reg(_) => check_reg_fmod_src(&self.srcs[1]),
            SrcRef::Imm32(_) => self.srcs[1].src_mod.is_none(),
            SrcRef::CBuf(cb) => check_cb_fmod_src(&self.srcs[1]),
            _ => false,
        }
    }

    fn encode(&self, e: &mut SM50Encoder<'_>) {
        if let Some(imm32) = self.srcs[1].as_imm_not_f20() {
            e.set_opcode(0x0800);
            e.set_dst(self.dst);
            e.set_reg_fmod_src(8, 16, 54, 56, self.srcs[0]);
            e.set_src_imm32(20, 52, imm32);
            e.set_bit(55, self.ftz);
        } else {
            e.set_fmod_src1(0x3858, 0x5c58, 0x4c58, 49, 45, 45, self.srcs[1]);
            e.set_dst(self.dst);
            e.set_reg_fmod_src(8, 16, 46, 48, self.srcs[0]);
            e.set_rnd_mode(39, 41, self.rnd_mode);
            e.set_bit(44, self.ftz);
            e.set_bit(50, self.saturate);
        }
    }
}

impl SM50Op for OpFFma {

    /// The sources are in SSA form with float modifiers, and the one
    /// that ends up second carries no modifier if it is an immediate.
    open spec fn can_legalize(&self, b: BuilderState) -> bool {
        let (b1, a0) = lower_if_fabs(b, self.srcs[0], SrcType::F32);
        let (b2, a1) = lower_if_fabs(b1, self.srcs[1], SrcType::F32);
        &&& b.has_room(6)
        &&& src_ready(self.srcs[0]) && self.srcs[0].src_mod.is_float()
        &&& src_ready(self.srcs[1]) && self.srcs[1].src_mod.is_float()
        &&& src_ready(self.srcs[2]) && self.srcs[2].src_mod.is_float()
        &&& second_after_swap(a0, a1).imm_unmodified()
    }

    fn legalizable(&self, b: &LegalizeBuilder) -> (r: bool) {
        if !b.room_for(6) || !check_src_ready(&self.srcs[0]) || !self.srcs[0].src_mod.is_float_mod() || !check_src_ready(&self.srcs[1]) || !self.srcs[1].src_mod.is_float_mod() || !check_src_ready(&self.srcs[2]) || !self.srcs[2].src_mod.is_float_mod() {
            return false;
        }
        proof {
            lemma_lower_if_fabs(b@, self.srcs[0], SrcType::F32);
            lemma_lower_if_fabs(
                lower_if_fabs(b@, self.srcs[0], SrcType::F32).0,
                self.srcs[1],
                SrcType::F32,
            );
            lemma_lower_if_fabs(
                lower_if_fabs(
                    lower_if_fabs(b@, self.srcs[0], SrcType::F32).0,
                    self.srcs[1],
                    SrcType::F32,
                ).0,
                self.srcs[2],
                SrcType::F32,
            );
        }
        let r0: bool = self.srcs[0].src_mod.has_fabs() || src_is_reg(&self.srcs[0], RegFile::GPR);
        let r1: bool = self.srcs[1].src_mod.has_fabs() || src_is_reg(&self.srcs[1], RegFile::GPR);
        let swap: bool = !r0 && r1;
        let second_ok: bool = if swap {
            self.srcs[0].is_imm_unmodified()
        } else {
            self.srcs[1].src_mod.has_fabs() || self.srcs[1].is_imm_unmodified()
        };
        second_ok
    }

    /// Absolute values are computed into registers first, since the
    /// encoding has no flag for them.  Then a register is put first,
    /// the first and third sources are made registers, and a second
    /// source that is an immediate with low bits set is copied.
    open spec fn legalized(&self, b: BuilderState) -> (Self, BuilderState) {
        let (b1, a0) = lower_if_fabs(b, self.srcs[0], SrcType::F32);
        let (b2, a1) = lower_if_fabs(b1, self.srcs[1], SrcType::F32);
        let (b3, a2) = lower_if_fabs(b2, self.srcs[2], SrcType::F32);
        let (b4, s0) = to_reg(b3, first_after_swap(a0, a1), SrcType::F32);
        let (b5, s2) = to_reg(b4, a2, SrcType::F32);
        let (b6, s1) = fit_imm(b5, second_after_swap(a0, a1), SrcType::F32, ImmRule::F20);
        (OpFFma { srcs: [s0, s1, s2], ..*self }, b6)
    }

    open spec fn is_legal(&self) -> bool {
        &&& !self.srcs[0].src_mod.fabs_spec()
        &&& !self.srcs[1].src_mod.fabs_spec()
        &&& !self.srcs[2].src_mod.fabs_spec()
        &&& src_is_reg_spec(self.srcs[0], RegFile::GPR)
        &&& src_is_reg_spec(self.srcs[2], RegFile::GPR)
        &&& !imm_overflows(self.srcs[1], ImmRule::F20)
    }

    fn legalize(&mut self, b: &mut LegalizeBuilder) {
        let mut s0 = self.srcs[0];
        let mut s1 = self.srcs[1];
        let mut s2 = self.srcs[2];
        b.copy_alu_src_if_fabs(&mut s0, SrcType::F32);
        b.copy_alu_src_if_fabs(&mut s1, SrcType::F32);
        b.copy_alu_src_if_fabs(&mut s2, SrcType::F32);
        swap_srcs_if_not_reg(&mut s0, &mut s1, RegFile::GPR);
        b.src_to_reg(&mut s0, SrcType::F32);
        b.src_to_reg(&mut s2, SrcType::F32);
        b.src_fit_imm(&mut s1, SrcType::F32, ImmRule::F20);
        self.srcs = [s0, s1, s2];
    }

    /// No source takes an absolute value; the first and third are
    /// registers.
    open spec fn can_encode(&self, e: EncodeState) -> bool {
        &&& dst_ok(self.dst)
        &&& reg_fneg_src_ok(self.srcs[0])
        &&& fneg_src1_ok(self.srcs[1])
        &&& reg_fneg_src_ok(self.srcs[2])
    }

    /// 0x5980 register, 0x3280 immediate, 0x4980 constant buffer.  Bit
    /// 48 negates the product, bit 49 the addend.
    open spec fn encoded(&self, e: EncodeState) -> u64 {
        let w = put_plain_src1(e.word, 0x3280, 0x5980, 0x4980, self.srcs[1]);
        let w = put_dst(w, self.dst);
        let w = put_reg_src_ref(w, 8, 16, self.srcs[0].src_ref);
        let w = put_reg_src_ref(w, 39, 47, self.srcs[2].src_ref);
        let w = with_bit(
            w,
            48,
            self.srcs[0].src_mod.fneg_spec() != self.srcs[1].src_mod.fneg_spec(),
        );
        let w = with_bit(w, 49, self.srcs[2].src_mod.fneg_spec());
        let w = with_bit(w, 50, self.saturate);
        let w = with_field(w, 51, 53, rnd_mode_bits(self.rnd_mode));
        let w = with_bit(w, 53, self.ftz);
        with_bit(w, 54, self.dnz)
    }

    fn encodable(&self, e: &SM50Encoder<'_>) -> (r: bool) {
        check_dst(&self.dst) && check_reg_fneg_src(&self.srcs[0]) && check_fneg_src1(&self.srcs[1]) && check_reg_fneg_src(&self.srcs[2])
    }

    fn encode(&self, e: &mut SM50Encoder<'_>) {
        e.set_plain_src1(0x3280, 0x5980, 0x4980, self.srcs[1]);
        e.set_dst(self.dst);
        e.set_reg_src_ref(8, 16, self.srcs[0].src_ref);
        e.set_reg_src_ref(39, 47, self.srcs[2].src_ref);
        e.set_bit(48, self.srcs[0].src_mod.has_fneg() != self.srcs[1].src_mod.has_fneg());
        e.set_bit(49, self.srcs[2].src_mod.has_fneg());
        e.set_bit(50, self.saturate);
        e.set_rnd_mode(51, 53, self.rnd_mode);
        e.set_bit(53, self.ftz);
        e.set_bit(54, self.dnz);
    }
}

impl SM50Op for OpFMnMx {

    open spec fn can_legalize(&self, b: BuilderState) -> bool {
        &&& binary_ok(b, self.srcs[0], self.srcs[1], SrcType::F32, ImmRule::F20)
    }

    fn legalizable(&self, b: &LegalizeBuilder) -> (r: bool) {
        b.check_binary_ok(&self.srcs[0], &self.srcs[1], SrcType::F32, ImmRule::F20)
    }

    open spec fn legalized(&self, b: BuilderState) -> (Self, BuilderState) {
        let (b1, s0, s1) = binary_spec(
            b,
            self.srcs[0],
            self.srcs[1],
            SrcType::F32,
            ImmRule::F20,
        );
        (
            OpFMnMx {
                srcs: [s0, s1],
                ..*self
            },
            b1,
        )
    }

    open spec fn is_legal(&self) -> bool {
        binary_legal(self.srcs[0], self.srcs[1], ImmRule::F20)
    }

    fn legalize(&mut self, b: &mut LegalizeBuilder) {
        let mut s0 = self.srcs[0];
        let mut s1 = self.srcs[1];
        b.legalize_binary(&mut s0, &mut s1, SrcType::F32, ImmRule::F20);
        self.srcs = [s0, s1];
    }

    open spec fn can_encode(&self, e: EncodeState) -> bool {
        &&& dst_ok(self.dst)
        &&& reg_fmod_src_ok(self.srcs[0])
        &&& fmod_src1_ok(self.srcs[1])
        &&& pred_src_ok(self.min)
    }

    /// 0x5c60 register, 0x3860 immediate, 0x4c60 constant buffer.  The
    /// predicate in 39..42 selects the minimum.
    open spec fn encoded(&self, e: EncodeState) -> u64 {
        let w = put_fmod_src1(e.word, 0x3860, 0x5c60, 0x4c60, 49, 45, 45, self.srcs[1]);
        let w = put_reg_fmod_src(w, 8, 16, 46, 48, self.srcs[0]);
        let w = put_dst(w, self.dst);
        let w = put_pred_src(w, 39, 42, 42, self.min);
        with_bit(w, 44, self.ftz)
    }

    fn encodable(&self, e: &SM50Encoder<'_>) -> (r: bool) {
        check_dst(&self.dst) && check_reg_fmod_src(&self.srcs[0]) && check_fmod_src1(&self.srcs[1]) && check_pred_src(&self.min)
    }

    fn encode(&self, e: &mut SM50Encoder<'_>) {
        e.set_fmod_src1(0x3860, 0x5c60, 0x4c60, 49, 45, 45, self.srcs[1]);
        e.set_reg_fmod_src(8, 16, 46, 48, self.srcs[0]);
        e.set_dst(self.dst);
        e.set_pred_src(39, 42, 42, self.min);
        e.set_bit(44, self.ftz);
    }
}

impl SM50Op for OpFMul {

    open spec fn can_legalize(&self, b: BuilderState) -> bool {
        &&& binary_ok(b, self.srcs[0], self.srcs[1], SrcType::F32, ImmRule::Any)
    }

    fn legalizable(&self, b: &LegalizeBuilder) -> (r: bool) {
        b.check_binary_ok(&self.srcs[0], &self.srcs[1], SrcType::F32, ImmRule::Any)
    }

    open spec fn legalized(&self, b: BuilderState) -> (Self, BuilderState) {
        let (b1, s0, s1) = binary_spec(
            b,
            self.srcs[0],
            self.srcs[1],
            SrcType::F32,
            ImmRule::Any,
        );
        (
            OpFMul {
                srcs: [s0, s1],
                ..*self
            },
            b1,
        )
    }

    open spec fn is_legal(&self) -> bool {
        binary_legal(self.srcs[0], self.srcs[1], ImmRule::Any)
    }

    fn legalize(&mut self, b: &mut LegalizeBuilder) {
        let mut s0 = self.srcs[0];
        let mut s1 = self.srcs[1];
        b.legalize_binary(&mut s0, &mut s1, SrcType::F32, ImmRule::Any);
        self.srcs = [s0, s1];
    }

    /// The first source is a register.  The second is an unmodified
    /// register or immediate, or a bound constant buffer that may be
    /// negated.
    open spec fn can_encode(&self, e: EncodeState) -> bool {
        &&& dst_ok(self.dst)
        &&& reg_fmod_src_ok(self.srcs[0])
        &&& match self.srcs[1].src_ref {
            SrcRef::Zero | SrcRef::Reg(_) => reg_src_ok(self.srcs[1]),
            SrcRef::Imm32(_) => self.srcs[1].src_mod == SrcMod::Plain,
            SrcRef::CBuf(cb) => cb_ok(cb) && self.srcs[1].src_mod.is_float(),
            _ => false,
        }
    }

    /// An immediate with low bits set takes the long form, opcode
    /// 0x1e00.  The short forms are 0x5c68 register, 0x3868 immediate,
    /// 0x4c68 constant buffer.  The flags of the first source are
    /// written last, so bit 48 ends as the negation of the first
    /// source.
    open spec fn encoded(&self, e: EncodeState) -> u64 {
        let w = e.word;
        let neg = self.srcs[0].src_mod.fneg_spec() != self.srcs[1].src_mod.fneg_spec();
        let w = match self.srcs[1].imm_not_f20_spec() {
            Some(imm32) => {
                let w = put_opcode(w, 0x1e00);
                let w = with_bit(w, 53, self.ftz);
                let w = with_bit(w, 54, self.dnz);
                let w = with_bit(w, 55, self.saturate);
                let w = with_field(w, 20, 52, imm32 as u64);
                with_bit(w, 19, neg)
            },
            None => {
                let w = put_plain_src1(w, 0x3868, 0x5c68, 0x4c68, self.srcs[1]);
                let w = with_field(w, 39, 41, rnd_mode_bits(self.rnd_mode));
                let w = with_field(w, 41, 44, 0);
                let w = with_bit(w, 44, self.ftz);
                let w = with_bit(w, 45, self.dnz);
                let w = with_bit(w, 48, neg);
                with_bit(w, 50, self.saturate)
            },
        };
        let w = put_reg_fmod_src(w, 8, 16, 46, 48, self.srcs[0]);
        put_dst(w, self.dst)
    }

    fn encodable(&self, e: &SM50Encoder<'_>) -> (r: bool) {
        check_dst(&self.dst) && check_reg_fmod_src(&self.srcs[0]) && match self.srcs[1].src_ref {
            SrcRef::Zero | SrcRef::Reg(_) => check_reg_src(&self.srcs[1]),
            SrcRef::Imm32(_) => self.srcs[1].src_mod.is_none(),
            SrcRef::CBuf(cb) => check_cb(&cb) && self.srcs[1].src_mod.is_float_mod(),
            _ => false,
        }
    }

    fn encode(&self, e: &mut SM50Encoder<'_>) {
        proof {
            lemma_mask_values();
        }
        let neg: bool = self.srcs[0].src_mod.has_fneg() != self.srcs[1].src_mod.has_fneg();
        if let Some(imm32) = self.srcs[1].as_imm_not_f20() {
            e.set_opcode(0x1e00);
            e.set_bit(53, self.ftz);
            e.set_bit(54, self.dnz);
            e.set_bit(55, self.saturate);
            e.set_src_imm32(20, 52, imm32);
            e.set_bit(19, neg);
        } else {
            e.set_plain_src1(0x3868, 0x5c68, 0x4c68, self.srcs[1]);
            e.set_rnd_mode(39, 41, self.rnd_mode);
            e.set_field(41, 44, 0);
            e.set_bit(44, self.ftz);
            e.set_bit(45, self.dnz);
            e.set_bit(48, neg);
            e.set_bit(50, self.saturate);
        }
        e.set_reg_fmod_src(8, 16, 46, 48, self.srcs[0]);
        e.set_dst(self.dst);
    }
}

impl SM50Op for OpRro {

    open spec fn can_legalize(&self, b: BuilderState) -> bool {
        &&& b.has_room(1)
        &&& imm_ruled(self.src, SrcType::F32, ImmRule::F20)
    }

    fn legalizable(&self, b: &LegalizeBuilder) -> (r: bool) {
        b.room_for(1)
            && check_imm_ruled(&self.src, SrcType::F32, ImmRule::F20)
    }

    open spec fn legalized(&self, b: BuilderState) -> (Self, BuilderState) {
        let (b1, src_1) = fit_imm(b, self.src, SrcType::F32, ImmRule::F20);
        (OpRro { src: src_1, ..*self }, b1)
    }

    open spec fn is_legal(&self) -> bool {
        &&& !imm_overflows(self.src, ImmRule::F20)
    }

    fn legalize(&mut self, b: &mut LegalizeBuilder) {
        let mut src = self.src;
        b.src_fit_imm(&mut src, SrcType::F32, ImmRule::F20);
        self.src = src;
    }

    open spec fn can_encode(&self, e: EncodeState) -> bool {
        dst_ok(self.dst) && fmod_src1_ok(self.src)
    }

    /// 0x5c90 register, 0x3890 immediate, 0x4c90 constant buffer.
    open spec fn encoded(&self, e: EncodeState) -> u64 {
        let w = put_fmod_src1(e.word, 0x3890, 0x5c90, 0x4c90, 49, 45, 45, self.src);
        let w = put_dst(w, self.dst);
        with_field(w, 39, 40, rro_op_bits(self.op))
    }

    fn encodable(&self, e: &SM50Encoder<'_>) -> (r: bool) {
        check_dst(&self.dst) && check_fmod_src1(&self.src)
    }

    fn encode(&self, e: &mut SM50Encoder<'_>) {
        proof {
            lemma_mask_values();
        }
        e.set_fmod_src1(0x3890, 0x5c90, 0x4c90, 49, 45, 45, self.src);
        e.set_dst(self.dst);
        e.set_field(
            39,
            40,
            match self.op {
                RroOp::SinCos => 0,
                RroOp::Exp2 => 1,
            },
        );
    }
}

impl SM50Op for OpMuFu {

    open spec fn can_legalize(&self, b: BuilderState) -> bool {
        &&& b.has_room(1)
        &&& copyable(self.src, SrcType::GPR)
    }

    fn legalizable(&self, b: &LegalizeBuilder) -> (r: bool) {
        b.room_for(1)
            && check_copyable(&self.src, SrcType::GPR)
    }

    open spec fn legalized(&self, b: BuilderState) -> (Self, BuilderState) {
        let (b1, src_1) = to_reg(b, self.src, SrcType::GPR);
        (OpMuFu { src: src_1, ..*self }, b1)
    }

    open spec fn is_legal(&self) -> bool {
        &&& src_is_reg_spec(self.src, RegFile::GPR)
    }

    fn legalize(&mut self, b: &mut LegalizeBuilder) {
        let mut src = self.src;
        b.src_to_reg(&mut src, SrcType::GPR);
        self.src = src;
    }

    open spec fn can_encode(&self, e: EncodeState) -> bool {
        dst_ok(self.dst) && reg_fmod_src_ok(self.src) && mufu_op_ok(self.op, e.sm)
    }

    /// Opcode 0x5080, the function in 20..24.
    open spec fn encoded(&self, e: EncodeState) -> u64 {
        let w = put_opcode(e.word, 0x5080);
        let w = put_dst(w, self.dst);
        let w = put_reg_fmod_src(w, 8, 16, 46, 48, self.src);
        with_field(w, 20, 24, mufu_op_bits(self.op))
    }

    fn encodable(&self, e: &SM50Encoder<'_>) -> (r: bool) {
        check_dst(&self.dst) && check_reg_fmod_src(&self.src) && match self.op {
            MuFuOp::Sqrt => e.sm >= 52,
            MuFuOp::Tanh => false,
            _ => true,
        }
    }

    fn encode(&self, e: &mut SM50Encoder<'_>) {
        proof {
            lemma_mask_values();
        }
        e.set_opcode(0x5080);
        e.set_dst(self.dst);
        e.set_reg_fmod_src(8, 16, 46, 48, self.src);
        e.set_field(
            20,
            24,
            match self.op {
                MuFuOp::Cos => 0,
                MuFuOp::Sin => 1,
                MuFuOp::Exp2 => 2,
                MuFuOp::Log2 => 3,
                MuFuOp::Rcp => 4,
                MuFuOp::Rsq => 5,
                MuFuOp::Rcp64H => 6,
                MuFuOp::Rsq64H => 7,
                _ => 8,
            },
        );
    }
}

impl SM50Op for OpFSet {

    open spec fn can_legalize(&self, b: BuilderState) -> bool {
        &&& binary_ok(b, self.srcs[0], self.srcs[1], SrcType::F32, ImmRule::F20)
        &&& (swapped(self.srcs[0], self.srcs[1], RegFile::GPR) ==> self.compare_op.is_binary())
    }

    fn legalizable(&self, b: &LegalizeBuilder) -> (r: bool) {
        b.check_binary_ok(&self.srcs[0], &self.srcs[1], SrcType::F32, ImmRule::F20) && (!check_swapped(&self.srcs[0], &self.srcs[1]) || self.compare_op.is_binary_op())
    }

    open spec fn legalized(&self, b: BuilderState) -> (Self, BuilderState) {
        let (b1, s0, s1) = binary_spec(
            b,
            self.srcs[0],
            self.srcs[1],
            SrcType::F32,
            ImmRule::F20,
        );
        (
            OpFSet {
                srcs: [s0, s1],
                compare_op: if swapped(self.srcs[0], self.srcs[1], RegFile::GPR) {
                    self.compare_op.flip_spec()
                } else {
                    self.compare_op
                },
                ..*self
            },
            b1,
        )
    }

    open spec fn is_legal(&self) -> bool {
        binary_legal(self.srcs[0], self.srcs[1], ImmRule::F20)
    }

    fn legalize(&mut self, b: &mut LegalizeBuilder) {
        let mut s0 = self.srcs[0];
        let mut s1 = self.srcs[1];
        if b.legalize_binary(&mut s0, &mut s1, SrcType::F32, ImmRule::F20) {
            self.compare_op = self.compare_op.flip();
        }
        self.srcs = [s0, s1];
    }

    open spec fn can_encode(&self, e: EncodeState) -> bool {
        &&& dst_ok(self.dst)
        &&& reg_fmod_src_ok(self.srcs[0])
        &&& fmod_src1_ok(self.srcs[1])
    }

    /// 0x5800 register, 0x3000 immediate, 0x4800 constant buffer.  The
    /// comparison is in 48..52; bit 52 asks for a float result.
    open spec fn encoded(&self, e: EncodeState) -> u64 {
        let w = put_fmod_src1(e.word, 0x3000, 0x5800, 0x4800, 44, 53, 6, self.srcs[1]);
        let w = put_reg_fmod_src(w, 8, 16, 54, 43, self.srcs[0]);
        let w = put_pred_src(w, 39, 42, 42, Src { src_ref: SrcRef::True, src_mod: SrcMod::Plain });
        let w = with_field(w, 48, 52, float_compare_bits(self.compare_op));
        let w = with_bit(w, 52, true);
        let w = with_bit(w, 55, self.ftz);
        put_dst(w, self.dst)
    }

    fn encodable(&self, e: &SM50Encoder<'_>) -> (r: bool) {
        check_dst(&self.dst) && check_reg_fmod_src(&self.srcs[0]) && check_fmod_src1(&self.srcs[1])
    }

    fn encode(&self, e: &mut SM50Encoder<'_>) {
        e.set_fmod_src1(0x3000, 0x5800, 0x4800, 44, 53, 6, self.srcs[1]);
        e.set_reg_fmod_src(8, 16, 54, 43, self.srcs[0]);
        e.set_pred_src(39, 42, 42, Src::from_ref(SrcRef::True));
        e.set_float_compare_op(48, 52, self.compare_op);
        e.set_bit(52, true);
        e.set_bit(55, self.ftz);
        e.set_dst(self.dst);
    }
}

impl SM50Op for OpFSetP {

    open spec fn can_legalize(&self, b: BuilderState) -> bool {
        &&& binary_ok(b, self.srcs[0], self.srcs[1], SrcType::F32, ImmRule::F20)
        &&& (swapped(self.srcs[0], self.srcs[1], RegFile::GPR) ==> self.compare_op.is_binary())
    }

    fn legalizable(&self, b: &LegalizeBuilder) -> (r: bool) {
        b.check_binary_ok(&self.srcs[0], &self.srcs[1], SrcType::F32, ImmRule::F20) && (!check_swapped(&self.srcs[0], &self.srcs[1]) || self.compare_op.is_binary_op())
    }

    open spec fn legalized(&self, b: BuilderState) -> (Self, BuilderState) {
        let (b1, s0, s1) = binary_spec(
            b,
            self.srcs[0],
            self.srcs[1],
            SrcType::F32,
            ImmRule::F20,
        );
        (
            OpFSetP {
                srcs: [s0, s1],
                compare_op: if swapped(self.srcs[0], self.srcs[1], RegFile::GPR) {
                    self.compare_op.flip_spec()
                } else {
                    self.compare_op
                },
                ..*self
            },
            b1,
        )
    }

    open spec fn is_legal(&self) -> bool {
        binary_legal(self.srcs[0], self.srcs[1], ImmRule::F20)
    }

    fn legalize(&mut self, b: &mut LegalizeBuilder) {
        let mut s0 = self.srcs[0];
        let mut s1 = self.srcs[1];
        if b.legalize_binary(&mut s0, &mut s1, SrcType::F32, ImmRule::F20) {
            self.compare_op = self.compare_op.flip();
        }
        self.srcs = [s0, s1];
    }

    open spec fn can_encode(&self, e: EncodeState) -> bool {
        &&& pred_dst_ok(self.dst)
        &&& reg_fmod_src_ok(self.srcs[0])
        &&& fmod_src1_ok(self.srcs[1])
        &&& pred_src_ok(self.accum)
    }

    /// 0x5bb0 register, 0x36b0 immediate, 0x4bb0 constant buffer.  The
    /// result goes to the predicate in 3..6; the second result is
    /// unused.
    open spec fn encoded(&self, e: EncodeState) -> u64 {
        let w = put_fmod_src1(e.word, 0x36b0, 0x5bb0, 0x4bb0, 44, 6, 6, self.srcs[1]);
        let w = put_pred_dst(w, 3, 6, self.dst);
        let w = put_pred_dst(w, 0, 3, crate::ir::Dst::Discard);
        let w = put_pred_src(w, 39, 42, 42, self.accum);
        let w = with_field(w, 45, 47, pred_set_op_bits(self.set_op));
        let w = with_bit(w, 47, self.ftz);
        let w = with_field(w, 48, 52, float_compare_bits(self.compare_op));
        put_reg_fmod_src(w, 8, 16, 7, 43, self.srcs[0])
    }

    fn encodable(&self, e: &SM50Encoder<'_>) -> (r: bool) {
        check_pred_dst(&self.dst) && check_reg_fmod_src(&self.srcs[0]) && check_fmod_src1(&self.srcs[1]) && check_pred_src(&self.accum)
    }

    fn encode(&self, e: &mut SM50Encoder<'_>) {
        e.set_fmod_src1(0x36b0, 0x5bb0, 0x4bb0, 44, 6, 6, self.srcs[1]);
        e.set_pred_dst(3, 6, self.dst);
        e.set_pred_dst(0, 3, crate::ir::Dst::Discard);
        e.set_pred_src(39, 42, 42, self.accum);
        e.set_pred_set_op(45, 47, self.set_op);
        e.set_bit(47, self.ftz);
        e.set_float_compare_op(48, 52, self.compare_op);
        e.set_reg_fmod_src(8, 16, 7, 43, self.srcs[0]);
    }
}

impl<'a> SM50Encoder<'a> {
    /// Writes what one lane of a swizzled add computes.
    pub fn set_fswzadd_op(&mut self, lo: u32, hi: u32, op: FSwzAddOp)
        requires
            hi == lo + 2,
            hi <= 64,
        ensures
            final(self).word() == with_field(old(self).word(), lo, hi, fswzadd_op_bits(op)),
            final(self).same_context(*old(self)),
    {
        proof {
            lemma_mask_values();
        }
        let v: u64 = match op {
            FSwzAddOp::Add => 0,
            FSwzAddOp::SubLeft => 1,
            FSwzAddOp::SubRight => 2,
            FSwzAddOp::MoveLeft => 3,
        };
        self.set_field(lo, hi, v);
    }
}

impl SM50Op for OpFSwzAdd {

    open spec fn can_legalize(&self, b: BuilderState) -> bool {
        &&& b.has_room(2)
        &&& copyable(self.srcs[0], SrcType::GPR)
        &&& copyable(self.srcs[1], SrcType::GPR)
    }

    fn legalizable(&self, b: &LegalizeBuilder) -> (r: bool) {
        b.room_for(2)
            && check_copyable(&self.srcs[0], SrcType::GPR)
            && check_copyable(&self.srcs[1], SrcType::GPR)
    }

    open spec fn legalized(&self, b: BuilderState) -> (Self, BuilderState) {
        let (b1, s0_1) = to_reg(b, self.srcs[0], SrcType::GPR);
        let (b2, s1_2) = to_reg(b1, self.srcs[1], SrcType::GPR);
        (OpFSwzAdd { srcs: [s0_1, s1_2], ..*self }, b2)
    }

    open spec fn is_legal(&self) -> bool {
        &&& src_is_reg_spec(self.srcs[0], RegFile::GPR)
        &&& src_is_reg_spec(self.srcs[1], RegFile::GPR)
    }

    fn legalize(&mut self, b: &mut LegalizeBuilder) {
        let mut s0 = self.srcs[0];
        b.src_to_reg(&mut s0, SrcType::GPR);
        let mut s1 = self.srcs[1];
        b.src_to_reg(&mut s1, SrcType::GPR);
        self.srcs = [s0, s1];
    }

    open spec fn can_encode(&self, e: EncodeState) -> bool {
        dst_ok(self.dst) && reg_src_ok(self.srcs[0]) && reg_src_ok(self.srcs[1])
    }

    /// Opcode 0x50f8; the four lane operations take two bits each from
    /// bit 28.
    open spec fn encoded(&self, e: EncodeState) -> u64 {
        let w = put_opcode(e.word, 0x50f8);
        let w = put_dst(w, self.dst);
        let w = put_reg_src_ref(w, 8, 16, self.srcs[0].src_ref);
        let w = put_reg_src_ref(w, 20, 28, self.srcs[1].src_ref);
        let w = with_field(w, 39, 41, rnd_mode_bits(self.rnd_mode));
        let w = with_field(w, 28, 30, fswzadd_op_bits(self.ops[0]));
        let w = with_field(w, 30, 32, fswzadd_op_bits(self.ops[1]));
        let w = with_field(w, 32, 34, fswzadd_op_bits(self.ops[2]));
        let w = with_field(w, 34, 36, fswzadd_op_bits(self.ops[3]));
        let w = with_bit(w, 38, false);
        let w = with_bit(w, 44, self.ftz);
        with_bit(w, 47, false)
    }

    fn encodable(&self, e: &SM50Encoder<'_>) -> (r: bool) {
        check_dst(&self.dst) && check_reg_src(&self.srcs[0]) && check_reg_src(&self.srcs[1])
    }

    fn encode(&self, e: &mut SM50Encoder<'_>) {
        e.set_opcode(0x50f8);
        e.set_dst(self.dst);
        e.set_reg_src(8, 16, self.srcs[0]);
        e.set_reg_src(20, 28, self.srcs[1]);
        e.set_rnd_mode(39, 41, self.rnd_mode);
        e.set_fswzadd_op(28, 30, self.ops[0]);
        e.set_fswzadd_op(30, 32, self.ops[1]);
        e.set_fswzadd_op(32, 34, self.ops[2]);
        e.set_fswzadd_op(34, 36, self.ops[3]);
        e.set_bit(38, false);  /* .NDV */
        e.set_bit(44, self.ftz);
        e.set_bit(47, false);  /* dst.CC */
    }
}

impl SM50Op for OpDAdd {

    open spec fn can_legalize(&self, b: BuilderState) -> bool {
        &&& binary_ok(b, self.srcs[0], self.srcs[1], SrcType::F64, ImmRule::F20)
    }

    fn legalizable(&self, b: &LegalizeBuilder) -> (r: bool) {
        b.check_binary_ok(&self.srcs[0], &self.srcs[1], SrcType::F64, ImmRule::F20)
    }

    open spec fn legalized(&self, b: BuilderState) -> (Self, BuilderState) {
        let (b1, s0, s1) = binary_spec(
            b,
            self.srcs[0],
            self.srcs[1],
            SrcType::F64,
            ImmRule::F20,
        );
        (
            OpDAdd {
                srcs: [s0, s1],
                ..*self
            },
            b1,
        )
    }

    open spec fn is_legal(&self) -> bool {
        binary_legal(self.srcs[0], self.srcs[1], ImmRule::F20)
    }

    fn legalize(&mut self, b: &mut LegalizeBuilder) {
        let mut s0 = self.srcs[0];
        let mut s1 = self.srcs[1];
        b.legalize_binary(&mut s0, &mut s1, SrcType::F64, ImmRule::F20);
        self.srcs = [s0, s1];
    }

    open spec fn can_encode(&self, e: EncodeState) -> bool {
        &&& dst_ok(self.dst)
        &&& reg_fmod_src_ok(self.srcs[0])
        &&& fmod_src1_plain_imm_ok(self.srcs[1])
    }

    /// 0x5c70 register, 0x3870 immediate, 0x4c70 constant buffer.
    open spec fn encoded(&self, e: EncodeState) -> u64 {
        let w = put_fmod_src1(e.word, 0x3870, 0x5c70, 0x4c70, 49, 45, 45, self.srcs[1]);
        let w = put_dst(w, self.dst);
        let w = put_reg_fmod_src(w, 8, 16, 46, 48, self.srcs[0]);
        with_field(w, 39, 41, rnd_mode_bits(self.rnd_mode))
    }

    fn encodable(&self, e: &SM50Encoder<'_>) -> (r: bool) {
        check_dst(&self.dst) && check_reg_fmod_src(&self.srcs[0]) && check_fmod_src1_plain_imm(&self.srcs[1])
    }

    fn encode(&self, e: &mut SM50Encoder<'_>) {
        e.set_fmod_src1(0x3870, 0x5c70, 0x4c70, 49, 45, 45, self.srcs[1]);
        e.set_dst(self.dst);
        e.set_reg_fmod_src(8, 16, 46, 48, self.srcs[0]);
        e.set_rnd_mode(39, 41, self.rnd_mode);
    }
}

impl SM50Op for OpDFma {

    /// The sources are in SSA form with float modifiers; those that
    /// may have to be copied can be copied as 64-bit values, and the
    /// one that ends up second carries no modifier if it is an
    /// immediate.
    open spec fn can_legalize(&self, b: BuilderState) -> bool {
        let (b1, a0) = lower_if_fabs(b, self.srcs[0], SrcType::F64);
        let (b2, a1) = lower_if_fabs(b1, self.srcs[1], SrcType::F64);
        let (b3, a2) = lower_if_fabs(b2, self.srcs[2], SrcType::F64);
        &&& b.has_room(12)
        &&& src_ready(self.srcs[0]) && self.srcs[0].src_mod.is_float()
        &&& src_ready(self.srcs[1]) && self.srcs[1].src_mod.is_float()
        &&& src_ready(self.srcs[2]) && self.srcs[2].src_mod.is_float()
        &&& copyable(first_after_swap(a0, a1), SrcType::F64)
        &&& second_after_swap(a0, a1).imm_unmodified()
        &&& copyable(a2, SrcType::F64) || a2.src_ref is Imm32
    }

    fn legalizable(&self, b: &LegalizeBuilder) -> (r: bool) {
        if !b.room_for(12) || !check_src_ready(&self.srcs[0]) || !self.srcs[0].src_mod.is_float_mod() || !check_src_ready(&self.srcs[1]) || !self.srcs[1].src_mod.is_float_mod() || !check_src_ready(&self.srcs[2]) || !self.srcs[2].src_mod.is_float_mod() {
            return false;
        }
        proof {
            lemma_lower_if_fabs(b@, self.srcs[0], SrcType::F64);
            lemma_lower_if_fabs(
                lower_if_fabs(b@, self.srcs[0], SrcType::F64).0,
                self.srcs[1],
                SrcType::F64,
            );
            lemma_lower_if_fabs(
                lower_if_fabs(
                    lower_if_fabs(b@, self.srcs[0], SrcType::F64).0,
                    self.srcs[1],
                    SrcType::F64,
                ).0,
                self.srcs[2],
                SrcType::F64,
            );
        }
        let r0: bool = self.srcs[0].src_mod.has_fabs() || src_is_reg(&self.srcs[0], RegFile::GPR);
        let r1: bool = self.srcs[1].src_mod.has_fabs() || src_is_reg(&self.srcs[1], RegFile::GPR);
        let swap: bool = !r0 && r1;
        let second_ok: bool = if swap {
            self.srcs[0].is_imm_unmodified()
        } else {
            self.srcs[1].src_mod.has_fabs() || self.srcs[1].is_imm_unmodified()
        };
        let first_ok: bool = swap || self.srcs[0].src_mod.has_fabs() || check_copyable(
            &self.srcs[0],
            SrcType::F64,
        );
        let third_ok: bool = self.srcs[2].src_mod.has_fabs() || check_copyable(
            &self.srcs[2],
            SrcType::F64,
        ) || matches!(self.srcs[2].src_ref, SrcRef::Imm32(_));
        first_ok && second_ok && third_ok
    }

    /// Absolute values are computed into registers first, and the
    /// first two sources are legalized as a commutative pair.  The
    /// encoding takes one source that is no register: if the second is
    /// a register, the third may stay anything but an immediate; else
    /// the third is made a register.
    open spec fn legalized(&self, b: BuilderState) -> (Self, BuilderState) {
        let (b1, a0) = lower_if_fabs(b, self.srcs[0], SrcType::F64);
        let (b2, a1) = lower_if_fabs(b1, self.srcs[1], SrcType::F64);
        let (b3, a2) = lower_if_fabs(b2, self.srcs[2], SrcType::F64);
        let (b4, s0, s1) = binary_spec(b3, a0, a1, SrcType::F64, ImmRule::F20);
        let (b5, s2) = if src_is_reg_spec(s1, RegFile::GPR) {
            imm_to_reg(b4, a2, SrcType::F64)
        } else {
            to_reg(b4, a2, SrcType::F64)
        };
        (OpDFma { srcs: [s0, s1, s2], ..*self }, b5)
    }

    open spec fn is_legal(&self) -> bool {
        &&& !self.srcs[0].src_mod.fabs_spec()
        &&& !self.srcs[1].src_mod.fabs_spec()
        &&& !self.srcs[2].src_mod.fabs_spec()
        &&& binary_legal(self.srcs[0], self.srcs[1], ImmRule::F20)
        &&& if src_is_reg_spec(self.srcs[1], RegFile::GPR) {
            !(self.srcs[2].src_ref is Imm32)
        } else {
            src_is_reg_spec(self.srcs[2], RegFile::GPR)
        }
    }

    fn legalize(&mut self, b: &mut LegalizeBuilder) {
        let mut s0 = self.srcs[0];
        let mut s1 = self.srcs[1];
        let mut s2 = self.srcs[2];
        b.copy_alu_src_if_fabs(&mut s0, SrcType::F64);
        b.copy_alu_src_if_fabs(&mut s1, SrcType::F64);
        b.copy_alu_src_if_fabs(&mut s2, SrcType::F64);
        b.legalize_binary(&mut s0, &mut s1, SrcType::F64, ImmRule::F20);
        if src_is_reg(&s1, RegFile::GPR) {
            b.src_imm_to_reg(&mut s2, SrcType::F64);
        } else {
            b.src_to_reg(&mut s2, SrcType::F64);
        }
        self.srcs = [s0, s1, s2];
    }

    /// No source takes an absolute value and the first is a register.
    /// Either the third is a register and the second is anything but a
    /// modified immediate, or the third is a bound constant buffer and
    /// the second a register.
    open spec fn can_encode(&self, e: EncodeState) -> bool {
        &&& dst_ok(self.dst)
        &&& reg_fneg_src_ok(self.srcs[0])
        &&& self.srcs[1].src_mod.is_float() && !self.srcs[1].src_mod.fabs_spec()
        &&& self.srcs[2].src_mod.is_float() && !self.srcs[2].src_mod.fabs_spec()
        &&& match self.srcs[2].src_ref {
            SrcRef::Zero | SrcRef::Reg(_) => reg_ref_ok(self.srcs[2].src_ref) && fneg_src1_ok(
                self.srcs[1],
            ) && (self.srcs[1].src_ref is Imm32 ==> self.srcs[1].src_mod == SrcMod::Plain),
            SrcRef::CBuf(cb) => cb_ok(cb) && reg_ref_ok(self.srcs[1].src_ref),
            _ => false,
        }
    }

    /// With a register addend: 0x5b70 register, 0x3670 immediate,
    /// 0x4b70 constant buffer.  With a constant-buffer addend: 0x5370,
    /// and the second source moves to 39..47.
    open spec fn encoded(&self, e: EncodeState) -> u64 {
        let w = e.word;
        let w = match self.srcs[2].src_ref {
            SrcRef::CBuf(cb) => {
                let w = put_opcode(w, 0x5370);
                let w = put_reg_src_ref(w, 39, 47, self.srcs[1].src_ref);
                put_src_cb(w, 20, cb)
            },
            _ => {
                let w = put_plain_src1(w, 0x3670, 0x5b70, 0x4b70, self.srcs[1]);
                put_reg_src_ref(w, 39, 47, self.srcs[2].src_ref)
            },
        };
        let w = put_dst(w, self.dst);
        let w = put_reg_src_ref(w, 8, 16, self.srcs[0].src_ref);
        let w = with_bit(
            w,
            48,
            self.srcs[0].src_mod.fneg_spec() != self.srcs[1].src_mod.fneg_spec(),
        );
        let w = with_bit(w, 49, self.srcs[2].src_mod.fneg_spec());
        with_field(w, 50, 52, rnd_mode_bits(self.rnd_mode))
    }

    fn encodable(&self, e: &SM50Encoder<'_>) -> (r: bool) {
        check_dst(&self.dst) && check_reg_fneg_src(&self.srcs[0]) && check_fneg_mod(
            &self.srcs[1].src_mod,
        ) && check_fneg_mod(&self.srcs[2].src_mod) && match self.srcs[2].src_ref {
            SrcRef::Zero | SrcRef::Reg(_) => check_reg_ref(&self.srcs[2].src_ref) && check_fneg_src1(
                &self.srcs[1],
            ) && self.srcs[1].is_imm_unmodified(),
            SrcRef::CBuf(cb) => check_cb(&cb) && check_reg_ref(&self.srcs[1].src_ref),
            _ => false,
        }
    }

    fn encode(&self, e: &mut SM50Encoder<'_>) {
        match self.srcs[2].src_ref {
            SrcRef::CBuf(cb) => {
                e.set_opcode(0x5370);
                e.set_reg_src_ref(39, 47, self.srcs[1].src_ref);
                e.set_src_cb(20, 39, &cb);
            },
            _ => {
                e.set_plain_src1(0x3670, 0x5b70, 0x4b70, self.srcs[1]);
                e.set_reg_src_ref(39, 47, self.srcs[2].src_ref);
            },
        }
        e.set_dst(self.dst);
        e.set_reg_src_ref(8, 16, self.srcs[0].src_ref);
        e.set_bit(48, self.srcs[0].src_mod.has_fneg() != self.srcs[1].src_mod.has_fneg());
        e.set_bit(49, self.srcs[2].src_mod.has_fneg());
        e.set_rnd_mode(50, 52, self.rnd_mode);
    }
}

impl SM50Op for OpDMnMx {

    open spec fn can_legalize(&self, b: BuilderState) -> bool {
        &&& binary_ok(b, self.srcs[0], self.srcs[1], SrcType::F64, ImmRule::F20)
    }

    fn legalizable(&self, b: &LegalizeBuilder) -> (r: bool) {
        b.check_binary_ok(&self.srcs[0], &self.srcs[1], SrcType::F64, ImmRule::F20)
    }

    open spec fn legalized(&self, b: BuilderState) -> (Self, BuilderState) {
        let (b1, s0, s1) = binary_spec(
            b,
            self.srcs[0],
            self.srcs[1],
            SrcType::F64,
            ImmRule::F20,
        );
        (
            OpDMnMx {
                srcs: [s0, s1],
                ..*self
            },
            b1,
        )
    }

    open spec fn is_legal(&self) -> bool {
        binary_legal(self.srcs[0], self.srcs[1], ImmRule::F20)
    }

    fn legalize(&mut self, b: &mut LegalizeBuilder) {
        let mut s0 = self.srcs[0];
        let mut s1 = self.srcs[1];
        b.legalize_binary(&mut s0, &mut s1, SrcType::F64, ImmRule::F20);
        self.srcs = [s0, s1];
    }

    open spec fn can_encode(&self, e: EncodeState) -> bool {
        &&& dst_ok(self.dst)
        &&& reg_fmod_src_ok(self.srcs[0])
        &&& fmod_src1_ok(self.srcs[1])
        &&& pred_src_ok(self.min)
    }

    /// 0x5c50 register, 0x3850 immediate, 0x4c50 constant buffer.
    open spec fn encoded(&self, e: EncodeState) -> u64 {
        let w = put_fmod_src1(e.word, 0x3850, 0x5c50, 0x4c50, 49, 45, 45, self.srcs[1]);
        let w = put_reg_fmod_src(w, 8, 16, 46, 48, self.srcs[0]);
        let w = put_dst(w, self.dst);
        put_pred_src(w, 39, 42, 42, self.min)
    }

    fn encodable(&self, e: &SM50Encoder<'_>) -> (r: bool) {
        check_dst(&self.dst) && check_reg_fmod_src(&self.srcs[0]) && check_fmod_src1(&self.srcs[1]) && check_pred_src(&self.min)
    }

    fn encode(&self, e: &mut SM50Encoder<'_>) {
        e.set_fmod_src1(0x3850, 0x5c50, 0x4c50, 49, 45, 45, self.srcs[1]);
        e.set_reg_fmod_src(8, 16, 46, 48, self.srcs[0]);
        e.set_dst(self.dst);
        e.set_pred_src(39, 42, 42, self.min);
    }
}

impl SM50Op for OpDMul {

    /// The sources are in SSA form with float modifiers; the one that
    /// ends up first is a register or can be copied as a 64-bit value,
    /// and the one that ends up second carries no modifier if it is an
    /// immediate.
    open spec fn can_legalize(&self, b: BuilderState) -> bool {
        let (b1, a0) = lower_if_fabs(b, self.srcs[0], SrcType::F64);
        let (b2, a1) = lower_if_fabs(b1, self.srcs[1], SrcType::F64);
        &&& b.has_room(8)
        &&& src_ready(self.srcs[0]) && self.srcs[0].src_mod.is_float()
        &&& src_ready(self.srcs[1]) && self.srcs[1].src_mod.is_float()
        &&& copyable(first_after_swap(a0, a1), SrcType::F64)
        &&& second_after_swap(a0, a1).imm_unmodified()
    }

    fn legalizable(&self, b: &LegalizeBuilder) -> (r: bool) {
        if !b.room_for(8) || !check_src_ready(&self.srcs[0]) || !self.srcs[0].src_mod.is_float_mod() || !check_src_ready(&self.srcs[1]) || !self.srcs[1].src_mod.is_float_mod() {
            return false;
        }
        proof {
            lemma_lower_if_fabs(b@, self.srcs[0], SrcType::F64);
            lemma_lower_if_fabs(
                lower_if_fabs(b@, self.srcs[0], SrcType::F64).0,
                self.srcs[1],
                SrcType::F64,
            );
        }
        let r0: bool = self.srcs[0].src_mod.has_fabs() || src_is_reg(&self.srcs[0], RegFile::GPR);
        let r1: bool = self.srcs[1].src_mod.has_fabs() || src_is_reg(&self.srcs[1], RegFile::GPR);
        let swap: bool = !r0 && r1;
        let second_ok: bool = if swap {
            self.srcs[0].is_imm_unmodified()
        } else {
            self.srcs[1].src_mod.has_fabs() || self.srcs[1].is_imm_unmodified()
        };
        let first_ok: bool = swap || self.srcs[0].src_mod.has_fabs() || check_copyable(
            &self.srcs[0],
            SrcType::F64,
        );
        first_ok && second_ok
    }

    /// Absolute values are computed into registers first; then the
    /// pair is legalized as that of any commutative operation.
    open spec fn legalized(&self, b: BuilderState) -> (Self, BuilderState) {
        let (b1, a0) = lower_if_fabs(b, self.srcs[0], SrcType::F64);
        let (b2, a1) = lower_if_fabs(b1, self.srcs[1], SrcType::F64);
        let (b3, s0, s1) = binary_spec(b2, a0, a1, SrcType::F64, ImmRule::F20);
        (OpDMul { srcs: [s0, s1], ..*self }, b3)
    }

    open spec fn is_legal(&self) -> bool {
        &&& !self.srcs[0].src_mod.fabs_spec()
        &&& !self.srcs[1].src_mod.fabs_spec()
        &&& binary_legal(self.srcs[0], self.srcs[1], ImmRule::F20)
    }

    fn legalize(&mut self, b: &mut LegalizeBuilder) {
        let mut s0 = self.srcs[0];
        let mut s1 = self.srcs[1];
        b.copy_alu_src_if_fabs(&mut s0, SrcType::F64);
        b.copy_alu_src_if_fabs(&mut s1, SrcType::F64);
        b.legalize_binary(&mut s0, &mut s1, SrcType::F64, ImmRule::F20);
        self.srcs = [s0, s1];
    }

    open spec fn can_encode(&self, e: EncodeState) -> bool {
        &&& dst_ok(self.dst)
        &&& reg_fneg_src_ok(self.srcs[0])
        &&& fneg_src1_ok(self.srcs[1])
        &&& (self.srcs[1].src_ref is Imm32 ==> self.srcs[1].src_mod == SrcMod::Plain)
    }

    /// 0x5c80 register, 0x3880 immediate, 0x4c80 constant buffer.  Bit
    /// 48 negates the product.
    open spec fn encoded(&self, e: EncodeState) -> u64 {
        let w = put_plain_src1(e.word, 0x3880, 0x5c80, 0x4c80, self.srcs[1]);
        let w = put_dst(w, self.dst);
        let w = put_reg_src_ref(w, 8, 16, self.srcs[0].src_ref);
        let w = with_field(w, 39, 41, rnd_mode_bits(self.rnd_mode));
        with_bit(w, 48, self.srcs[0].src_mod.fneg_spec() != self.srcs[1].src_mod.fneg_spec())
    }

    fn encodable(&self, e: &SM50Encoder<'_>) -> (r: bool) {
        check_dst(&self.dst) && check_reg_fneg_src(&self.srcs[0]) && check_fneg_src1(&self.srcs[1]) && self.srcs[1].is_imm_unmodified()
    }

    fn encode(&self, e: &mut SM50Encoder<'_>) {
        e.set_plain_src1(0x3880, 0x5c80, 0x4c80, self.srcs[1]);
        e.set_dst(self.dst);
        e.set_reg_src_ref(8, 16, self.srcs[0].src_ref);
        e.set_rnd_mode(39, 41, self.rnd_mode);
        e.set_bit(48, self.srcs[0].src_mod.has_fneg() != self.srcs[1].src_mod.has_fneg());
    }
}

impl SM50Op for OpDSetP {

    open spec fn can_legalize(&self, b: BuilderState) -> bool {
        &&& binary_ok(b, self.srcs[0], self.srcs[1], SrcType::F64, ImmRule::F20)
        &&& (swapped(self.srcs[0], self.srcs[1], RegFile::GPR) ==> self.compare_op.is_binary())
    }

    fn legalizable(&self, b: &LegalizeBuilder) -> (r: bool) {
        b.check_binary_ok(&self.srcs[0], &self.srcs[1], SrcType::F64, ImmRule::F20) && (!check_swapped(&self.srcs[0], &self.srcs[1]) || self.compare_op.is_binary_op())
    }

    open spec fn legalized(&self, b: BuilderState) -> (Self, BuilderState) {
        let (b1, s0, s1) = binary_spec(
            b,
            self.srcs[0],
            self.srcs[1],
            SrcType::F64,
            ImmRule::F20,
        );
        (
            OpDSetP {
                srcs: [s0, s1],
                compare_op: if swapped(self.srcs[0], self.srcs[1], RegFile::GPR) {
                    self.compare_op.flip_spec()
                } else {
                    self.compare_op
                },
                ..*self
            },
            b1,
        )
    }

    open spec fn is_legal(&self) -> bool {
        binary_legal(self.srcs[0], self.srcs[1], ImmRule::F20)
    }

    fn legalize(&mut self, b: &mut LegalizeBuilder) {
        let mut s0 = self.srcs[0];
        let mut s1 = self.srcs[1];
        if b.legalize_binary(&mut s0, &mut s1, SrcType::F64, ImmRule::F20) {
            self.compare_op = self.compare_op.flip();
        }
        self.srcs = [s0, s1];
    }

    /// The second source is a register or an unmodified short
    /// immediate: the family has no constant-buffer form that this
    /// encoder can write.
    open spec fn can_encode(&self, e: EncodeState) -> bool {
        &&& pred_dst_ok(self.dst)
        &&& reg_fmod_src_ok(self.srcs[0])
        &&& match self.srcs[1].src_ref {
            SrcRef::Zero | SrcRef::Reg(_) => reg_fmod_src_ok(self.srcs[1]),
            SrcRef::Imm32(i) => Src::f20_ok(i) && self.srcs[1].src_mod == SrcMod::Plain,
            _ => false,
        }
        &&& pred_src_ok(self.accum)
    }

    /// 0x5b80 register, 0x3680 immediate.
    open spec fn encoded(&self, e: EncodeState) -> u64 {
        let w = match self.srcs[1].src_ref {
            SrcRef::Imm32(imm) => put_src_imm_f20(put_opcode(e.word, 0x3680), 20, 39, 56, imm),
            _ => put_reg_fmod_src(put_opcode(e.word, 0x5b80), 20, 28, 44, 6, self.srcs[1]),
        };
        let w = put_pred_dst(w, 3, 6, self.dst);
        let w = put_pred_dst(w, 0, 3, crate::ir::Dst::Discard);
        let w = put_pred_src(w, 39, 42, 42, self.accum);
        let w = with_field(w, 45, 47, pred_set_op_bits(self.set_op));
        let w = with_field(w, 48, 52, float_compare_bits(self.compare_op));
        put_reg_fmod_src(w, 8, 16, 7, 43, self.srcs[0])
    }

    fn encodable(&self, e: &SM50Encoder<'_>) -> (r: bool) {
        check_pred_dst(&self.dst) && check_reg_fmod_src(&self.srcs[0]) && match self.srcs[1].src_ref {
            SrcRef::Zero | SrcRef::Reg(_) => check_reg_fmod_src(&self.srcs[1]),
            SrcRef::Imm32(i) => Src::fits_f20(i) && self.srcs[1].src_mod.is_none(),
            _ => false,
        } && check_pred_src(&self.accum)
    }

    fn encode(&self, e: &mut SM50Encoder<'_>) {
        match self.srcs[1].src_ref {
            SrcRef::Imm32(imm) => {
                e.set_opcode(0x3680);
                e.set_src_imm_f20(20, 39, 56, imm);
            },
            _ => {
                e.set_opcode(0x5b80);
                e.set_reg_fmod_src(20, 28, 44, 6, self.srcs[1]);
            },
        }
        e.set_pred_dst(3, 6, self.dst);
        e.set_pred_dst(0, 3, crate::ir::Dst::Discard);
        e.set_pred_src(39, 42, 42, self.accum);
        e.set_pred_set_op(45, 47, self.set_op);
        e.set_float_compare_op(48, 52, self.compare_op);
        e.set_reg_fmod_src(8, 16, 7, 43, self.srcs[0]);
    }
}

} // verus!
