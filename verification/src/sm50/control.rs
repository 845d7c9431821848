//! Encodings of the control-flow and special operations.

use crate::bitview::{lemma_mask_values, signed_bits, with_field};
use crate::ir::{RegFile, Src, SrcMod, SrcRef, SrcType};
use crate::legalize::{BuilderState, LegalizeBuilder, src_is_reg_spec};
use crate::ops::{
    OpBar, OpBra, OpCS2R, OpExit, OpIsberd, OpKill, OpNop, OpOut, OpS2R, OpVote, OutType, VoteOp,
};
use crate::sm50::SM50Op;
use crate::sm50::alu_int::put_int_src1;
use crate::sm50::convert::{check_int_src_plain_reg, int_src_plain_reg_ok};
use crate::sm50::encoder::{
    check_dst, check_pred_dst, check_pred_src, check_reg_src, check_rel_offset, dst_ok, EncodeState,
    pred_dst_ok, pred_src_ok, put_dst, put_opcode, put_pred_dst, put_pred_src, put_reg_src_ref,
    reg_src_ok, rel_offset, rel_offset_ok, SM50Encoder,
};
use crate::sm50::legalize_ops::{
    check_copyable, check_imm_ruled, copyable, fit_imm, imm_overflows, imm_ruled, ImmRule, to_reg,
};
use vstd::prelude::*;

verus! {

pub open spec fn vote_op_bits(op: VoteOp) -> u64 {
    match op {
        VoteOp::All => 0,
        VoteOp::Any => 1,
        VoteOp::Eq => 2,
    }
}

pub open spec fn out_type_bits(out_type: OutType) -> u64 {
    match out_type {
        OutType::Emit => 1,
        OutType::Cut => 2,
        OutType::EmitThenCut => 3,
    }
}

impl SM50Op for OpBra {

    open spec fn can_legalize(&self, b: BuilderState) -> bool {
        true
    }

    fn legalizable(&self, b: &LegalizeBuilder) -> (r: bool) {
        true
    }

    /// Nothing is rewritten.
    open spec fn legalized(&self, b: BuilderState) -> (Self, BuilderState) {
        (*self, b)
    }

    open spec fn is_legal(&self) -> bool {
        true
    }

    fn legalize(&mut self, _b: &mut LegalizeBuilder) {
    }

    /// The target has an address, and the distance to it fits the
    /// offset field.
    open spec fn can_encode(&self, e: EncodeState) -> bool {
        &&& e.labels.contains_key(self.target.idx)
        &&& rel_offset_ok(e.ip, e.labels[self.target.idx], 20, 44)
    }

    /// Opcode 0xe240; the offset to the target in 20..44, taken from
    /// the address after the branch's pipeline latency.
    open spec fn encoded(&self, e: EncodeState) -> u64 {
        let w = put_opcode(e.word, 0xe240);
        let w = with_field(
            w,
            20,
            44,
            signed_bits(rel_offset(e.ip, e.labels[self.target.idx]), 20, 44),
        );
        with_field(w, 0, 5, 0xf)
    }

    fn encodable(&self, e: &SM50Encoder<'_>) -> (r: bool) {
        match e.labels.get(&self.target.idx) {
            Some(t) => check_rel_offset(e.ip, *t, 20, 44),
            None => false,
        }
    }

    fn encode(&self, e: &mut SM50Encoder<'_>) {
        proof {
            lemma_mask_values();
        }
        e.set_opcode(0xe240);
        e.set_rel_offset(20, 44, self.target.idx);
        e.set_field(0, 5, 0xf);  // always
    }
}

impl SM50Op for OpExit {

    open spec fn can_legalize(&self, b: BuilderState) -> bool {
        true
    }

    fn legalizable(&self, b: &LegalizeBuilder) -> (r: bool) {
        true
    }

    /// Nothing is rewritten.
    open spec fn legalized(&self, b: BuilderState) -> (Self, BuilderState) {
        (*self, b)
    }

    open spec fn is_legal(&self) -> bool {
        true
    }

    fn legalize(&mut self, _b: &mut LegalizeBuilder) {
    }

    open spec fn can_encode(&self, e: EncodeState) -> bool {
        true
    }

    /// Opcode 0xe300, condition code "true".
    open spec fn encoded(&self, e: EncodeState) -> u64 {
        with_field(put_opcode(e.word, 0xe300), 0, 4, 0xf)
    }

    fn encodable(&self, e: &SM50Encoder<'_>) -> (r: bool) {
        true
    }

    fn encode(&self, e: &mut SM50Encoder<'_>) {
        proof {
            lemma_mask_values();
        }
        e.set_opcode(0xe300);
        e.set_field(0, 4, 0xf);  // CC.T
    }
}

impl SM50Op for OpBar {

    open spec fn can_legalize(&self, b: BuilderState) -> bool {
        true
    }

    fn legalizable(&self, b: &LegalizeBuilder) -> (r: bool) {
        true
    }

    /// Nothing is rewritten.
    open spec fn legalized(&self, b: BuilderState) -> (Self, BuilderState) {
        (*self, b)
    }

    open spec fn is_legal(&self) -> bool {
        true
    }

    fn legalize(&mut self, _b: &mut LegalizeBuilder) {
    }

    open spec fn can_encode(&self, e: EncodeState) -> bool {
        true
    }

    /// Opcode 0xf0a8: a plain synchronisation on barrier zero.
    open spec fn encoded(&self, e: EncodeState) -> u64 {
        let w = put_opcode(e.word, 0xf0a8);
        let w = put_reg_src_ref(w, 8, 16, SrcRef::Zero);
        let w = with_field(w, 35, 37, 0);
        let w = with_field(w, 32, 35, 0);
        put_pred_src(w, 39, 42, 42, Src { src_ref: SrcRef::True, src_mod: SrcMod::Plain })
    }

    fn encodable(&self, e: &SM50Encoder<'_>) -> (r: bool) {
        true
    }

    fn encode(&self, e: &mut SM50Encoder<'_>) {
        proof {
            lemma_mask_values();
        }
        e.set_opcode(0xf0a8);
        e.set_reg_src(8, 16, Src::from_ref(SrcRef::Zero));
        // 00: RED.POPC
        // 01: RED.AND
        // 02: RED.OR
        e.set_field(35, 37, 0);
        // 00: SYNC
        // 01: ARV
        // 02: RED
        // 03: SCAN
        e.set_field(32, 35, 0);
        e.set_pred_src(39, 42, 42, Src::from_ref(SrcRef::True));
    }
}

impl SM50Op for OpCS2R {

    open spec fn can_legalize(&self, b: BuilderState) -> bool {
        true
    }

    fn legalizable(&self, b: &LegalizeBuilder) -> (r: bool) {
        true
    }

    /// Nothing is rewritten.
    open spec fn legalized(&self, b: BuilderState) -> (Self, BuilderState) {
        (*self, b)
    }

    open spec fn is_legal(&self) -> bool {
        true
    }

    fn legalize(&mut self, _b: &mut LegalizeBuilder) {
    }

    open spec fn can_encode(&self, e: EncodeState) -> bool {
        dst_ok(self.dst)
    }

    /// Opcode 0x50c8; the special register in 20..28.
    open spec fn encoded(&self, e: EncodeState) -> u64 {
        let w = put_opcode(e.word, 0x50c8);
        let w = put_dst(w, self.dst);
        with_field(w, 20, 28, self.idx as u64)
    }

    fn encodable(&self, e: &SM50Encoder<'_>) -> (r: bool) {
        check_dst(&self.dst)
    }

    fn encode(&self, e: &mut SM50Encoder<'_>) {
        proof {
            lemma_mask_values();
        }
        e.set_opcode(0x50c8);
        e.set_dst(self.dst);
        e.set_field(20, 28, self.idx as u64);
    }
}

impl SM50Op for OpIsberd {

    open spec fn can_legalize(&self, b: BuilderState) -> bool {
        true
    }

    fn legalizable(&self, b: &LegalizeBuilder) -> (r: bool) {
        true
    }

    /// Nothing is rewritten.
    open spec fn legalized(&self, b: BuilderState) -> (Self, BuilderState) {
        (*self, b)
    }

    open spec fn is_legal(&self) -> bool {
        true
    }

    fn legalize(&mut self, _b: &mut LegalizeBuilder) {
    }

    open spec fn can_encode(&self, e: EncodeState) -> bool {
        dst_ok(self.dst) && reg_src_ok(self.idx)
    }

    /// Opcode 0xefd0.
    open spec fn encoded(&self, e: EncodeState) -> u64 {
        let w = put_opcode(e.word, 0xefd0);
        let w = put_dst(w, self.dst);
        put_reg_src_ref(w, 8, 16, self.idx.src_ref)
    }

    fn encodable(&self, e: &SM50Encoder<'_>) -> (r: bool) {
        check_dst(&self.dst) && check_reg_src(&self.idx)
    }

    fn encode(&self, e: &mut SM50Encoder<'_>) {
        e.set_opcode(0xefd0);
        e.set_dst(self.dst);
        e.set_reg_src(8, 16, self.idx);
    }
}

impl SM50Op for OpKill {

    open spec fn can_legalize(&self, b: BuilderState) -> bool {
        true
    }

    fn legalizable(&self, b: &LegalizeBuilder) -> (r: bool) {
        true
    }

    /// Nothing is rewritten.
    open spec fn legalized(&self, b: BuilderState) -> (Self, BuilderState) {
        (*self, b)
    }

    open spec fn is_legal(&self) -> bool {
        true
    }

    fn legalize(&mut self, _b: &mut LegalizeBuilder) {
    }

    open spec fn can_encode(&self, e: EncodeState) -> bool {
        true
    }

    /// Opcode 0xe330.
    open spec fn encoded(&self, e: EncodeState) -> u64 {
        with_field(put_opcode(e.word, 0xe330), 0, 5, 0x0f)
    }

    fn encodable(&self, e: &SM50Encoder<'_>) -> (r: bool) {
        true
    }

    fn encode(&self, e: &mut SM50Encoder<'_>) {
        proof {
            lemma_mask_values();
        }
        e.set_opcode(0xe330);
        e.set_field(0, 5, 0x0f);
    }
}

impl SM50Op for OpNop {

    open spec fn can_legalize(&self, b: BuilderState) -> bool {
        true
    }

    fn legalizable(&self, b: &LegalizeBuilder) -> (r: bool) {
        true
    }

    /// Nothing is rewritten.
    open spec fn legalized(&self, b: BuilderState) -> (Self, BuilderState) {
        (*self, b)
    }

    open spec fn is_legal(&self) -> bool {
        true
    }

    fn legalize(&mut self, _b: &mut LegalizeBuilder) {
    }

    open spec fn can_encode(&self, e: EncodeState) -> bool {
        true
    }

    /// Opcode 0x50b0, condition code "true".
    open spec fn encoded(&self, e: EncodeState) -> u64 {
        with_field(put_opcode(e.word, 0x50b0), 8, 12, 0xf)
    }

    fn encodable(&self, e: &SM50Encoder<'_>) -> (r: bool) {
        true
    }

    fn encode(&self, e: &mut SM50Encoder<'_>) {
        proof {
            lemma_mask_values();
        }
        e.set_opcode(0x50b0);
        e.set_field(8, 12, 0xf);  // CC.T
    }
}

impl SM50Op for OpS2R {

    open spec fn can_legalize(&self, b: BuilderState) -> bool {
        true
    }

    fn legalizable(&self, b: &LegalizeBuilder) -> (r: bool) {
        true
    }

    /// Nothing is rewritten.
    open spec fn legalized(&self, b: BuilderState) -> (Self, BuilderState) {
        (*self, b)
    }

    open spec fn is_legal(&self) -> bool {
        true
    }

    fn legalize(&mut self, _b: &mut LegalizeBuilder) {
    }

    open spec fn can_encode(&self, e: EncodeState) -> bool {
        dst_ok(self.dst)
    }

    /// Opcode 0xf0c8; the special register in 20..28.
    open spec fn encoded(&self, e: EncodeState) -> u64 {
        let w = put_opcode(e.word, 0xf0c8);
        let w = put_dst(w, self.dst);
        with_field(w, 20, 28, self.idx as u64)
    }

    fn encodable(&self, e: &SM50Encoder<'_>) -> (r: bool) {
        check_dst(&self.dst)
    }

    fn encode(&self, e: &mut SM50Encoder<'_>) {
        proof {
            lemma_mask_values();
        }
        e.set_opcode(0xf0c8);
        e.set_dst(self.dst);
        e.set_field(20, 28, self.idx as u64);
    }
}

impl SM50Op for OpVote {

    open spec fn can_legalize(&self, b: BuilderState) -> bool {
        true
    }

    fn legalizable(&self, b: &LegalizeBuilder) -> (r: bool) {
        true
    }

    /// Nothing is rewritten.
    open spec fn legalized(&self, b: BuilderState) -> (Self, BuilderState) {
        (*self, b)
    }

    open spec fn is_legal(&self) -> bool {
        true
    }

    fn legalize(&mut self, _b: &mut LegalizeBuilder) {
    }

    open spec fn can_encode(&self, e: EncodeState) -> bool {
        dst_ok(self.ballot) && pred_dst_ok(self.vote) && pred_src_ok(self.pred)
    }

    /// Opcode 0x50d8; the ballot goes to a register and the vote to a
    /// predicate.
    open spec fn encoded(&self, e: EncodeState) -> u64 {
        let w = put_opcode(e.word, 0x50d8);
        let w = put_dst(w, self.ballot);
        let w = put_pred_dst(w, 45, 48, self.vote);
        let w = put_pred_src(w, 39, 42, 42, self.pred);
        with_field(w, 48, 50, vote_op_bits(self.op))
    }

    fn encodable(&self, e: &SM50Encoder<'_>) -> (r: bool) {
        check_dst(&self.ballot) && check_pred_dst(&self.vote) && check_pred_src(&self.pred)
    }

    fn encode(&self, e: &mut SM50Encoder<'_>) {
        proof {
            lemma_mask_values();
        }
        e.set_opcode(0x50d8);
        e.set_dst(self.ballot);
        e.set_pred_dst(45, 48, self.vote);
        e.set_pred_src(39, 42, 42, self.pred);
        e.set_field(
            48,
            50,
            match self.op {
                VoteOp::All => 0,
                VoteOp::Any => 1,
                VoteOp::Eq => 2,
            },
        );
    }
}

impl SM50Op for OpOut {

    open spec fn can_legalize(&self, b: BuilderState) -> bool {
        &&& b.has_room(2)
        &&& copyable(self.handle, SrcType::GPR)
        &&& imm_ruled(self.stream, SrcType::ALU, ImmRule::I20)
    }

    fn legalizable(&self, b: &LegalizeBuilder) -> (r: bool) {
        b.room_for(2)
            && check_copyable(&self.handle, SrcType::GPR)
            && check_imm_ruled(&self.stream, SrcType::ALU, ImmRule::I20)
    }

    open spec fn legalized(&self, b: BuilderState) -> (Self, BuilderState) {
        let (b1, handle_1) = to_reg(b, self.handle, SrcType::GPR);
        let (b2, stream_2) = fit_imm(b1, self.stream, SrcType::ALU, ImmRule::I20);
        (OpOut { handle: handle_1, stream: stream_2, ..*self }, b2)
    }

    open spec fn is_legal(&self) -> bool {
        &&& src_is_reg_spec(self.handle, RegFile::GPR)
        &&& !imm_overflows(self.stream, ImmRule::I20)
    }

    fn legalize(&mut self, b: &mut LegalizeBuilder) {
        let mut handle = self.handle;
        b.src_to_reg(&mut handle, SrcType::GPR);
        let mut stream = self.stream;
        b.src_fit_imm(&mut stream, SrcType::ALU, ImmRule::I20);
        self.handle = handle;
        self.stream = stream;
    }

    open spec fn can_encode(&self, e: EncodeState) -> bool {
        &&& dst_ok(self.dst)
        &&& reg_src_ok(self.handle)
        &&& int_src_plain_reg_ok(self.stream)
    }

    /// 0xfbe0 register, 0xf6e0 immediate, 0xebe0 constant buffer.
    open spec fn encoded(&self, e: EncodeState) -> u64 {
        let w = put_int_src1(e.word, 0xf6e0, 0xfbe0, 0xebe0, self.stream);
        let w = with_field(w, 39, 41, out_type_bits(self.out_type));
        let w = put_reg_src_ref(w, 8, 16, self.handle.src_ref);
        put_dst(w, self.dst)
    }

    fn encodable(&self, e: &SM50Encoder<'_>) -> (r: bool) {
        check_dst(&self.dst) && check_reg_src(&self.handle) && check_int_src_plain_reg(&self.stream)
    }

    fn encode(&self, e: &mut SM50Encoder<'_>) {
        proof {
            lemma_mask_values();
        }
        e.set_int_src1(0xf6e0, 0xfbe0, 0xebe0, self.stream);
        e.set_field(
            39,
            41,
            match self.out_type {
                OutType::Emit => 1,
                OutType::Cut => 2,
                OutType::EmitThenCut => 3,
            },
        );
        e.set_reg_src(8, 16, self.handle);
        e.set_dst(self.dst);
    }
}

} // verus!
