//! Encodings of the texture and surface operations.

use crate::bitview::{lemma_mask_values, with_bit, with_field};
use crate::ir::{RegFile, SrcType};
use crate::legalize::{
    BuilderState, check_ext_src, ext_src_ok, legalize_ext_instr, LegalizeBuilder, src_is_reg_spec,
};
use crate::ops::{
    AtomOp, AtomType, MemOrder, MemScope, OpSuAtom, OpSuLd, OpSuSt, OpTex, OpTld, OpTld4, OpTmml,
    OpTxd, OpTxq, TexLodMode, TexQuery, Tld4OffsetMode,
};
use crate::sm50::SM50Op;
use crate::sm50::encoder::{
    check_dst, check_reg_src, dst_ok, EncodeState, image_dim_bits, put_dst, put_opcode,
    put_reg_src_ref, reg_src_ok, SM50Encoder, tex_dim_bits, tex_lod_mode_bits, tex_lod_mode_ok,
};
use crate::sm50::legalize_ops::{check_copyable, copyable, to_reg};
use vstd::prelude::*;

verus! {

pub open spec fn tld4_offset_mode_bits(mode: Tld4OffsetMode) -> u64 {
    match mode {
        Tld4OffsetMode::Unset => 0,
        Tld4OffsetMode::AddOffI => 1,
        Tld4OffsetMode::PerPx => 2,
    }
}

pub open spec fn tex_query_bits(query: TexQuery) -> u64 {
    match query {
        TexQuery::Dimension => 1,
        TexQuery::TextureType => 2,
        TexQuery::SamplerPos => 5,
    }
}

/// The component masks that a surface access takes: one, two or four
/// components.
pub open spec fn surface_mask_ok(mask: u8) -> bool {
    mask == 0x1 || mask == 0x3 || mask == 0xf
}

/// The scope that a memory order asks for: constant data is visible
/// system-wide, weak accesses within the workgroup.
pub open spec fn order_scope(order: MemOrder) -> MemScope {
    match order {
        MemOrder::Constant => MemScope::System,
        MemOrder::Weak => MemScope::CTA,
        MemOrder::Strong(s) => s,
    }
}

pub open spec fn surface_scope_bits(scope: MemScope) -> u64 {
    match scope {
        MemScope::CTA => 0,
        MemScope::GPU => 2,
        MemScope::System => 3,
    }
}

/// The types on which a surface atomic can operate.
pub open spec fn suatom_type_ok(atom_type: AtomType) -> bool {
    atom_type != AtomType::F16x2 && atom_type != AtomType::F64
}

pub open spec fn suatom_type_bits(atom_type: AtomType) -> u64 {
    match atom_type {
        AtomType::U32 => 0,
        AtomType::I32 => 1,
        AtomType::F32 => 3,
        AtomType::U64 => 2,
        _ => 5,
    }
}

/// The number of a surface atomic operation; compare-and-exchange has
/// an opcode of its own and number 0.
pub open spec fn suatom_op_bits(atom_op: AtomOp) -> u64 {
    match atom_op {
        AtomOp::Add => 0,
        AtomOp::Min => 1,
        AtomOp::Max => 2,
        AtomOp::Inc => 3,
        AtomOp::Dec => 4,
        AtomOp::And => 5,
        AtomOp::Or => 6,
        AtomOp::Xor => 7,
        AtomOp::Exch => 8,
        AtomOp::CompareExch => 0,
    }
}

pub fn check_surface_mask(mask: u8) -> (r: bool)
    ensures
        r == surface_mask_ok(mask),
{
    mask == 0x1 || mask == 0x3 || mask == 0xf
}

impl SM50Op for OpTex {

    /// An external unit takes its sources as they are: vectors of SSA
    /// values and general-purpose registers.
    open spec fn can_legalize(&self, b: BuilderState) -> bool {
        &&& ext_src_ok(self.srcs[0], SrcType::SSA)
        &&& ext_src_ok(self.srcs[1], SrcType::SSA)
    }

    fn legalizable(&self, b: &LegalizeBuilder) -> (r: bool) {
        check_ext_src(&self.srcs[0], SrcType::SSA) && check_ext_src(&self.srcs[1], SrcType::SSA)
    }

    /// Nothing is rewritten.
    open spec fn legalized(&self, b: BuilderState) -> (Self, BuilderState) {
        (*self, b)
    }

    open spec fn is_legal(&self) -> bool {
        &&& ext_src_ok(self.srcs[0], SrcType::SSA)
        &&& ext_src_ok(self.srcs[1], SrcType::SSA)
    }

    fn legalize(&mut self, b: &mut LegalizeBuilder) {
        let srcs = [self.srcs[0], self.srcs[1]];
        let src_types = [SrcType::SSA, SrcType::SSA];
        legalize_ext_instr(srcs.as_slice(), src_types.as_slice(), b);
    }

    /// One result, no fault output, two register sources.
    open spec fn can_encode(&self, e: EncodeState) -> bool {
        &&& dst_ok(self.dsts[0])
        &&& self.dsts[1] is Discard
        &&& self.fault is Discard
        &&& reg_src_ok(self.srcs[0])
        &&& reg_src_ok(self.srcs[1])
        &&& self.mask <= 0xf
        &&& tex_lod_mode_ok(self.lod_mode)
    }

    /// Opcode 0xdeb8.
    open spec fn encoded(&self, e: EncodeState) -> u64 {
        let w = put_opcode(e.word, 0xdeb8);
        let w = put_dst(w, self.dsts[0]);
        let w = put_reg_src_ref(w, 8, 16, self.srcs[0].src_ref);
        let w = put_reg_src_ref(w, 20, 28, self.srcs[1].src_ref);
        let w = with_field(w, 28, 31, tex_dim_bits(self.dim));
        let w = with_field(w, 31, 35, self.mask as u64);
        let w = with_bit(w, 35, false);
        let w = with_bit(w, 36, self.offset);
        let w = with_field(w, 37, 39, tex_lod_mode_bits(self.lod_mode));
        let w = with_bit(w, 49, false);
        with_bit(w, 50, self.z_compare)
    }

    fn encodable(&self, e: &SM50Encoder<'_>) -> (r: bool) {
        check_dst(&self.dsts[0]) && self.dsts[1].is_none() && self.fault.is_none() && check_reg_src(&self.srcs[0]) && check_reg_src(&self.srcs[1]) && self.mask <= 0xf && !matches!(self.lod_mode, TexLodMode::Clamp | TexLodMode::BiasClamp)
    }

    fn encode(&self, e: &mut SM50Encoder<'_>) {
        proof {
            lemma_mask_values();
        }
        e.set_opcode(0xdeb8);
        e.set_dst(self.dsts[0]);
        e.set_reg_src(8, 16, self.srcs[0]);
        e.set_reg_src(20, 28, self.srcs[1]);
        e.set_tex_dim(28, 31, self.dim);
        e.set_field(31, 35, self.mask as u64);
        e.set_bit(35, false);  // .NDV
        e.set_bit(36, self.offset);
        e.set_tex_lod_mode(37, 39, self.lod_mode);
        e.set_bit(49, false);  // .NODEP
        e.set_bit(50, self.z_compare);
    }
}

impl SM50Op for OpTld {

    /// An external unit takes its sources as they are: vectors of SSA
    /// values and general-purpose registers.
    open spec fn can_legalize(&self, b: BuilderState) -> bool {
        &&& ext_src_ok(self.srcs[0], SrcType::SSA)
        &&& ext_src_ok(self.srcs[1], SrcType::SSA)
    }

    fn legalizable(&self, b: &LegalizeBuilder) -> (r: bool) {
        check_ext_src(&self.srcs[0], SrcType::SSA) && check_ext_src(&self.srcs[1], SrcType::SSA)
    }

    /// Nothing is rewritten.
    open spec fn legalized(&self, b: BuilderState) -> (Self, BuilderState) {
        (*self, b)
    }

    open spec fn is_legal(&self) -> bool {
        &&& ext_src_ok(self.srcs[0], SrcType::SSA)
        &&& ext_src_ok(self.srcs[1], SrcType::SSA)
    }

    fn legalize(&mut self, b: &mut LegalizeBuilder) {
        let srcs = [self.srcs[0], self.srcs[1]];
        let src_types = [SrcType::SSA, SrcType::SSA];
        legalize_ext_instr(srcs.as_slice(), src_types.as_slice(), b);
    }

    /// One result, no fault output, two register sources, and a level
    /// of detail that is zero or explicit.
    open spec fn can_encode(&self, e: EncodeState) -> bool {
        &&& dst_ok(self.dsts[0])
        &&& self.dsts[1] is Discard
        &&& self.fault is Discard
        &&& reg_src_ok(self.srcs[0])
        &&& reg_src_ok(self.srcs[1])
        &&& self.mask <= 0xf
        &&& (self.lod_mode == TexLodMode::Zero || self.lod_mode == TexLodMode::Lod)
    }

    /// Opcode 0xdd38; bit 55 asks for an explicit level of detail.
    open spec fn encoded(&self, e: EncodeState) -> u64 {
        let w = put_opcode(e.word, 0xdd38);
        let w = put_dst(w, self.dsts[0]);
        let w = put_reg_src_ref(w, 8, 16, self.srcs[0].src_ref);
        let w = put_reg_src_ref(w, 20, 28, self.srcs[1].src_ref);
        let w = with_field(w, 28, 31, tex_dim_bits(self.dim));
        let w = with_field(w, 31, 35, self.mask as u64);
        let w = with_bit(w, 35, self.offset);
        let w = with_bit(w, 49, false);
        let w = with_bit(w, 50, self.is_ms);
        with_bit(w, 55, self.lod_mode == TexLodMode::Lod)
    }

    fn encodable(&self, e: &SM50Encoder<'_>) -> (r: bool) {
        check_dst(&self.dsts[0]) && self.dsts[1].is_none() && self.fault.is_none() && check_reg_src(&self.srcs[0]) && check_reg_src(&self.srcs[1]) && self.mask <= 0xf && matches!(self.lod_mode, TexLodMode::Zero | TexLodMode::Lod)
    }

    fn encode(&self, e: &mut SM50Encoder<'_>) {
        proof {
            lemma_mask_values();
        }
        e.set_opcode(0xdd38);
        e.set_dst(self.dsts[0]);
        e.set_reg_src(8, 16, self.srcs[0]);
        e.set_reg_src(20, 28, self.srcs[1]);
        e.set_tex_dim(28, 31, self.dim);
        e.set_field(31, 35, self.mask as u64);
        e.set_bit(35, self.offset);
        e.set_bit(49, false);  // .NODEP
        e.set_bit(50, self.is_ms);
        e.set_bit(55, matches!(self.lod_mode, TexLodMode::Lod));
    }
}

impl SM50Op for OpTld4 {

    /// An external unit takes its sources as they are: vectors of SSA
    /// values and general-purpose registers.
    open spec fn can_legalize(&self, b: BuilderState) -> bool {
        &&& ext_src_ok(self.srcs[0], SrcType::SSA)
        &&& ext_src_ok(self.srcs[1], SrcType::SSA)
    }

    fn legalizable(&self, b: &LegalizeBuilder) -> (r: bool) {
        check_ext_src(&self.srcs[0], SrcType::SSA) && check_ext_src(&self.srcs[1], SrcType::SSA)
    }

    /// Nothing is rewritten.
    open spec fn legalized(&self, b: BuilderState) -> (Self, BuilderState) {
        (*self, b)
    }

    open spec fn is_legal(&self) -> bool {
        &&& ext_src_ok(self.srcs[0], SrcType::SSA)
        &&& ext_src_ok(self.srcs[1], SrcType::SSA)
    }

    fn legalize(&mut self, b: &mut LegalizeBuilder) {
        let srcs = [self.srcs[0], self.srcs[1]];
        let src_types = [SrcType::SSA, SrcType::SSA];
        legalize_ext_instr(srcs.as_slice(), src_types.as_slice(), b);
    }

    open spec fn can_encode(&self, e: EncodeState) -> bool {
        &&& dst_ok(self.dsts[0])
        &&& self.dsts[1] is Discard
        &&& self.fault is Discard
        &&& reg_src_ok(self.srcs[0])
        &&& reg_src_ok(self.srcs[1])
        &&& self.mask <= 0xf
        &&& self.comp <= 3
    }

    /// Opcode 0xdef8; the gathered component in 38..40.
    open spec fn encoded(&self, e: EncodeState) -> u64 {
        let w = put_opcode(e.word, 0xdef8);
        let w = put_dst(w, self.dsts[0]);
        let w = put_reg_src_ref(w, 8, 16, self.srcs[0].src_ref);
        let w = put_reg_src_ref(w, 20, 28, self.srcs[1].src_ref);
        let w = with_field(w, 28, 31, tex_dim_bits(self.dim));
        let w = with_field(w, 31, 35, self.mask as u64);
        let w = with_bit(w, 35, false);
        let w = with_field(w, 36, 38, tld4_offset_mode_bits(self.offset_mode));
        let w = with_field(w, 38, 40, self.comp as u64);
        let w = with_bit(w, 49, false);
        with_bit(w, 50, self.z_compare)
    }

    fn encodable(&self, e: &SM50Encoder<'_>) -> (r: bool) {
        check_dst(&self.dsts[0]) && self.dsts[1].is_none() && self.fault.is_none() && check_reg_src(&self.srcs[0]) && check_reg_src(&self.srcs[1]) && self.mask <= 0xf && self.comp <= 3
    }

    fn encode(&self, e: &mut SM50Encoder<'_>) {
        proof {
            lemma_mask_values();
        }
        e.set_opcode(0xdef8);
        e.set_dst(self.dsts[0]);
        e.set_reg_src(8, 16, self.srcs[0]);
        e.set_reg_src(20, 28, self.srcs[1]);
        e.set_tex_dim(28, 31, self.dim);
        e.set_field(31, 35, self.mask as u64);
        e.set_bit(35, false);  // .NDV
        e.set_field(
            36,
            38,
            match self.offset_mode {
                Tld4OffsetMode::Unset => 0,
                Tld4OffsetMode::AddOffI => 1,
                Tld4OffsetMode::PerPx => 2,
            },
        );
        e.set_field(38, 40, self.comp as u64);
        e.set_bit(49, false);  // .NODEP
        e.set_bit(50, self.z_compare);
    }
}

impl SM50Op for OpTmml {

    /// An external unit takes its sources as they are: vectors of SSA
    /// values and general-purpose registers.
    open spec fn can_legalize(&self, b: BuilderState) -> bool {
        &&& ext_src_ok(self.srcs[0], SrcType::SSA)
        &&& ext_src_ok(self.srcs[1], SrcType::SSA)
    }

    fn legalizable(&self, b: &LegalizeBuilder) -> (r: bool) {
        check_ext_src(&self.srcs[0], SrcType::SSA) && check_ext_src(&self.srcs[1], SrcType::SSA)
    }

    /// Nothing is rewritten.
    open spec fn legalized(&self, b: BuilderState) -> (Self, BuilderState) {
        (*self, b)
    }

    open spec fn is_legal(&self) -> bool {
        &&& ext_src_ok(self.srcs[0], SrcType::SSA)
        &&& ext_src_ok(self.srcs[1], SrcType::SSA)
    }

    fn legalize(&mut self, b: &mut LegalizeBuilder) {
        let srcs = [self.srcs[0], self.srcs[1]];
        let src_types = [SrcType::SSA, SrcType::SSA];
        legalize_ext_instr(srcs.as_slice(), src_types.as_slice(), b);
    }

    open spec fn can_encode(&self, e: EncodeState) -> bool {
        &&& dst_ok(self.dsts[0])
        &&& self.dsts[1] is Discard
        &&& reg_src_ok(self.srcs[0])
        &&& reg_src_ok(self.srcs[1])
        &&& self.mask <= 0xf
    }

    /// Opcode 0xdf60.
    open spec fn encoded(&self, e: EncodeState) -> u64 {
        let w = put_opcode(e.word, 0xdf60);
        let w = put_dst(w, self.dsts[0]);
        let w = put_reg_src_ref(w, 8, 16, self.srcs[0].src_ref);
        let w = put_reg_src_ref(w, 20, 28, self.srcs[1].src_ref);
        let w = with_field(w, 28, 31, tex_dim_bits(self.dim));
        let w = with_field(w, 31, 35, self.mask as u64);
        let w = with_bit(w, 35, false);
        with_bit(w, 49, false)
    }

    fn encodable(&self, e: &SM50Encoder<'_>) -> (r: bool) {
        check_dst(&self.dsts[0]) && self.dsts[1].is_none() && check_reg_src(&self.srcs[0]) && check_reg_src(&self.srcs[1]) && self.mask <= 0xf
    }

    fn encode(&self, e: &mut SM50Encoder<'_>) {
        proof {
            lemma_mask_values();
        }
        e.set_opcode(0xdf60);
        e.set_dst(self.dsts[0]);
        e.set_reg_src(8, 16, self.srcs[0]);
        e.set_reg_src(20, 28, self.srcs[1]);
        e.set_tex_dim(28, 31, self.dim);
        e.set_field(31, 35, self.mask as u64);
        e.set_bit(35, false);  // .NDV
        e.set_bit(49, false);  // .NODEP
    }
}

impl SM50Op for OpTxd {

    /// An external unit takes its sources as they are: vectors of SSA
    /// values and general-purpose registers.
    open spec fn can_legalize(&self, b: BuilderState) -> bool {
        &&& ext_src_ok(self.srcs[0], SrcType::SSA)
        &&& ext_src_ok(self.srcs[1], SrcType::SSA)
    }

    fn legalizable(&self, b: &LegalizeBuilder) -> (r: bool) {
        check_ext_src(&self.srcs[0], SrcType::SSA) && check_ext_src(&self.srcs[1], SrcType::SSA)
    }

    /// Nothing is rewritten.
    open spec fn legalized(&self, b: BuilderState) -> (Self, BuilderState) {
        (*self, b)
    }

    open spec fn is_legal(&self) -> bool {
        &&& ext_src_ok(self.srcs[0], SrcType::SSA)
        &&& ext_src_ok(self.srcs[1], SrcType::SSA)
    }

    fn legalize(&mut self, b: &mut LegalizeBuilder) {
        let srcs = [self.srcs[0], self.srcs[1]];
        let src_types = [SrcType::SSA, SrcType::SSA];
        legalize_ext_instr(srcs.as_slice(), src_types.as_slice(), b);
    }

    open spec fn can_encode(&self, e: EncodeState) -> bool {
        &&& dst_ok(self.dsts[0])
        &&& self.dsts[1] is Discard
        &&& self.fault is Discard
        &&& reg_src_ok(self.srcs[0])
        &&& reg_src_ok(self.srcs[1])
        &&& self.mask <= 0xf
    }

    /// Opcode 0xde78.
    open spec fn encoded(&self, e: EncodeState) -> u64 {
        let w = put_opcode(e.word, 0xde78);
        let w = put_dst(w, self.dsts[0]);
        let w = put_reg_src_ref(w, 8, 16, self.srcs[0].src_ref);
        let w = put_reg_src_ref(w, 20, 28, self.srcs[1].src_ref);
        let w = with_field(w, 28, 31, tex_dim_bits(self.dim));
        let w = with_field(w, 31, 35, self.mask as u64);
        let w = with_bit(w, 35, self.offset);
        with_bit(w, 49, false)
    }

    fn encodable(&self, e: &SM50Encoder<'_>) -> (r: bool) {
        check_dst(&self.dsts[0]) && self.dsts[1].is_none() && self.fault.is_none() && check_reg_src(&self.srcs[0]) && check_reg_src(&self.srcs[1]) && self.mask <= 0xf
    }

    fn encode(&self, e: &mut SM50Encoder<'_>) {
        proof {
            lemma_mask_values();
        }
        e.set_opcode(0xde78);
        e.set_dst(self.dsts[0]);
        e.set_reg_src(8, 16, self.srcs[0]);
        e.set_reg_src(20, 28, self.srcs[1]);
        e.set_tex_dim(28, 31, self.dim);
        e.set_field(31, 35, self.mask as u64);
        e.set_bit(35, self.offset);
        e.set_bit(49, false);  // .NODEP
    }
}

impl SM50Op for OpTxq {

    /// An external unit takes its sources as they are: vectors of SSA
    /// values and general-purpose registers.
    open spec fn can_legalize(&self, b: BuilderState) -> bool {
        &&& ext_src_ok(self.src, SrcType::SSA)
    }

    fn legalizable(&self, b: &LegalizeBuilder) -> (r: bool) {
        check_ext_src(&self.src, SrcType::SSA)
    }

    /// Nothing is rewritten.
    open spec fn legalized(&self, b: BuilderState) -> (Self, BuilderState) {
        (*self, b)
    }

    open spec fn is_legal(&self) -> bool {
        &&& ext_src_ok(self.src, SrcType::SSA)
    }

    fn legalize(&mut self, b: &mut LegalizeBuilder) {
        let srcs = [self.src];
        let src_types = [SrcType::SSA];
        legalize_ext_instr(srcs.as_slice(), src_types.as_slice(), b);
    }

    open spec fn can_encode(&self, e: EncodeState) -> bool {
        &&& dst_ok(self.dsts[0])
        &&& self.dsts[1] is Discard
        &&& reg_src_ok(self.src)
        &&& self.mask <= 0xf
    }

    /// Opcode 0xdf50; the query in 22..28.
    open spec fn encoded(&self, e: EncodeState) -> u64 {
        let w = put_opcode(e.word, 0xdf50);
        let w = put_dst(w, self.dsts[0]);
        let w = put_reg_src_ref(w, 8, 16, self.src.src_ref);
        let w = with_field(w, 22, 28, tex_query_bits(self.query));
        let w = with_field(w, 31, 35, self.mask as u64);
        with_bit(w, 49, false)
    }

    fn encodable(&self, e: &SM50Encoder<'_>) -> (r: bool) {
        check_dst(&self.dsts[0]) && self.dsts[1].is_none() && check_reg_src(&self.src) && self.mask <= 0xf
    }

    fn encode(&self, e: &mut SM50Encoder<'_>) {
        proof {
            lemma_mask_values();
        }
        e.set_opcode(0xdf50);
        e.set_dst(self.dsts[0]);
        e.set_reg_src(8, 16, self.src);
        e.set_field(
            22,
            28,
            match self.query {
                TexQuery::Dimension => 1,
                TexQuery::TextureType => 2,
                TexQuery::SamplerPos => 5,
            },
        );
        e.set_field(31, 35, self.mask as u64);
        e.set_bit(49, false);  // .NODEP
    }
}

impl SM50Op for OpSuLd {

    open spec fn can_legalize(&self, b: BuilderState) -> bool {
        &&& b.has_room(2)
        &&& copyable(self.handle, SrcType::GPR)
        &&& copyable(self.coord, SrcType::GPR)
    }

    fn legalizable(&self, b: &LegalizeBuilder) -> (r: bool) {
        b.room_for(2)
            && check_copyable(&self.handle, SrcType::GPR)
            && check_copyable(&self.coord, SrcType::GPR)
    }

    open spec fn legalized(&self, b: BuilderState) -> (Self, BuilderState) {
        let (b1, handle_1) = to_reg(b, self.handle, SrcType::GPR);
        let (b2, coord_2) = to_reg(b1, self.coord, SrcType::GPR);
        (OpSuLd { handle: handle_1, coord: coord_2, ..*self }, b2)
    }

    open spec fn is_legal(&self) -> bool {
        &&& src_is_reg_spec(self.handle, RegFile::GPR)
        &&& src_is_reg_spec(self.coord, RegFile::GPR)
    }

    fn legalize(&mut self, b: &mut LegalizeBuilder) {
        let mut handle = self.handle;
        b.src_to_reg(&mut handle, SrcType::GPR);
        let mut coord = self.coord;
        b.src_to_reg(&mut coord, SrcType::GPR);
        self.handle = handle;
        self.coord = coord;
    }

    open spec fn can_encode(&self, e: EncodeState) -> bool {
        &&& dst_ok(self.dst)
        &&& surface_mask_ok(self.mask)
        &&& reg_src_ok(self.coord)
        &&& reg_src_ok(self.handle)
    }

    /// Opcode 0xeb00; the scope of the access in 24..26.
    open spec fn encoded(&self, e: EncodeState) -> u64 {
        let w = put_opcode(e.word, 0xeb00);
        let w = with_field(w, 20, 24, self.mask as u64);
        let w = with_field(w, 33, 36, image_dim_bits(self.image_dim));
        let w = with_field(w, 24, 26, surface_scope_bits(order_scope(self.mem_order)));
        let w = put_dst(w, self.dst);
        let w = put_reg_src_ref(w, 8, 16, self.coord.src_ref);
        put_reg_src_ref(w, 39, 47, self.handle.src_ref)
    }

    fn encodable(&self, e: &SM50Encoder<'_>) -> (r: bool) {
        check_dst(&self.dst) && check_surface_mask(self.mask) && check_reg_src(&self.coord) && check_reg_src(&self.handle)
    }

    fn encode(&self, e: &mut SM50Encoder<'_>) {
        proof {
            lemma_mask_values();
        }
        e.set_opcode(0xeb00);
        e.set_field(20, 24, self.mask as u64);
        e.set_image_dim(33, 36, self.image_dim);
        let scope: MemScope = match self.mem_order {
            MemOrder::Constant => MemScope::System,
            MemOrder::Weak => MemScope::CTA,
            MemOrder::Strong(s) => s,
        };
        e.set_field(
            24,
            26,
            match scope {
                MemScope::CTA => 0,
                MemScope::GPU => 2,
                MemScope::System => 3,
            },
        );
        e.set_dst(self.dst);
        e.set_reg_src(8, 16, self.coord);
        e.set_reg_src(39, 47, self.handle);
    }
}

impl SM50Op for OpSuSt {

    /// An external unit takes its sources as they are: vectors of SSA
    /// values and general-purpose registers.
    open spec fn can_legalize(&self, b: BuilderState) -> bool {
        &&& ext_src_ok(self.handle, SrcType::GPR)
        &&& ext_src_ok(self.coord, SrcType::SSA)
        &&& ext_src_ok(self.data, SrcType::SSA)
    }

    fn legalizable(&self, b: &LegalizeBuilder) -> (r: bool) {
        check_ext_src(&self.handle, SrcType::GPR) && check_ext_src(&self.coord, SrcType::SSA) && check_ext_src(&self.data, SrcType::SSA)
    }

    /// Nothing is rewritten.
    open spec fn legalized(&self, b: BuilderState) -> (Self, BuilderState) {
        (*self, b)
    }

    open spec fn is_legal(&self) -> bool {
        &&& ext_src_ok(self.handle, SrcType::GPR)
        &&& ext_src_ok(self.coord, SrcType::SSA)
        &&& ext_src_ok(self.data, SrcType::SSA)
    }

    fn legalize(&mut self, b: &mut LegalizeBuilder) {
        let srcs = [self.handle, self.coord, self.data];
        let src_types = [SrcType::GPR, SrcType::SSA, SrcType::SSA];
        legalize_ext_instr(srcs.as_slice(), src_types.as_slice(), b);
    }

    open spec fn can_encode(&self, e: EncodeState) -> bool {
        &&& surface_mask_ok(self.mask)
        &&& reg_src_ok(self.coord)
        &&& reg_src_ok(self.data)
        &&& reg_src_ok(self.handle)
    }

    /// Opcode 0xeb20; the data register takes the place of a
    /// destination.
    open spec fn encoded(&self, e: EncodeState) -> u64 {
        let w = put_opcode(e.word, 0xeb20);
        let w = put_reg_src_ref(w, 8, 16, self.coord.src_ref);
        let w = put_reg_src_ref(w, 0, 8, self.data.src_ref);
        let w = put_reg_src_ref(w, 39, 47, self.handle.src_ref);
        let w = with_field(w, 33, 36, image_dim_bits(self.image_dim));
        with_field(w, 20, 24, self.mask as u64)
    }

    fn encodable(&self, e: &SM50Encoder<'_>) -> (r: bool) {
        check_surface_mask(self.mask) && check_reg_src(&self.coord) && check_reg_src(&self.data) && check_reg_src(&self.handle)
    }

    fn encode(&self, e: &mut SM50Encoder<'_>) {
        proof {
            lemma_mask_values();
        }
        e.set_opcode(0xeb20);
        e.set_reg_src(8, 16, self.coord);
        e.set_reg_src(0, 8, self.data);
        e.set_reg_src(39, 47, self.handle);
        e.set_image_dim(33, 36, self.image_dim);
        e.set_mem_order(&self.mem_order);
        e.set_field(20, 24, self.mask as u64);
    }
}

impl SM50Op for OpSuAtom {

    open spec fn can_legalize(&self, b: BuilderState) -> bool {
        &&& b.has_room(3)
        &&& copyable(self.coord, SrcType::GPR)
        &&& copyable(self.handle, SrcType::GPR)
        &&& copyable(self.data, SrcType::GPR)
    }

    fn legalizable(&self, b: &LegalizeBuilder) -> (r: bool) {
        b.room_for(3)
            && check_copyable(&self.coord, SrcType::GPR)
            && check_copyable(&self.handle, SrcType::GPR)
            && check_copyable(&self.data, SrcType::GPR)
    }

    open spec fn legalized(&self, b: BuilderState) -> (Self, BuilderState) {
        let (b1, coord_1) = to_reg(b, self.coord, SrcType::GPR);
        let (b2, handle_2) = to_reg(b1, self.handle, SrcType::GPR);
        let (b3, data_3) = to_reg(b2, self.data, SrcType::GPR);
        (OpSuAtom { coord: coord_1, handle: handle_2, data: data_3, ..*self }, b3)
    }

    open spec fn is_legal(&self) -> bool {
        &&& src_is_reg_spec(self.coord, RegFile::GPR)
        &&& src_is_reg_spec(self.handle, RegFile::GPR)
        &&& src_is_reg_spec(self.data, RegFile::GPR)
    }

    fn legalize(&mut self, b: &mut LegalizeBuilder) {
        let mut coord = self.coord;
        b.src_to_reg(&mut coord, SrcType::GPR);
        let mut handle = self.handle;
        b.src_to_reg(&mut handle, SrcType::GPR);
        let mut data = self.data;
        b.src_to_reg(&mut data, SrcType::GPR);
        self.coord = coord;
        self.handle = handle;
        self.data = data;
    }

    open spec fn can_encode(&self, e: EncodeState) -> bool {
        &&& dst_ok(self.dst)
        &&& suatom_type_ok(self.atom_type)
        &&& reg_src_ok(self.data)
        &&& reg_src_ok(self.coord)
        &&& reg_src_ok(self.handle)
    }

    /// Opcode 0xeac0 for compare-and-exchange, else 0xea60.  Bit 52 is
    /// always set: the hardware wants it on atomics, and it affects
    /// format conversion only.
    open spec fn encoded(&self, e: EncodeState) -> u64 {
        let w = put_opcode(
            e.word,
            if self.atom_op == AtomOp::CompareExch {
                0xeac0
            } else {
                0xea60
            },
        );
        let w = with_field(w, 33, 36, image_dim_bits(self.image_dim));
        let w = with_field(w, 36, 39, suatom_type_bits(self.atom_type));
        let w = with_field(w, 29, 33, suatom_op_bits(self.atom_op));
        let w = with_bit(w, 52, true);
        let w = put_dst(w, self.dst);
        let w = put_reg_src_ref(w, 20, 28, self.data.src_ref);
        let w = put_reg_src_ref(w, 8, 16, self.coord.src_ref);
        put_reg_src_ref(w, 39, 47, self.handle.src_ref)
    }

    fn encodable(&self, e: &SM50Encoder<'_>) -> (r: bool) {
        check_dst(&self.dst) && !matches!(self.atom_type, AtomType::F16x2 | AtomType::F64) && check_reg_src(&self.data) && check_reg_src(&self.coord) && check_reg_src(&self.handle)
    }

    fn encode(&self, e: &mut SM50Encoder<'_>) {
        proof {
            lemma_mask_values();
        }
        if matches!(self.atom_op, AtomOp::CompareExch) {
            e.set_opcode(0xeac0);
        } else {
            e.set_opcode(0xea60);
        }
        let atom_type: u64 = match self.atom_type {
            AtomType::U32 => 0,
            AtomType::I32 => 1,
            AtomType::F32 => 3,
            AtomType::U64 => 2,
            _ => 5,
        };
        let atom_op: u64 = match self.atom_op {
            AtomOp::Add => 0,
            AtomOp::Min => 1,
            AtomOp::Max => 2,
            AtomOp::Inc => 3,
            AtomOp::Dec => 4,
            AtomOp::And => 5,
            AtomOp::Or => 6,
            AtomOp::Xor => 7,
            AtomOp::Exch => 8,
            AtomOp::CompareExch => 0,
        };
        e.set_image_dim(33, 36, self.image_dim);
        e.set_field(36, 39, atom_type);
        e.set_field(29, 33, atom_op);
        e.set_bit(52, true);  // .D
        e.set_dst(self.dst);
        e.set_reg_src(20, 28, self.data);
        e.set_reg_src(8, 16, self.coord);
        e.set_reg_src(39, 47, self.handle);
    }
}

} // verus!
