use gpu_backend::ir::{
    CBuf, CBufRef, Dst, RegFile, RegRef, SSARef, SSAValue, Src, SrcMod, SrcRef, SrcType,
};
use gpu_backend::legalize::{
    check_ext_instr, legalize_ext_instr, src_is_reg, swap_srcs_if_not_reg, LegalizeBuilder,
};
use gpu_backend::ops::{
    FRndMode, FloatCompare, IntCompare, IntCompareType, Op, OpCopy, OpDAdd, OpFAdd, OpFFma,
    OpFSetP, OpIAdd2, OpIMad, OpIMnMx, OpIMul, OpISetP, OpSel, PredSetOp,
};
use gpu_backend::sm50::legalize_ops::SM50LegalizeBuildHelpers;
use gpu_backend::sm50::{SM50Op, ShaderModel50};

fn ssa(file: RegFile, idx: u32) -> SSAValue {
    SSAValue { file, idx }
}

fn gpr_ssa(idx: u32) -> Src {
    Src::from_ssa(SSARef::from_value(ssa(RegFile::GPR, idx)))
}

fn gpr_pair(a: u32, b: u32) -> Src {
    Src::from_ssa(SSARef::from_pair(ssa(RegFile::GPR, a), ssa(RegFile::GPR, b)))
}

fn copy_of(b: &LegalizeBuilder, i: usize) -> OpCopy {
    match b.instrs[i].op {
        Op::Copy(c) => c,
        other => panic!("not a copy: {:?}", other),
    }
}

#[test]
fn integer_min_max_materializes_a_wide_immediate() {
    // 0x00123456 does not fit 20 signed bits
    let mut op = OpIMnMx {
        dst: Dst::SSA(SSARef::from_value(ssa(RegFile::GPR, 3))),
        compare_type: IntCompareType::I32,
        srcs: [gpr_ssa(1), Src::new_imm_u32(0x0012_3456)],
        min: Src::new_imm_bool(true),
    };
    let mut b = LegalizeBuilder::new(10);
    op.legalize(&mut b);
    // one explicit move into a fresh register
    assert_eq!(b.instrs.len(), 1);
    let fresh = SSARef::from_value(ssa(RegFile::GPR, 11));
    assert_eq!(
        copy_of(&b, 0),
        OpCopy { dst: Dst::SSA(fresh), src: Src::new_imm_u32(0x0012_3456) }
    );
    assert_eq!(b.ssa_count, 11);
    // the operation now reads the register, not the immediate, as its second operand
    assert_eq!(op.srcs[0], gpr_ssa(1));
    assert_eq!(op.srcs[1], Src::from_ssa(fresh));
}

#[test]
fn double_add_materializes_an_immediate_in_two_halves() {
    let mut op = OpDAdd {
        dst: Dst::Discard,
        srcs: [gpr_pair(1, 2), Src::new_imm_u32(0x0012_3456)],
        rnd_mode: FRndMode::NearestEven,
    };
    let mut b = LegalizeBuilder::new(2);
    op.legalize(&mut b);
    assert_eq!(b.instrs.len(), 2);
    // the immediate is the high half of the double; the low half is zero
    assert_eq!(
        copy_of(&b, 0),
        OpCopy { dst: Dst::SSA(SSARef::from_value(ssa(RegFile::GPR, 3))), src: Src::new_zero() }
    );
    assert_eq!(
        copy_of(&b, 1),
        OpCopy {
            dst: Dst::SSA(SSARef::from_value(ssa(RegFile::GPR, 4))),
            src: Src::new_imm_u32(0x0012_3456),
        }
    );
    assert_eq!(
        op.srcs[1],
        Src::from_ssa(SSARef::from_pair(ssa(RegFile::GPR, 3), ssa(RegFile::GPR, 4)))
    );
}

#[test]
fn integer_add_moves_a_wide_immediate_to_a_register() {
    let mut op = OpIAdd2 {
        dst: Dst::Discard,
        carry_out: Dst::Discard,
        srcs: [gpr_ssa(1), Src::new_imm_u32(0x0012_3456)],
        carry_in: Src::new_zero(),
    };
    let mut b = LegalizeBuilder::new(1);
    op.legalize(&mut b);
    assert_eq!(b.instrs.len(), 1);
    let fresh = SSARef::from_value(ssa(RegFile::GPR, 2));
    assert_eq!(
        copy_of(&b, 0),
        OpCopy { dst: Dst::SSA(fresh), src: Src::new_imm_u32(0x0012_3456) }
    );
    assert_eq!(op.srcs[0], gpr_ssa(1));
    assert_eq!(op.srcs[1], Src::from_ssa(fresh));
    assert_eq!(op.srcs[1].as_imm_not_i20(), None);
}

#[test]
fn integer_add_keeps_a_short_immediate() {
    let mut op = OpIAdd2 {
        dst: Dst::Discard,
        carry_out: Dst::Discard,
        srcs: [gpr_ssa(1), Src::new_imm_u32(0x7_ffff)],
        carry_in: Src::new_zero(),
    };
    let before = op;
    let mut b = LegalizeBuilder::new(1);
    op.legalize(&mut b);
    assert_eq!(b.instrs.len(), 0);
    assert_eq!(op, before);
}

#[test]
fn multiply_add_holds_the_second_operand_to_twenty_bits() {
    let mut op = OpIMad {
        dst: Dst::Discard,
        srcs: [gpr_ssa(1), Src::new_imm_u32(0x0012_3456), gpr_ssa(2)],
        signed: false,
    };
    let mut b = LegalizeBuilder::new(2);
    op.legalize(&mut b);
    assert_eq!(b.instrs.len(), 1);
    assert_eq!(op.srcs[1], gpr_ssa(3));
    // a short immediate stays
    let mut op = OpIMad {
        dst: Dst::Discard,
        srcs: [gpr_ssa(1), Src::new_imm_u32(0x7_ffff), gpr_ssa(2)],
        signed: false,
    };
    let mut b = LegalizeBuilder::new(2);
    op.legalize(&mut b);
    assert_eq!(b.instrs.len(), 0);
    assert_eq!(op.srcs[1], Src::new_imm_u32(0x7_ffff));
}

#[test]
fn commutative_sources_change_places() {
    let cb = Src::from_cbuf(CBufRef { buf: CBuf::Binding(1), offset: 16 });
    let mut op = OpFAdd {
        dst: Dst::Discard,
        srcs: [cb, gpr_ssa(7)],
        saturate: false,
        rnd_mode: FRndMode::NearestEven,
        ftz: false,
    };
    let mut b = LegalizeBuilder::new(7);
    op.legalize(&mut b);
    assert_eq!(b.instrs.len(), 0);
    assert_eq!(op.srcs, [gpr_ssa(7), cb]);
}

#[test]
fn exchange_flips_the_comparison() {
    let mut op = OpISetP {
        dst: Dst::Discard,
        set_op: PredSetOp::And,
        compare_op: IntCompare::Lt,
        compare_type: IntCompareType::U32,
        srcs: [Src::new_imm_u32(5), gpr_ssa(1)],
        accum: Src::new_imm_bool(true),
    };
    let mut b = LegalizeBuilder::new(1);
    op.legalize(&mut b);
    assert_eq!(op.compare_op, IntCompare::Gt);
    assert_eq!(op.srcs, [gpr_ssa(1), Src::new_imm_u32(5)]);

    let mut op = OpFSetP {
        dst: Dst::Discard,
        set_op: PredSetOp::And,
        compare_op: FloatCompare::UnordLe,
        srcs: [Src::new_imm_u32(0x3f80_0000), gpr_ssa(1)],
        accum: Src::new_imm_bool(true),
        ftz: false,
    };
    op.legalize(&mut b);
    assert_eq!(op.compare_op, FloatCompare::UnordGe);
    assert_eq!(FloatCompare::OrdEq.flip(), FloatCompare::OrdEq);
    assert_eq!(IntCompare::Le.flip().flip(), IntCompare::Le);
}

#[test]
fn exchange_swaps_signedness_and_inverts_the_select() {
    let mut op = OpIMul {
        dst: Dst::Discard,
        srcs: [Src::new_imm_u32(3), gpr_ssa(1)],
        signed: [true, false],
        high: false,
    };
    let mut b = LegalizeBuilder::new(1);
    op.legalize(&mut b);
    assert_eq!(op.signed, [false, true]);
    let mut op = OpSel {
        dst: Dst::Discard,
        cond: Src::from_ssa(SSARef::from_value(ssa(RegFile::Pred, 9))),
        srcs: [Src::new_imm_u32(3), gpr_ssa(1)],
    };
    op.legalize(&mut b);
    assert_eq!(op.cond.src_mod, SrcMod::BNot);
    assert_eq!(op.srcs, [gpr_ssa(1), Src::new_imm_u32(3)]);
}

#[test]
fn fused_multiply_add_lowers_absolute_values() {
    let abs = Src { src_ref: gpr_ssa(1).src_ref, src_mod: SrcMod::FNegAbs };
    let mut op = OpFFma {
        dst: Dst::Discard,
        srcs: [abs, gpr_ssa(2), gpr_ssa(3)],
        saturate: false,
        rnd_mode: FRndMode::NearestEven,
        ftz: false,
        dnz: false,
    };
    let mut b = LegalizeBuilder::new(3);
    op.legalize(&mut b);
    // the modified value is computed by an add of negative zero
    assert_eq!(b.instrs.len(), 1);
    let fresh = SSARef::from_value(ssa(RegFile::GPR, 4));
    assert_eq!(
        b.instrs[0].op,
        Op::FAdd(OpFAdd {
            dst: Dst::SSA(fresh),
            srcs: [Src { src_ref: SrcRef::Zero, src_mod: SrcMod::FNeg }, abs],
            saturate: false,
            rnd_mode: FRndMode::NearestEven,
            ftz: false,
        })
    );
    assert_eq!(op.srcs, [Src::from_ssa(fresh), gpr_ssa(2), gpr_ssa(3)]);
}

#[test]
fn dispatch_legalizes_any_operation() {
    let sm = ShaderModel50::new(50);
    let mut op = Op::IMnMx(OpIMnMx {
        dst: Dst::Discard,
        compare_type: IntCompareType::U32,
        srcs: [gpr_ssa(1), Src::new_imm_u32(0x8_0000)],
        min: Src::new_imm_bool(false),
    });
    let mut b = LegalizeBuilder::new(1);
    sm.legalize_op(&mut b, &mut op);
    assert_eq!(b.instrs.len(), 1);
    match op {
        Op::IMnMx(o) => assert_eq!(o.srcs[1], gpr_ssa(2)),
        _ => panic!("the kind of operation changed"),
    }
}

#[test]
fn helpers_of_the_family() {
    let mut b = LegalizeBuilder::new(0);
    let mut s = Src::new_imm_u32(0xfff8_0000);
    b.copy_alu_src_if_i20_overflow(&mut s, RegFile::GPR, SrcType::ALU);
    assert_eq!(s, Src::new_imm_u32(0xfff8_0000));
    let mut s = Src::new_imm_u32(0xfff0_0000);
    b.copy_alu_src_if_i20_overflow(&mut s, RegFile::GPR, SrcType::ALU);
    assert_eq!(s, gpr_ssa(1));
    let mut s = Src::new_imm_u32(0x3f80_0000);
    b.copy_alu_src_if_f20_overflow(&mut s, RegFile::GPR, SrcType::F32);
    assert_eq!(s, Src::new_imm_u32(0x3f80_0000));
    let mut s = Src::new_imm_u32(0x3f80_0800);
    b.copy_alu_src_if_f20_overflow(&mut s, RegFile::GPR, SrcType::F32);
    assert_eq!(s, gpr_ssa(2));
    let mut s = Src { src_ref: gpr_ssa(9).src_ref, src_mod: SrcMod::FNeg };
    b.copy_alu_src_if_fabs(&mut s, SrcType::F32);
    assert_eq!(s.src_mod, SrcMod::FNeg);
    assert_eq!(b.instrs.len(), 2);
}

#[test]
fn register_sources() {
    assert!(src_is_reg(&Src::new_zero(), RegFile::GPR));
    assert!(src_is_reg(&Src::new_imm_bool(false), RegFile::GPR));
    assert!(src_is_reg(&gpr_ssa(1), RegFile::GPR));
    assert!(!src_is_reg(&gpr_ssa(1), RegFile::Pred));
    assert!(!src_is_reg(&Src::new_imm_u32(1), RegFile::GPR));
    let mixed = SSARef::from_pair(ssa(RegFile::GPR, 1), ssa(RegFile::UGPR, 2));
    assert_eq!(mixed.file(), None);
    assert!(!src_is_reg(&Src::from_ssa(mixed), RegFile::GPR));
    let mut x = Src::new_imm_u32(1);
    let mut y = gpr_ssa(1);
    assert!(swap_srcs_if_not_reg(&mut x, &mut y, RegFile::GPR));
    assert_eq!((x, y), (gpr_ssa(1), Src::new_imm_u32(1)));
    assert!(!swap_srcs_if_not_reg(&mut x, &mut y, RegFile::GPR));
}

#[test]
fn external_units_take_registers_only() {
    let data = gpr_pair(1, 2);
    let addr = gpr_ssa(3);
    assert!(check_ext_instr(&[addr, data], &[SrcType::GPR, SrcType::SSA]));
    assert!(!check_ext_instr(&[Src::new_imm_u32(4), data], &[SrcType::GPR, SrcType::SSA]));
    let modified = Src { src_ref: data.src_ref, src_mod: SrcMod::INeg };
    assert!(!check_ext_instr(&[addr, modified], &[SrcType::GPR, SrcType::SSA]));
    assert!(!check_ext_instr(&[addr], &[SrcType::ALU]));
    assert!(!check_ext_instr(&[Src::from_reg(RegRef::new(RegFile::GPR, 1, 1))], &[SrcType::GPR]));
    assert!(!check_ext_instr(&[addr, data], &[SrcType::GPR]));
    assert!(check_ext_instr(&[], &[]));
}

#[test]
fn external_units_are_not_rewritten() {
    let data = gpr_pair(1, 2);
    let addr = gpr_ssa(3);
    let srcs = [addr, data];
    let src_types = [SrcType::GPR, SrcType::SSA];
    let mut b = LegalizeBuilder::new(3);
    assert!(check_ext_instr(&srcs, &src_types));
    legalize_ext_instr(&srcs, &src_types, &mut b);
    assert_eq!(b.ssa_count, 3);
    assert_eq!(b.instrs.len(), 0);
    assert_eq!(srcs, [addr, data]);
}

#[test]
fn fresh_values_are_numbered_in_order() {
    let mut b = LegalizeBuilder::new(7);
    let one = b.alloc_ssa(RegFile::Pred, 1);
    assert_eq!(one, SSARef::from_value(ssa(RegFile::Pred, 8)));
    let two = b.alloc_ssa(RegFile::GPR, 2);
    assert_eq!(two, SSARef::from_pair(ssa(RegFile::GPR, 9), ssa(RegFile::GPR, 10)));
    let four = b.alloc_ssa(RegFile::GPR, 4);
    assert_eq!(four.comps(), 4);
    assert_eq!(four.vals.map(|v| v.idx), [11, 12, 13, 14]);
    assert_eq!(four.file(), Some(RegFile::GPR));
    assert_eq!(b.ssa_count, 14);
    assert_eq!(b.instrs.len(), 0);
    b.copy_to(ssa(RegFile::GPR, 1), Src::new_zero());
    assert_eq!(
        b.instrs[0].op,
        Op::Copy(OpCopy { dst: Dst::SSA(SSARef::from_value(ssa(RegFile::GPR, 1))), src: Src::new_zero() })
    );
}
