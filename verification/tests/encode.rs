use gpu_backend::bitview::{get_bit_range_u64, set_bit_range_u64, set_field_u64, u64_to_words, words_to_u64};
use gpu_backend::ir::{
    CBuf, CBufRef, Dst, InstrDeps, Label, Pred, PredRef, RegFile, RegRef, Src, SrcMod, SrcRef,
};
use gpu_backend::ops::{
    AtomOp, AtomType, BasicBlock, FRndMode, Function, Instr, IntCompareType, LogicOp2,
    MemAccess, MemAddrType, MemEvictionPriority, MemOrder, MemSpace, MemType, Op, OpAtom, OpBra,
    OpDFma, OpExit, OpFAdd, OpFMul, OpIAdd2, OpIMad, OpIMnMx, OpLd, OpLop2, OpMov, OpNop, Shader,
};
use gpu_backend::sm50::encoder::SM50Encoder;
use gpu_backend::sm50::shader::{compute_labels, encode_instr, encode_op, encode_sm50_shader};
use gpu_backend::sm50::{SM50Op, ShaderModel50};
use std::collections::HashMap;

fn gpr(idx: u32) -> RegRef {
    RegRef::new(RegFile::GPR, idx, 1)
}

fn reg_src(idx: u32) -> Src {
    Src::from_reg(gpr(idx))
}

fn word_of(e: &SM50Encoder) -> u64 {
    words_to_u64(e.inst)
}

fn encode_alone(op: &Op, sm: u8) -> u64 {
    let labels = HashMap::new();
    let mut e = SM50Encoder::new(sm, 8, &labels);
    encode_op(op, &mut e);
    word_of(&e)
}

#[test]
fn bit_ranges_write_and_read_back() {
    let w = set_bit_range_u64(0, 48, 64, 0x5c58);
    assert_eq!(w, 0x5c58_0000_0000_0000);
    let w = set_field_u64(w, 20, 28, 0xab);
    assert_eq!(w, 0x5c58_0000_0ab0_0000);
    assert_eq!(get_bit_range_u64(w, 48, 64), 0x5c58);
    assert_eq!(get_bit_range_u64(w, 20, 28), 0xab);
    assert_eq!(get_bit_range_u64(w, 0, 20), 0);
}

#[test]
fn bit_range_write_drops_high_bits_and_overwrites() {
    // only the low 4 bits of the value land in a 4-bit range
    let w = set_bit_range_u64(u64::MAX, 8, 12, 0x1f5);
    assert_eq!(w, 0xffff_ffff_ffff_f5ff);
    // a range that straddles the two words of an instruction
    let w = set_bit_range_u64(0, 28, 36, 0xff);
    assert_eq!(u64_to_words(w), [0xf000_0000, 0x0000_000f]);
    assert_eq!(words_to_u64([0xf000_0000, 0x0000_000f]), w);
}

#[test]
fn fadd_register_form() {
    let op = Op::FAdd(OpFAdd {
        dst: Dst::Reg(gpr(1)),
        srcs: [reg_src(2), reg_src(3)],
        saturate: false,
        rnd_mode: FRndMode::NearestEven,
        ftz: false,
    });
    assert_eq!(encode_alone(&op, 50), 0x5c58_0000_0030_0201);
}

#[test]
fn fadd_flags_share_bits_with_the_opcode() {
    let op = Op::FAdd(OpFAdd {
        dst: Dst::Reg(gpr(1)),
        srcs: [
            Src { src_ref: SrcRef::Reg(gpr(2)), src_mod: SrcMod::FNeg },
            reg_src(3),
        ],
        saturate: true,
        rnd_mode: FRndMode::Zero,
        ftz: true,
    });
    assert_eq!(encode_alone(&op, 50), 0x5c5d_1180_0030_0201);
}

#[test]
fn fadd_short_immediate_and_constant_buffer_forms() {
    // 1.0f has its low 12 bits clear: the short form takes bits 12..31
    let imm = Op::FAdd(OpFAdd {
        dst: Dst::Discard,
        srcs: [reg_src(0), Src::new_imm_u32(0x3f80_0000)],
        saturate: false,
        rnd_mode: FRndMode::NearestEven,
        ftz: false,
    });
    // opcode 0x3858, imm 0x3f800 at 20..39, dst and src0 as written
    assert_eq!(encode_alone(&imm, 50), 0x3858_0000_0000_0000 | (0x3f800u64 << 20) | 0x00ff);
    let cb = Op::FAdd(OpFAdd {
        dst: Dst::Discard,
        srcs: [
            reg_src(0),
            Src::from_cbuf(CBufRef { buf: CBuf::Binding(2), offset: 0x40 }),
        ],
        saturate: false,
        rnd_mode: FRndMode::NearestEven,
        ftz: false,
    });
    // opcode 0x4c58, word offset 0x10 at 20..34, slot 2 at 34..39
    assert_eq!(
        encode_alone(&cb, 50),
        0x4c58_0000_0000_0000 | (2u64 << 34) | (0x10u64 << 20) | 0x00ff
    );
}

#[test]
fn fadd_long_immediate_form() {
    let op = Op::FAdd(OpFAdd {
        dst: Dst::Reg(gpr(9)),
        srcs: [reg_src(8), Src::new_imm_u32(0x3f80_0001)],
        saturate: false,
        rnd_mode: FRndMode::NearestEven,
        ftz: true,
    });
    assert_eq!(
        encode_alone(&op, 50),
        0x0800_0000_0000_0000 | (1u64 << 55) | (0x3f80_0001u64 << 20) | 0x0809
    );
}

#[test]
fn fmul_sign_of_the_product() {
    // a negated constant buffer times a plain register: the flags of the
    // first source are written last, so bit 48 ends as its negation
    let op = Op::FMul(OpFMul {
        dst: Dst::Reg(gpr(1)),
        srcs: [
            reg_src(2),
            Src {
                src_ref: SrcRef::CBuf(CBufRef { buf: CBuf::Binding(0), offset: 8 }),
                src_mod: SrcMod::FNeg,
            },
        ],
        saturate: false,
        rnd_mode: FRndMode::NearestEven,
        ftz: false,
        dnz: false,
    });
    assert_eq!(encode_alone(&op, 50), 0x4c68_0000_0000_0000 | (2u64 << 20) | 0x0201);
}

#[test]
fn iadd2_long_immediate_form() {
    let op = Op::IAdd2(OpIAdd2 {
        dst: Dst::Reg(gpr(4)),
        carry_out: Dst::Discard,
        srcs: [reg_src(5), Src::new_imm_u32(0x0012_3456)],
        carry_in: Src::new_zero(),
    });
    assert_eq!(encode_alone(&op, 50), 0x1c00_0123_4560_0504);
}

#[test]
fn iadd2_short_forms_and_carries() {
    let carry = RegRef::new(RegFile::Carry, 0, 1);
    let op = Op::IAdd2(OpIAdd2 {
        dst: Dst::Reg(gpr(4)),
        carry_out: Dst::Reg(carry),
        srcs: [reg_src(5), Src::new_imm_u32(0x7_ffff)],
        carry_in: Src::from_reg(carry),
    });
    // 0x3810, 19 bits of immediate, carry in at 43, carry out at 47
    assert_eq!(
        encode_alone(&op, 50),
        0x3810_0000_0000_0000 | (1u64 << 47) | (1u64 << 43) | (0x7_ffffu64 << 20) | 0x0504
    );
}

#[test]
fn imnmx_negative_short_immediate() {
    let op = Op::IMnMx(OpIMnMx {
        dst: Dst::Reg(gpr(1)),
        compare_type: IntCompareType::I32,
        srcs: [reg_src(2), Src::new_imm_u32(0xffff_ffff)],
        min: Src::new_imm_bool(true),
    });
    assert_eq!(encode_alone(&op, 50), 0x3921_03ff_fff0_0201);
}

#[test]
fn imad_forms() {
    let reg = Op::IMad(OpIMad {
        dst: Dst::Reg(gpr(0)),
        srcs: [reg_src(1), reg_src(2), reg_src(3)],
        signed: true,
    });
    // 0x5a00 with both sign bits; the addend register is not written
    assert_eq!(
        encode_alone(&reg, 50),
        0x5a00_0000_0000_0000 | (1u64 << 53) | (1u64 << 48) | (2u64 << 20) | 0x0100
    );
    let cb = Op::IMad(OpIMad {
        dst: Dst::Reg(gpr(0)),
        srcs: [
            reg_src(1),
            reg_src(2),
            Src::from_cbuf(CBufRef { buf: CBuf::Binding(1), offset: 4 }),
        ],
        signed: false,
    });
    assert_eq!(
        encode_alone(&cb, 50),
        0x5200_0000_0000_0000 | (2u64 << 39) | (1u64 << 34) | (1u64 << 20) | 0x0100
    );
}

#[test]
fn lop2_forms() {
    let long = Op::Lop2(OpLop2 {
        dst: Dst::Reg(gpr(1)),
        srcs: [
            Src { src_ref: SrcRef::Reg(gpr(2)), src_mod: SrcMod::BNot },
            Src::new_imm_u32(0xff00_ff00),
        ],
        op: LogicOp2::Xor,
    });
    assert_eq!(
        encode_alone(&long, 50),
        0x0400_0000_0000_0000 | (1u64 << 55) | (2u64 << 53) | (0xff00_ff00u64 << 20) | 0x0201
    );
    let short = Op::Lop2(OpLop2 {
        dst: Dst::Reg(gpr(1)),
        srcs: [reg_src(2), Src { src_ref: SrcRef::Reg(gpr(3)), src_mod: SrcMod::BNot }],
        op: LogicOp2::PassB,
    });
    // no predicate result: register 7 at 48..51
    assert_eq!(
        encode_alone(&short, 50),
        0x5c40_0000_0000_0000 | (7u64 << 48) | (3u64 << 41) | (1u64 << 40) | (3u64 << 20) | 0x0201
    );
}

#[test]
fn dfma_constant_buffer_addend() {
    let op = Op::DFma(OpDFma {
        dst: Dst::Reg(gpr(10)),
        srcs: [
            reg_src(2),
            Src { src_ref: SrcRef::Reg(gpr(4)), src_mod: SrcMod::FNeg },
            Src::from_cbuf(CBufRef { buf: CBuf::Binding(3), offset: 0x100 }),
        ],
        rnd_mode: FRndMode::PosInf,
    });
    // 0x5370: second source at 39..47, product negated, rounding at 50..52
    assert_eq!(
        encode_alone(&op, 50),
        0x5370_0000_0000_0000 | (2u64 << 50) | (1u64 << 48) | (4u64 << 39) | (3u64 << 34)
            | (0x40u64 << 20) | 0x020a
    );
}

#[test]
fn mov_immediate() {
    let op = Op::Mov(OpMov { dst: Dst::Reg(gpr(0)), src: Src::new_imm_u32(0xdead_beef), quad_lanes: 0xf });
    assert_eq!(encode_alone(&op, 50), 0x010d_eadb_eef0_f000);
}

#[test]
fn ld_negative_offset() {
    let op = Op::Ld(OpLd {
        dst: Dst::Reg(gpr(1)),
        addr: reg_src(2),
        offset: -4,
        access: MemAccess {
            mem_type: MemType::B32,
            space: MemSpace::Global(MemAddrType::A64),
            order: MemOrder::Weak,
            eviction_priority: MemEvictionPriority::Normal,
        },
    });
    // 24 bits of two's complement at 20..44, 64-bit address at 45, type 4 at 48..51
    assert_eq!(
        encode_alone(&op, 50),
        0xeed0_0000_0000_0000 | (4u64 << 48) | (1u64 << 45) | (0xff_fffcu64 << 20) | 0x0201
    );
}

#[test]
fn atom_shared_offset_in_words() {
    let op = Op::Atom(OpAtom {
        dst: Dst::Reg(gpr(1)),
        addr: reg_src(2),
        compare: Src::new_zero(),
        data: reg_src(3),
        atom_op: AtomOp::Max,
        atom_type: AtomType::I32,
        addr_offset: -8,
        mem_space: MemSpace::Shared,
        mem_order: MemOrder::Weak,
        mem_eviction_priority: MemEvictionPriority::Normal,
    });
    // -8 bytes are -2 words: 22 bits of two's complement at 30..52
    assert_eq!(
        encode_alone(&op, 50),
        0xec00_0000_0000_0000 | (2u64 << 52) | (0x3f_fffeu64 << 30) | (1u64 << 28) | (3u64 << 20)
            | 0x0201
    );
}

#[test]
fn atom_global() {
    let op = Op::Atom(OpAtom {
        dst: Dst::Discard,
        addr: reg_src(2),
        compare: Src::new_zero(),
        data: reg_src(3),
        atom_op: AtomOp::Add,
        atom_type: AtomType::U64,
        addr_offset: 16,
        mem_space: MemSpace::Global(MemAddrType::A64),
        mem_order: MemOrder::Weak,
        mem_eviction_priority: MemEvictionPriority::Normal,
    });
    assert_eq!(
        encode_alone(&op, 50),
        0xed00_0000_0000_0000 | (2u64 << 49) | (1u64 << 48) | (16u64 << 28) | (3u64 << 20) | 0x02ff
    );
}

#[test]
fn exit_and_nop() {
    assert_eq!(encode_alone(&Op::Exit(OpExit {}), 50), 0xe300_0000_0000_000f);
    assert_eq!(encode_alone(&Op::Nop(OpNop { label: None }), 50), 0x50b0_0000_0000_0f00);
}

#[test]
fn trait_encode_matches_dispatch() {
    let op = OpExit {};
    let labels = HashMap::new();
    let mut e = SM50Encoder::new(52, 8, &labels);
    op.encode(&mut e);
    assert_eq!(word_of(&e), 0xe300_0000_0000_000f);
    assert_eq!(e.sm, 52);
    assert_eq!(e.ip, 8);
    assert_eq!(e.sched, 0);
}

#[test]
fn instruction_gets_guard_and_scheduling_data() {
    let instr = Instr {
        pred: Pred { pred_ref: PredRef::Reg(RegRef::new(RegFile::Pred, 3, 1)), pred_inv: true },
        op: Op::FAdd(OpFAdd {
            dst: Dst::Reg(gpr(1)),
            srcs: [reg_src(2), reg_src(3)],
            saturate: false,
            rnd_mode: FRndMode::NearestEven,
            ftz: false,
        }),
        deps: InstrDeps { delay: 5, yld: true, wr_bar: 2, rd_bar: -1, wt_bar_mask: 0x21, reuse_mask: 0x3 },
    };
    let sm = ShaderModel50::new(50);
    let labels = HashMap::new();
    let mut ip = 8usize;
    let mut sched = [0u32; 2];
    let inst = encode_instr(1, Some(&instr), &sm, &labels, &mut ip, &mut sched);
    assert_eq!(ip, 16);
    assert_eq!(words_to_u64(inst), 0x5c58_0000_003b_0201);
    // delay 5, yield, write barrier 2, no read barrier (7), wait mask, reuse mask,
    // in the second of the three 21-bit slots
    assert_eq!(words_to_u64(sched), 0x70f55u64 << 21);
}

#[test]
fn empty_slot_is_a_nop() {
    let sm = ShaderModel50::new(50);
    let labels = HashMap::new();
    let mut ip = 24usize;
    let mut sched = [0u32; 2];
    let inst = encode_instr(2, None, &sm, &labels, &mut ip, &mut sched);
    assert_eq!(ip, 32);
    assert_eq!(words_to_u64(inst), 0x50b0_0000_0007_0f00);
    assert_eq!(words_to_u64(sched), 0x7e0u64 << 42);
}

fn plain(op: Op) -> Instr {
    Instr::new(op)
}

fn two_block_shader() -> Shader {
    let b0 = BasicBlock {
        label: Label { idx: 0 },
        instrs: vec![
            plain(Op::Bra(OpBra { target: Label { idx: 1 } })),
            plain(Op::Exit(OpExit {})),
        ],
    };
    let b1 = BasicBlock {
        label: Label { idx: 1 },
        instrs: vec![
            plain(Op::Nop(OpNop { label: None })),
            plain(Op::Nop(OpNop { label: None })),
            plain(Op::Nop(OpNop { label: None })),
            plain(Op::Bra(OpBra { target: Label { idx: 0 } })),
        ],
    };
    Shader { functions: vec![Function { blocks: vec![b0, b1] }] }
}

#[test]
fn label_addresses_skip_the_scheduling_word() {
    let s = two_block_shader();
    let labels = compute_labels(&s.functions[0].blocks);
    assert_eq!(labels.len(), 2);
    // block 0 starts the stream; block 1 follows its one group of 32 bytes
    assert_eq!(labels[&0], 8);
    assert_eq!(labels[&1], 40);
}

#[test]
fn branch_offset_comes_from_the_address_table() {
    let s = two_block_shader();
    let sm = ShaderModel50::new(50);
    let words = encode_sm50_shader(&sm, &s);
    // 2 instructions pad to one group, 4 to two: 3 groups of 8 words
    assert_eq!(words.len(), 24);
    let nop_sched: u64 = 0x7e0 | (0x7e0 << 21) | (0x7e0 << 42);
    for g in 0..3 {
        assert_eq!(words_to_u64([words[8 * g], words[8 * g + 1]]), nop_sched);
    }
    // the branch of block 0 sits at address 8 and goes to address 40
    let target_ip: i64 = 40;
    let current_ip: i64 = 8;
    let rel = (target_ip - current_ip - 8) as u64;
    assert_eq!(rel, 24);
    assert_eq!(
        words_to_u64([words[2], words[3]]),
        0xe240_0000_0000_0000 | (rel << 20) | (7u64 << 16) | 0xf
    );
    assert_eq!(words_to_u64([words[4], words[5]]), 0xe300_0000_0007_000f);
    // the third slot of block 0 is padding
    assert_eq!(words_to_u64([words[6], words[7]]), 0x50b0_0000_0007_0f00);
    // the branch of block 1 is the first of its second group: address 32 + 32 + 8,
    // and it goes back to address 8
    let back = ((8i64 - 72 - 8) as u64) & 0xff_ffff;
    assert_eq!(back, 0xff_ffb8);
    assert_eq!(
        words_to_u64([words[18], words[19]]),
        0xe240_0000_0000_0000 | (back << 20) | (7u64 << 16) | 0xf
    );
    assert_eq!(words, sm.encode_shader(&s));
}

#[test]
fn empty_function_encodes_to_nothing() {
    let s = Shader { functions: vec![Function { blocks: vec![] }] };
    let sm = ShaderModel50::new(61);
    assert_eq!(encode_sm50_shader(&sm, &s), Vec::<u32>::new());
    let s = Shader {
        functions: vec![Function { blocks: vec![BasicBlock { label: Label { idx: 7 }, instrs: vec![] }] }],
    };
    assert_eq!(encode_sm50_shader(&sm, &s), Vec::<u32>::new());
}

#[test]
fn shader_model_limits() {
    let sm = ShaderModel50::new(52);
    assert_eq!(sm.sm(), 52);
    assert_eq!(sm.num_regs(RegFile::GPR), 255);
    assert_eq!(sm.num_regs(RegFile::UGPR), 0);
    assert_eq!(sm.num_regs(RegFile::Pred), 7);
    assert_eq!(sm.num_regs(RegFile::UPred), 0);
    assert_eq!(sm.num_regs(RegFile::Carry), 1);
    assert_eq!(sm.num_regs(RegFile::Bar), 0);
    assert_eq!(sm.num_regs(RegFile::Mem), 1 << 26);
    assert!(!sm.op_can_be_uniform(&Op::Exit(OpExit {})));
}

#[test]
fn branch_offset_in_any_field() {
    let mut labels = HashMap::new();
    labels.insert(1u32, 48usize);
    labels.insert(2u32, 0usize);
    // forward: 48 - 8 - 8 = 32
    let mut e = SM50Encoder::new(52, 8, &labels);
    e.set_rel_offset(20, 44, 1);
    assert_eq!(word_of(&e), 32 << 20);
    let mut e = SM50Encoder::new(52, 8, &labels);
    e.set_rel_offset(0, 8, 1);
    assert_eq!(word_of(&e), 32);
    let mut e = SM50Encoder::new(52, 8, &labels);
    e.set_rel_offset(32, 64, 1);
    assert_eq!(word_of(&e), 32 << 32);
    // backward: 0 - 8 - 8 = -16, in two's complement of the field's width
    let mut e = SM50Encoder::new(52, 8, &labels);
    e.set_rel_offset(20, 44, 2);
    assert_eq!(word_of(&e), 0xff_fff0 << 20);
    let mut e = SM50Encoder::new(52, 8, &labels);
    e.set_rel_offset(4, 12, 2);
    assert_eq!(word_of(&e), 0xf0 << 4);
    let mut e = SM50Encoder::new(52, 8, &labels);
    e.set_rel_offset(0, 32, 2);
    assert_eq!(word_of(&e), 0xffff_fff0);
}
