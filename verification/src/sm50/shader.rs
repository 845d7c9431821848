//! The assembler: every operation's encoding behind one dispatch, the
//! encoding of one instruction slot, and the layout of a function's
//! blocks into the linear stream that the hardware fetches.
//!
//! The hardware issues instructions in groups of three, each group led
//! by a scheduling word.  An instruction and a scheduling word take
//! 8 bytes each, so a group takes 32 bytes and 8 words of 32 bits.

use crate::bitview::{
    join_words, lemma_mask_values, set_field_u64, u64_to_words, with_field, words_to_u64,
};
use crate::ir::{InstrDeps, Pred, PredRef};
use crate::legalize::{BuilderState, LegalizeBuilder};
use crate::ops::{BasicBlock, Instr, Op, OpNop, Shader};
use crate::sm50::{ShaderModel50, SM50Op};
use crate::sm50::encoder::{
    check_deps, check_pred, deps_ok, EncodeState, lemma_sched_bits_fit, pred_ok, put_pred,
    sched_bits, SM50Encoder,
};
use std::collections::HashMap;
use vstd::prelude::*;

verus! {

broadcast use vstd::std_specs::hash::group_hash_axioms;

/// The bytes that one instruction or scheduling word takes.
pub const INSTR_BYTES: usize = 8;

/// The operation has an encoding in this family and is in the form
/// that its encoder takes.  A copy has none: it is lowered to a move
/// before encoding.
pub open spec fn op_can_encode(op: Op, e: EncodeState) -> bool {
    match op {
        Op::FAdd(o) => o.can_encode(e),
        Op::FFma(o) => o.can_encode(e),
        Op::FMnMx(o) => o.can_encode(e),
        Op::FMul(o) => o.can_encode(e),
        Op::Rro(o) => o.can_encode(e),
        Op::MuFu(o) => o.can_encode(e),
        Op::FSet(o) => o.can_encode(e),
        Op::FSetP(o) => o.can_encode(e),
        Op::FSwzAdd(o) => o.can_encode(e),
        Op::DAdd(o) => o.can_encode(e),
        Op::DFma(o) => o.can_encode(e),
        Op::DMnMx(o) => o.can_encode(e),
        Op::DMul(o) => o.can_encode(e),
        Op::DSetP(o) => o.can_encode(e),
        Op::Bfe(o) => o.can_encode(e),
        Op::Flo(o) => o.can_encode(e),
        Op::IAdd2(o) => o.can_encode(e),
        Op::IMad(o) => o.can_encode(e),
        Op::IMul(o) => o.can_encode(e),
        Op::IMnMx(o) => o.can_encode(e),
        Op::ISetP(o) => o.can_encode(e),
        Op::Lop2(o) => o.can_encode(e),
        Op::PopC(o) => o.can_encode(e),
        Op::Shf(o) => o.can_encode(e),
        Op::Shl(o) => o.can_encode(e),
        Op::Shr(o) => o.can_encode(e),
        Op::F2F(o) => o.can_encode(e),
        Op::F2I(o) => o.can_encode(e),
        Op::I2F(o) => o.can_encode(e),
        Op::I2I(o) => o.can_encode(e),
        Op::Mov(o) => o.can_encode(e),
        Op::Prmt(o) => o.can_encode(e),
        Op::Sel(o) => o.can_encode(e),
        Op::Shfl(o) => o.can_encode(e),
        Op::PSetP(o) => o.can_encode(e),
        Op::Tex(o) => o.can_encode(e),
        Op::Tld(o) => o.can_encode(e),
        Op::Tld4(o) => o.can_encode(e),
        Op::Tmml(o) => o.can_encode(e),
        Op::Txd(o) => o.can_encode(e),
        Op::Txq(o) => o.can_encode(e),
        Op::SuLd(o) => o.can_encode(e),
        Op::SuSt(o) => o.can_encode(e),
        Op::SuAtom(o) => o.can_encode(e),
        Op::Ld(o) => o.can_encode(e),
        Op::Ldc(o) => o.can_encode(e),
        Op::St(o) => o.can_encode(e),
        Op::Atom(o) => o.can_encode(e),
        Op::ALd(o) => o.can_encode(e),
        Op::ASt(o) => o.can_encode(e),
        Op::Ipa(o) => o.can_encode(e),
        Op::MemBar(o) => o.can_encode(e),
        Op::Bra(o) => o.can_encode(e),
        Op::Exit(o) => o.can_encode(e),
        Op::Bar(o) => o.can_encode(e),
        Op::CS2R(o) => o.can_encode(e),
        Op::Isberd(o) => o.can_encode(e),
        Op::Kill(o) => o.can_encode(e),
        Op::Nop(o) => o.can_encode(e),
        Op::S2R(o) => o.can_encode(e),
        Op::Vote(o) => o.can_encode(e),
        Op::Out(o) => o.can_encode(e),
        Op::Copy(_) => false,
    }
}

/// The instruction word after `op` is written by an encoder in state
/// `e`.
pub open spec fn op_encoded(op: Op, e: EncodeState) -> u64 {
    match op {
        Op::FAdd(o) => o.encoded(e),
        Op::FFma(o) => o.encoded(e),
        Op::FMnMx(o) => o.encoded(e),
        Op::FMul(o) => o.encoded(e),
        Op::Rro(o) => o.encoded(e),
        Op::MuFu(o) => o.encoded(e),
        Op::FSet(o) => o.encoded(e),
        Op::FSetP(o) => o.encoded(e),
        Op::FSwzAdd(o) => o.encoded(e),
        Op::DAdd(o) => o.encoded(e),
        Op::DFma(o) => o.encoded(e),
        Op::DMnMx(o) => o.encoded(e),
        Op::DMul(o) => o.encoded(e),
        Op::DSetP(o) => o.encoded(e),
        Op::Bfe(o) => o.encoded(e),
        Op::Flo(o) => o.encoded(e),
        Op::IAdd2(o) => o.encoded(e),
        Op::IMad(o) => o.encoded(e),
        Op::IMul(o) => o.encoded(e),
        Op::IMnMx(o) => o.encoded(e),
        Op::ISetP(o) => o.encoded(e),
        Op::Lop2(o) => o.encoded(e),
        Op::PopC(o) => o.encoded(e),
        Op::Shf(o) => o.encoded(e),
        Op::Shl(o) => o.encoded(e),
        Op::Shr(o) => o.encoded(e),
        Op::F2F(o) => o.encoded(e),
        Op::F2I(o) => o.encoded(e),
        Op::I2F(o) => o.encoded(e),
        Op::I2I(o) => o.encoded(e),
        Op::Mov(o) => o.encoded(e),
        Op::Prmt(o) => o.encoded(e),
        Op::Sel(o) => o.encoded(e),
        Op::Shfl(o) => o.encoded(e),
        Op::PSetP(o) => o.encoded(e),
        Op::Tex(o) => o.encoded(e),
        Op::Tld(o) => o.encoded(e),
        Op::Tld4(o) => o.encoded(e),
        Op::Tmml(o) => o.encoded(e),
        Op::Txd(o) => o.encoded(e),
        Op::Txq(o) => o.encoded(e),
        Op::SuLd(o) => o.encoded(e),
        Op::SuSt(o) => o.encoded(e),
        Op::SuAtom(o) => o.encoded(e),
        Op::Ld(o) => o.encoded(e),
        Op::Ldc(o) => o.encoded(e),
        Op::St(o) => o.encoded(e),
        Op::Atom(o) => o.encoded(e),
        Op::ALd(o) => o.encoded(e),
        Op::ASt(o) => o.encoded(e),
        Op::Ipa(o) => o.encoded(e),
        Op::MemBar(o) => o.encoded(e),
        Op::Bra(o) => o.encoded(e),
        Op::Exit(o) => o.encoded(e),
        Op::Bar(o) => o.encoded(e),
        Op::CS2R(o) => o.encoded(e),
        Op::Isberd(o) => o.encoded(e),
        Op::Kill(o) => o.encoded(e),
        Op::Nop(o) => o.encoded(e),
        Op::S2R(o) => o.encoded(e),
        Op::Vote(o) => o.encoded(e),
        Op::Out(o) => o.encoded(e),
        Op::Copy(_) => e.word,
    }
}

/// Whether an encoder in the state of `e` can take the operation.
pub fn op_encodable(op: &Op, e: &SM50Encoder<'_>) -> (r: bool)
    ensures
        r == op_can_encode(*op, e.state()),
{
    match op {
        Op::FAdd(o) => o.encodable(e),
        Op::FFma(o) => o.encodable(e),
        Op::FMnMx(o) => o.encodable(e),
        Op::FMul(o) => o.encodable(e),
        Op::Rro(o) => o.encodable(e),
        Op::MuFu(o) => o.encodable(e),
        Op::FSet(o) => o.encodable(e),
        Op::FSetP(o) => o.encodable(e),
        Op::FSwzAdd(o) => o.encodable(e),
        Op::DAdd(o) => o.encodable(e),
        Op::DFma(o) => o.encodable(e),
        Op::DMnMx(o) => o.encodable(e),
        Op::DMul(o) => o.encodable(e),
        Op::DSetP(o) => o.encodable(e),
        Op::Bfe(o) => o.encodable(e),
        Op::Flo(o) => o.encodable(e),
        Op::IAdd2(o) => o.encodable(e),
        Op::IMad(o) => o.encodable(e),
        Op::IMul(o) => o.encodable(e),
        Op::IMnMx(o) => o.encodable(e),
        Op::ISetP(o) => o.encodable(e),
        Op::Lop2(o) => o.encodable(e),
        Op::PopC(o) => o.encodable(e),
        Op::Shf(o) => o.encodable(e),
        Op::Shl(o) => o.encodable(e),
        Op::Shr(o) => o.encodable(e),
        Op::F2F(o) => o.encodable(e),
        Op::F2I(o) => o.encodable(e),
        Op::I2F(o) => o.encodable(e),
        Op::I2I(o) => o.encodable(e),
        Op::Mov(o) => o.encodable(e),
        Op::Prmt(o) => o.encodable(e),
        Op::Sel(o) => o.encodable(e),
        Op::Shfl(o) => o.encodable(e),
        Op::PSetP(o) => o.encodable(e),
        Op::Tex(o) => o.encodable(e),
        Op::Tld(o) => o.encodable(e),
        Op::Tld4(o) => o.encodable(e),
        Op::Tmml(o) => o.encodable(e),
        Op::Txd(o) => o.encodable(e),
        Op::Txq(o) => o.encodable(e),
        Op::SuLd(o) => o.encodable(e),
        Op::SuSt(o) => o.encodable(e),
        Op::SuAtom(o) => o.encodable(e),
        Op::Ld(o) => o.encodable(e),
        Op::Ldc(o) => o.encodable(e),
        Op::St(o) => o.encodable(e),
        Op::Atom(o) => o.encodable(e),
        Op::ALd(o) => o.encodable(e),
        Op::ASt(o) => o.encodable(e),
        Op::Ipa(o) => o.encodable(e),
        Op::MemBar(o) => o.encodable(e),
        Op::Bra(o) => o.encodable(e),
        Op::Exit(o) => o.encodable(e),
        Op::Bar(o) => o.encodable(e),
        Op::CS2R(o) => o.encodable(e),
        Op::Isberd(o) => o.encodable(e),
        Op::Kill(o) => o.encodable(e),
        Op::Nop(o) => o.encodable(e),
        Op::S2R(o) => o.encodable(e),
        Op::Vote(o) => o.encodable(e),
        Op::Out(o) => o.encodable(e),
        Op::Copy(_) => false,
    }
}

/// Writes any operation into the instruction word.
pub fn encode_op(op: &Op, e: &mut SM50Encoder<'_>)
    requires
        op_can_encode(*op, old(e).state()),
    ensures
        final(e).word() == op_encoded(*op, old(e).state()),
        final(e).same_context(*old(e)),
{
    match op {
        Op::FAdd(o) => o.encode(e),
        Op::FFma(o) => o.encode(e),
        Op::FMnMx(o) => o.encode(e),
        Op::FMul(o) => o.encode(e),
        Op::Rro(o) => o.encode(e),
        Op::MuFu(o) => o.encode(e),
        Op::FSet(o) => o.encode(e),
        Op::FSetP(o) => o.encode(e),
        Op::FSwzAdd(o) => o.encode(e),
        Op::DAdd(o) => o.encode(e),
        Op::DFma(o) => o.encode(e),
        Op::DMnMx(o) => o.encode(e),
        Op::DMul(o) => o.encode(e),
        Op::DSetP(o) => o.encode(e),
        Op::Bfe(o) => o.encode(e),
        Op::Flo(o) => o.encode(e),
        Op::IAdd2(o) => o.encode(e),
        Op::IMad(o) => o.encode(e),
        Op::IMul(o) => o.encode(e),
        Op::IMnMx(o) => o.encode(e),
        Op::ISetP(o) => o.encode(e),
        Op::Lop2(o) => o.encode(e),
        Op::PopC(o) => o.encode(e),
        Op::Shf(o) => o.encode(e),
        Op::Shl(o) => o.encode(e),
        Op::Shr(o) => o.encode(e),
        Op::F2F(o) => o.encode(e),
        Op::F2I(o) => o.encode(e),
        Op::I2F(o) => o.encode(e),
        Op::I2I(o) => o.encode(e),
        Op::Mov(o) => o.encode(e),
        Op::Prmt(o) => o.encode(e),
        Op::Sel(o) => o.encode(e),
        Op::Shfl(o) => o.encode(e),
        Op::PSetP(o) => o.encode(e),
        Op::Tex(o) => o.encode(e),
        Op::Tld(o) => o.encode(e),
        Op::Tld4(o) => o.encode(e),
        Op::Tmml(o) => o.encode(e),
        Op::Txd(o) => o.encode(e),
        Op::Txq(o) => o.encode(e),
        Op::SuLd(o) => o.encode(e),
        Op::SuSt(o) => o.encode(e),
        Op::SuAtom(o) => o.encode(e),
        Op::Ld(o) => o.encode(e),
        Op::Ldc(o) => o.encode(e),
        Op::St(o) => o.encode(e),
        Op::Atom(o) => o.encode(e),
        Op::ALd(o) => o.encode(e),
        Op::ASt(o) => o.encode(e),
        Op::Ipa(o) => o.encode(e),
        Op::MemBar(o) => o.encode(e),
        Op::Bra(o) => o.encode(e),
        Op::Exit(o) => o.encode(e),
        Op::Bar(o) => o.encode(e),
        Op::CS2R(o) => o.encode(e),
        Op::Isberd(o) => o.encode(e),
        Op::Kill(o) => o.encode(e),
        Op::Nop(o) => o.encode(e),
        Op::S2R(o) => o.encode(e),
        Op::Vote(o) => o.encode(e),
        Op::Out(o) => o.encode(e),
        Op::Copy(_) => {},
    }
}

/// The low 32 bits of a word.
pub open spec fn low_word(w: u64) -> u32 {
    (w & 0xffff_ffff) as u32
}

/// The high 32 bits of a word.
pub open spec fn high_word(w: u64) -> u32 {
    (w >> 32) as u32
}

/// The no-op that fills an empty slot of a group.
pub open spec fn filler() -> Instr {
    Instr {
        pred: Pred { pred_ref: PredRef::Always, pred_inv: false },
        op: Op::Nop(OpNop { label: None }),
        deps: InstrDeps::new_spec(),
    }
}

/// What a slot holds: its instruction, or the filler.
pub open spec fn slot_instr(instr: Option<Instr>) -> Instr {
    match instr {
        Some(i) => i,
        None => filler(),
    }
}

/// The instruction can be encoded at address `ip`: its operation, its
/// guard and its scheduling data all can.
#[verifier::opaque]
pub open spec fn instr_can_encode(instr: Instr, sm: u8, ip: usize, labels: Map<u32, usize>) -> bool {
    &&& op_can_encode(instr.op, EncodeState::fresh(sm, ip, labels))
    &&& pred_ok(instr.pred)
    &&& deps_ok(instr.deps)
}

/// The 64 bits of an instruction at address `ip`: its operation
/// written over zero, then its guard.
#[verifier::opaque]
pub open spec fn instr_word(instr: Instr, sm: u8, ip: usize, labels: Map<u32, usize>) -> u64 {
    put_pred(op_encoded(instr.op, EncodeState::fresh(sm, ip, labels)), instr.pred)
}

/// Whether the instruction can be encoded at address `ip`.
pub fn instr_encodable(
    instr: &Instr,
    sm: &ShaderModel50,
    labels: &HashMap<u32, usize>,
    ip: usize,
) -> (r: bool)
    ensures
        r == instr_can_encode(*instr, sm.sm, ip, labels@),
{
    proof {
        reveal(instr_can_encode);
    }
    let e = SM50Encoder::new(sm.sm, ip, labels);
    op_encodable(&instr.op, &e) && check_pred(&instr.pred) && check_deps(&instr.deps)
}

/// Encodes the instruction of slot `instr_index` of a group, or the
/// filler if the slot is empty, at address `*ip`; advances `*ip` past
/// it and writes its scheduling data to its 21 bits of the group's
/// scheduling word.
pub fn encode_instr(
    instr_index: usize,
    instr: Option<&Instr>,
    sm: &ShaderModel50,
    labels: &HashMap<u32, usize>,
    ip: &mut usize,
    sched_instr: &mut [u32; 2],
) -> (inst: [u32; 2])
    requires
        instr_index < 3,
        *old(ip) + 8 <= usize::MAX,
        match instr {
            Some(i) => instr_can_encode(*i, sm.sm, *old(ip), labels@),
            None => true,
        },
    ensures
        *final(ip) == *old(ip) + 8,
        inst[0] == low_word(
            instr_word(
                slot_instr(
                    match instr {
                        Some(i) => Some(*i),
                        None => None,
                    },
                ),
                sm.sm,
                *old(ip),
                labels@,
            ),
        ),
        inst[1] == high_word(
            instr_word(
                slot_instr(
                    match instr {
                        Some(i) => Some(*i),
                        None => None,
                    },
                ),
                sm.sm,
                *old(ip),
                labels@,
            ),
        ),
        join_words(final(sched_instr)[0], final(sched_instr)[1]) == with_field(
            join_words(old(sched_instr)[0], old(sched_instr)[1]),
            (21 * instr_index) as u32,
            (21 * (instr_index + 1)) as u32,
            sched_bits(
                slot_instr(
                    match instr {
                        Some(i) => Some(*i),
                        None => None,
                    },
                ).deps,
            ),
        ),
{
    proof {
        reveal(instr_can_encode);
        reveal(instr_word);
    }
    let mut e = SM50Encoder::new(sm.sm, *ip, labels);
    match instr {
        Some(instr) => {
            encode_op(&instr.op, &mut e);
            e.set_pred(&instr.pred);
            e.set_instr_deps(&instr.deps);
            proof {
                lemma_sched_bits_fit(instr.deps);
            }
        },
        None => {
            let nop = OpNop { label: None };
            nop.encode(&mut e);
            e.set_pred(&Pred::always());
            e.set_instr_deps(&InstrDeps::new());
            proof {
                lemma_sched_bits_fit(InstrDeps::new_spec());
            }
        },
    }
    *ip = *ip + 8;
    proof {
        lemma_mask_values();
    }
    let lo: u32 = (21 * instr_index) as u32;
    let s: u64 = set_field_u64(words_to_u64(*sched_instr), lo, lo + 21, e.sched as u64);
    *sched_instr = u64_to_words(s);
    let w0: u32 = e.inst[0];
    let w1: u32 = e.inst[1];
    assert(w0 == low_word(join_words(w0, w1)) && w1 == high_word(join_words(w0, w1)))
        by (bit_vector);
    e.inst
}

/// The groups of three that `n` instructions fill, the last one padded.
pub open spec fn num_groups(n: nat) -> nat {
    (n + 2) / 3
}

/// The groups that the first `i` blocks take together.
pub open spec fn groups_before(blocks: Seq<BasicBlock>, i: nat) -> nat
    decreases i,
{
    if i == 0 {
        0
    } else {
        groups_before(blocks, (i - 1) as nat) + num_groups(blocks[i - 1].instrs@.len())
    }
}

/// The byte address at which block `i` starts: 32 bytes for each group
/// before it.
pub open spec fn block_start(blocks: Seq<BasicBlock>, i: nat) -> nat {
    groups_before(blocks, i) * 32
}

/// The size of the encoded function in bytes.
pub open spec fn function_bytes(blocks: Seq<BasicBlock>) -> nat {
    block_start(blocks, blocks.len())
}

/// The address that each label of the first `n` blocks resolves to: the
/// first instruction of its block, past the scheduling word that leads
/// the block.  Where two blocks share a label, the later one counts.
pub open spec fn label_table(blocks: Seq<BasicBlock>, n: nat) -> Map<u32, usize>
    decreases n,
{
    if n == 0 {
        Map::empty()
    } else {
        label_table(blocks, (n - 1) as nat).insert(
            blocks[n - 1].label.idx,
            (block_start(blocks, (n - 1) as nat) + 8) as usize,
        )
    }
}

/// What slot `i` of a block holds: an instruction, or the filler past
/// the end of the block.
pub open spec fn slot_at(instrs: Seq<Instr>, i: nat) -> Instr {
    if i < instrs.len() {
        instrs[i as int]
    } else {
        filler()
    }
}

/// The byte address of slot `i` of a block that starts at `start`:
/// each group of three is led by one scheduling word.
pub open spec fn slot_ip(start: nat, i: nat) -> nat {
    start + (i / 3) * 32 + 8 + (i % 3) * 8
}

/// The scheduling word of group `g` of a block: 21 bits for each of
/// its three slots, lowest first.
pub open spec fn group_sched(instrs: Seq<Instr>, g: nat) -> u64 {
    with_field(
        with_field(
            with_field(0, 0, 21, sched_bits(slot_at(instrs, 3 * g).deps)),
            21,
            42,
            sched_bits(slot_at(instrs, 3 * g + 1).deps),
        ),
        42,
        63,
        sched_bits(slot_at(instrs, 3 * g + 2).deps),
    )
}

/// The eight words of group `g` of a block that starts at `start`: the
/// scheduling word, then the three instructions, each low word first.
pub open spec fn group_words(
    instrs: Seq<Instr>,
    g: nat,
    start: nat,
    sm: u8,
    labels: Map<u32, usize>,
) -> Seq<u32> {
    let ip = start + g * 32 + 8;
    let s = group_sched(instrs, g);
    let i0 = instr_word(slot_at(instrs, 3 * g), sm, ip as usize, labels);
    let i1 = instr_word(slot_at(instrs, 3 * g + 1), sm, (ip + 8) as usize, labels);
    let i2 = instr_word(slot_at(instrs, 3 * g + 2), sm, (ip + 16) as usize, labels);
    seq![
        low_word(s),
        high_word(s),
        low_word(i0),
        high_word(i0),
        low_word(i1),
        high_word(i1),
        low_word(i2),
        high_word(i2),
    ]
}

/// The words of the first `ngroups` groups of a block.
pub open spec fn block_words(
    instrs: Seq<Instr>,
    ngroups: nat,
    start: nat,
    sm: u8,
    labels: Map<u32, usize>,
) -> Seq<u32>
    decreases ngroups,
{
    if ngroups == 0 {
        Seq::empty()
    } else {
        block_words(instrs, (ngroups - 1) as nat, start, sm, labels) + group_words(
            instrs,
            (ngroups - 1) as nat,
            start,
            sm,
            labels,
        )
    }
}

/// The words of the first `n` blocks of a function.
pub open spec fn blocks_words(
    blocks: Seq<BasicBlock>,
    n: nat,
    sm: u8,
    labels: Map<u32, usize>,
) -> Seq<u32>
    decreases n,
{
    if n == 0 {
        Seq::empty()
    } else {
        blocks_words(blocks, (n - 1) as nat, sm, labels) + block_words(
            blocks[n - 1].instrs@,
            num_groups(blocks[n - 1].instrs@.len()),
            block_start(blocks, (n - 1) as nat),
            sm,
            labels,
        )
    }
}

/// Every instruction of the function can be encoded at the address
/// that the layout gives it, with the function's own label table.
pub open spec fn function_can_encode(blocks: Seq<BasicBlock>, sm: u8) -> bool {
    forall|b: int, i: int|
        0 <= b < blocks.len() && 0 <= i < blocks[b].instrs@.len() ==> instr_can_encode(
            #[trigger] blocks[b].instrs@[i],
            sm,
            slot_ip(block_start(blocks, b as nat), i as nat) as usize,
            label_table(blocks, blocks.len()),
        )
}

/// The stream of the whole function: all its blocks, with its own
/// label table.
pub open spec fn function_words(blocks: Seq<BasicBlock>, sm: u8) -> Seq<u32> {
    blocks_words(blocks, blocks.len(), sm, label_table(blocks, blocks.len()))
}

/// No two of the first `n` blocks share a label.
pub open spec fn labels_distinct(blocks: Seq<BasicBlock>, n: nat) -> bool {
    forall|i: int, j: int|
        0 <= i < j < n ==> (#[trigger] blocks[i]).label.idx != (#[trigger] blocks[j]).label.idx
}

/// Where labels are distinct, every label resolves to exactly one
/// block: its address is that of the first instruction of its block.
pub proof fn lemma_label_address(blocks: Seq<BasicBlock>, n: nat, i: int)
    requires
        0 <= i < n <= blocks.len(),
        labels_distinct(blocks, n),
        block_start(blocks, n) + 8 <= usize::MAX,
    ensures
        label_table(blocks, n).contains_key(blocks[i].label.idx),
        label_table(blocks, n)[blocks[i].label.idx] == block_start(blocks, i as nat) + 8,
    decreases n,
{
    lemma_block_start_monotone(blocks, i as nat, n);
    if i < n - 1 {
        lemma_block_start_monotone(blocks, (n - 1) as nat, n);
        lemma_label_address(blocks, (n - 1) as nat, i);
        assert(blocks[i].label.idx != blocks[n - 1].label.idx);
    }
}

/// Blocks start in program order: none starts before an earlier one.
pub proof fn lemma_block_start_monotone(blocks: Seq<BasicBlock>, i: nat, j: nat)
    requires
        i <= j,
    ensures
        groups_before(blocks, i) <= groups_before(blocks, j),
        block_start(blocks, i) <= block_start(blocks, j),
    decreases j,
{
    if i < j {
        lemma_block_start_monotone(blocks, i, (j - 1) as nat);
    }
}

/// Each group adds eight words to the stream.
pub proof fn lemma_block_words_len(
    instrs: Seq<Instr>,
    ngroups: nat,
    start: nat,
    sm: u8,
    labels: Map<u32, usize>,
)
    ensures
        block_words(instrs, ngroups, start, sm, labels).len() == 8 * ngroups,
    decreases ngroups,
{
    if ngroups > 0 {
        lemma_block_words_len(instrs, (ngroups - 1) as nat, start, sm, labels);
    }
}

/// The stream has eight words for every group of the function, so four
/// bytes of it per word make up the function's size.
pub proof fn lemma_blocks_words_len(
    blocks: Seq<BasicBlock>,
    n: nat,
    sm: u8,
    labels: Map<u32, usize>,
)
    ensures
        blocks_words(blocks, n, sm, labels).len() == 8 * groups_before(blocks, n),
    decreases n,
{
    if n > 0 {
        lemma_blocks_words_len(blocks, (n - 1) as nat, sm, labels);
        lemma_block_words_len(
            blocks[n - 1].instrs@,
            num_groups(blocks[n - 1].instrs@.len()),
            block_start(blocks, (n - 1) as nat),
            sm,
            labels,
        );
    }
}

/// A word split in two and joined again is the same word.
pub proof fn lemma_split_join(a: u32, b: u32)
    ensures
        low_word(join_words(a, b)) == a,
        high_word(join_words(a, b)) == b,
{
    assert(a == low_word(join_words(a, b)) && b == high_word(join_words(a, b))) by (bit_vector);
}

/// The number of groups that `len` instructions fill.
fn groups_of(len: usize) -> (g: usize)
    ensures
        g == num_groups(len as nat),
{
    if len % 3 == 0 {
        len / 3
    } else {
        len / 3 + 1
    }
}

/// The size of the encoded function in bytes, if it leaves room for
/// the address of a label past its end.
pub fn function_size(blocks: &Vec<BasicBlock>) -> (r: Option<usize>)
    ensures
        match r {
            Some(n) => n == function_bytes(blocks@) && n + 8 <= usize::MAX,
            None => function_bytes(blocks@) + 8 > usize::MAX,
        },
{
    let n: usize = blocks.len();
    let mut size: usize = 0;
    let mut bi: usize = 0;
    while bi < n
        invariant
            bi <= n,
            n == blocks@.len(),
            size == block_start(blocks@, bi as nat),
            size + 8 <= usize::MAX,
        decreases n - bi,
    {
        proof {
            lemma_block_start_monotone(blocks@, (bi + 1) as nat, n as nat);
        }
        let groups: usize = groups_of(blocks[bi].instrs.len());
        let bytes: usize = match groups.checked_mul(32) {
            Some(b) => b,
            None => {
                return None;
            },
        };
        size = match size.checked_add(bytes) {
            Some(s) => s,
            None => {
                return None;
            },
        };
        if size > usize::MAX - 8 {
            return None;
        }
        bi = bi + 1;
    }
    Some(size)
}

/// Whether a shader can be encoded: it has one function, the function
/// fits the address space, and every instruction of it can be encoded
/// where the layout puts it.
pub fn can_encode_shader(sm: &ShaderModel50, s: &Shader) -> (r: bool)
    ensures
        r == (s.functions@.len() == 1 && function_bytes(s.functions@[0].blocks@) + 8 <= usize::MAX
            && function_can_encode(s.functions@[0].blocks@, sm.sm)),
{
    if s.functions.len() != 1 {
        return false;
    }
    let blocks = &s.functions[0].blocks;
    if function_size(blocks).is_none() {
        return false;
    }
    let labels = compute_labels(blocks);
    let n: usize = blocks.len();
    let mut start: usize = 0;
    let mut bi: usize = 0;
    while bi < n
        invariant
            bi <= n,
            n == blocks@.len(),
            s.functions@.len() == 1,
            *blocks == s.functions@[0].blocks,
            labels@ == label_table(blocks@, blocks@.len()),
            function_bytes(blocks@) + 8 <= usize::MAX,
            start == block_start(blocks@, bi as nat),
            forall|b: int, i: int|
                0 <= b < bi && 0 <= i < blocks@[b].instrs@.len() ==> instr_can_encode(
                    #[trigger] blocks@[b].instrs@[i],
                    sm.sm,
                    slot_ip(block_start(blocks@, b as nat), i as nat) as usize,
                    label_table(blocks@, blocks@.len()),
                ),
        decreases n - bi,
    {
        proof {
            lemma_block_start_monotone(blocks@, (bi + 1) as nat, n as nat);
        }
        let b = &blocks[bi];
        let len: usize = b.instrs.len();
        let groups: usize = groups_of(len);
        let mut i: usize = 0;
        while i < len
            invariant
                i <= len,
                bi < n,
                n == blocks@.len(),
                s.functions@.len() == 1,
                *blocks == s.functions@[0].blocks,
                function_bytes(blocks@) + 8 <= usize::MAX,
                *b == blocks@[bi as int],
                len == b.instrs@.len(),
                groups == num_groups(len as nat),
                labels@ == label_table(blocks@, blocks@.len()),
                start == block_start(blocks@, bi as nat),
                start + groups * 32 + 8 <= usize::MAX,
                forall|j: int|
                    0 <= j < i ==> instr_can_encode(
                        #[trigger] blocks@[bi as int].instrs@[j],
                        sm.sm,
                        slot_ip(start as nat, j as nat) as usize,
                        label_table(blocks@, blocks@.len()),
                    ),
            decreases len - i,
        {
            let ip: usize = start + (i / 3) * 32 + 8 + (i % 3) * 8;
            if !instr_encodable(&b.instrs[i], sm, &labels, ip) {
                proof {
                    let bad = blocks@[bi as int].instrs@[i as int];
                    if function_can_encode(blocks@, sm.sm) {
                        assert(instr_can_encode(
                            bad,
                            sm.sm,
                            slot_ip(block_start(blocks@, bi as nat), i as nat) as usize,
                            label_table(blocks@, blocks@.len()),
                        ));
                    }
                }
                return false;
            }
            i = i + 1;
        }
        start = start + groups * 32;
        bi = bi + 1;
    }
    true
}

/// Whether no two blocks share a label.
pub fn check_labels_distinct(blocks: &Vec<BasicBlock>) -> (r: bool)
    ensures
        r == labels_distinct(blocks@, blocks@.len()),
{
    let n: usize = blocks.len();
    let mut j: usize = 0;
    while j < n
        invariant
            j <= n,
            n == blocks@.len(),
            labels_distinct(blocks@, j as nat),
        decreases n - j,
    {
        let mut i: usize = 0;
        while i < j
            invariant
                i <= j < n,
                n == blocks@.len(),
                labels_distinct(blocks@, j as nat),
                forall|k: int| 0 <= k < i ==> (#[trigger] blocks@[k]).label.idx != blocks@[j as int].label.idx,
            decreases j - i,
        {
            if blocks[i].label.idx == blocks[j].label.idx {
                return false;
            }
            i = i + 1;
        }
        j = j + 1;
    }
    true
}

/// Builds the table of label addresses of a function.
pub fn compute_labels(blocks: &Vec<BasicBlock>) -> (labels: HashMap<u32, usize>)
    requires
        function_bytes(blocks@) + 8 <= usize::MAX,
    ensures
        labels@ == label_table(blocks@, blocks@.len()),
{
    let n: usize = blocks.len();
    let mut num_instrs: usize = 0;
    let mut labels: HashMap<u32, usize> = HashMap::new();
    let mut bi: usize = 0;
    while bi < n
        invariant
            bi <= n,
            n == blocks@.len(),
            labels@ == label_table(blocks@, bi as nat),
            num_instrs == block_start(blocks@, bi as nat),
            function_bytes(blocks@) + 8 <= usize::MAX,
        decreases n - bi,
    {
        proof {
            lemma_block_start_monotone(blocks@, bi as nat, n as nat);
            lemma_block_start_monotone(blocks@, (bi + 1) as nat, n as nat);
        }
        let b = &blocks[bi];
        // A jump never lands on a scheduling word, so the label names the
        // instruction past the one that leads the block.
        labels.insert(b.label.idx, num_instrs + 8);
        let groups: usize = groups_of(b.instrs.len());
        num_instrs = num_instrs + groups * 32;
        bi = bi + 1;
    }
    labels
}

/// The three slots of group `g` lie 8 bytes apart, past the group's
/// scheduling word.
pub proof fn lemma_slot_ip(start: nat, g: nat)
    ensures
        slot_ip(start, 3 * g) == start + g * 32 + 8,
        slot_ip(start, 3 * g + 1) == start + g * 32 + 16,
        slot_ip(start, 3 * g + 2) == start + g * 32 + 24,
{
}

/// Encodes group `g` of a block and appends its eight words to the
/// stream.  The address of the group follows from the length of the
/// stream so far.
pub fn encode_group(
    sm: &ShaderModel50,
    labels: &HashMap<u32, usize>,
    instrs: &Vec<Instr>,
    g: usize,
    encoded: &mut Vec<u32>,
)
    requires
        old(encoded)@.len() % 8 == 0,
        old(encoded)@.len() * 4 + 32 <= usize::MAX,
        g * 8 <= old(encoded)@.len(),
        3 * g + 2 <= usize::MAX,
        3 * g < instrs@.len() ==> instr_can_encode(
            instrs@[3 * g],
            sm.sm,
            (old(encoded)@.len() * 4 + 8) as usize,
            labels@,
        ),
        3 * g + 1 < instrs@.len() ==> instr_can_encode(
            instrs@[3 * g + 1],
            sm.sm,
            (old(encoded)@.len() * 4 + 16) as usize,
            labels@,
        ),
        3 * g + 2 < instrs@.len() ==> instr_can_encode(
            instrs@[3 * g + 2],
            sm.sm,
            (old(encoded)@.len() * 4 + 24) as usize,
            labels@,
        ),
    ensures
        final(encoded)@ == old(encoded)@ + group_words(
            instrs@,
            g as nat,
            (old(encoded)@.len() * 4 - g * 32) as nat,
            sm.sm,
            labels@,
        ),
{
    let len: usize = instrs.len();
    let mut ip: usize = ((encoded.len() / 2) + 1) * 8;
    let mut sched_instr: [u32; 2] = [0, 0];
    proof {
        assert(join_words(0, 0) == 0) by (bit_vector);
        lemma_mask_values();
    }
    let k0: usize = 3 * g;
    let instr0 = encode_instr(
        0,
        if k0 < len {
            Some(&instrs[k0])
        } else {
            None
        },
        sm,
        labels,
        &mut ip,
        &mut sched_instr,
    );
    let k1: usize = 3 * g + 1;
    let instr1 = encode_instr(
        1,
        if k1 < len {
            Some(&instrs[k1])
        } else {
            None
        },
        sm,
        labels,
        &mut ip,
        &mut sched_instr,
    );
    let k2: usize = 3 * g + 2;
    let instr2 = encode_instr(
        2,
        if k2 < len {
            Some(&instrs[k2])
        } else {
            None
        },
        sm,
        labels,
        &mut ip,
        &mut sched_instr,
    );
    proof {
        lemma_split_join(sched_instr[0], sched_instr[1]);
    }
    let ghost prev = encoded@;
    encoded.push(sched_instr[0]);
    encoded.push(sched_instr[1]);
    encoded.push(instr0[0]);
    encoded.push(instr0[1]);
    encoded.push(instr1[0]);
    encoded.push(instr1[1]);
    encoded.push(instr2[0]);
    encoded.push(instr2[1]);
    assert(encoded@ =~= prev + group_words(
        instrs@,
        g as nat,
        (prev.len() * 4 - g * 32) as nat,
        sm.sm,
        labels@,
    ));
}

/// Encodes the blocks of a function into one linear stream of 32-bit
/// words.  Each block is padded with no-ops to whole groups of three;
/// each group is emitted as its scheduling word followed by its three
/// instructions.
pub fn encode_sm50_shader(sm: &ShaderModel50, s: &Shader) -> (encoded: Vec<u32>)
    requires
        s.functions@.len() == 1,
        function_bytes(s.functions@[0].blocks@) + 8 <= usize::MAX,
        function_can_encode(s.functions@[0].blocks@, sm.sm),
    ensures
        encoded@ == function_words(s.functions@[0].blocks@, sm.sm),
        encoded@.len() * 4 == function_bytes(s.functions@[0].blocks@),
{
    let func = &s.functions[0];
    let blocks = &func.blocks;
    let n: usize = blocks.len();
    let labels = compute_labels(blocks);
    let ghost table = label_table(blocks@, blocks@.len());

    let mut encoded: Vec<u32> = Vec::new();
    let mut bi: usize = 0;
    while bi < n
        invariant
            bi <= n,
            n == blocks@.len(),
            labels@ == table,
            table == label_table(blocks@, blocks@.len()),
            function_bytes(blocks@) + 8 <= usize::MAX,
            function_can_encode(blocks@, sm.sm),
            encoded@ == blocks_words(blocks@, bi as nat, sm.sm, table),
            encoded@.len() == 8 * groups_before(blocks@, bi as nat),
        decreases n - bi,
    {
        proof {
            lemma_block_start_monotone(blocks@, (bi + 1) as nat, n as nat);
        }
        let b = &blocks[bi];
        let len: usize = b.instrs.len();
        let groups: usize = groups_of(len);
        let ghost start = block_start(blocks@, bi as nat);
        let ghost before = encoded@;
        let mut g: usize = 0;
        while g < groups
            invariant
                g <= groups,
                bi < n,
                n == blocks@.len(),
                *b == blocks@[bi as int],
                len == b.instrs@.len(),
                groups == num_groups(len as nat),
                labels@ == table,
                table == label_table(blocks@, blocks@.len()),
                start == block_start(blocks@, bi as nat),
                start + groups * 32 + 8 <= usize::MAX,
                function_can_encode(blocks@, sm.sm),
                encoded@ == before + block_words(b.instrs@, g as nat, start, sm.sm, table),
                encoded@.len() == 8 * (groups_before(blocks@, bi as nat) + g),
            decreases groups - g,
        {
            proof {
                lemma_slot_ip(start, g as nat);
            }
            encode_group(sm, &labels, &b.instrs, g, &mut encoded);
            assert(encoded@ =~= before + block_words(
                b.instrs@,
                (g + 1) as nat,
                start,
                sm.sm,
                table,
            ));
            g = g + 1;
        }
        bi = bi + 1;
    }
    proof {
        lemma_blocks_words_len(blocks@, n as nat, sm.sm, table);
    }
    encoded
}

/// The operation belongs to this family and is in a form that
/// legalization takes.
pub open spec fn op_can_legalize(op: Op, b: BuilderState) -> bool {
    match op {
        Op::FAdd(o) => o.can_legalize(b),
        Op::FFma(o) => o.can_legalize(b),
        Op::FMnMx(o) => o.can_legalize(b),
        Op::FMul(o) => o.can_legalize(b),
        Op::Rro(o) => o.can_legalize(b),
        Op::MuFu(o) => o.can_legalize(b),
        Op::FSet(o) => o.can_legalize(b),
        Op::FSetP(o) => o.can_legalize(b),
        Op::FSwzAdd(o) => o.can_legalize(b),
        Op::DAdd(o) => o.can_legalize(b),
        Op::DFma(o) => o.can_legalize(b),
        Op::DMnMx(o) => o.can_legalize(b),
        Op::DMul(o) => o.can_legalize(b),
        Op::DSetP(o) => o.can_legalize(b),
        Op::Bfe(o) => o.can_legalize(b),
        Op::Flo(o) => o.can_legalize(b),
        Op::IAdd2(o) => o.can_legalize(b),
        Op::IMad(o) => o.can_legalize(b),
        Op::IMul(o) => o.can_legalize(b),
        Op::IMnMx(o) => o.can_legalize(b),
        Op::ISetP(o) => o.can_legalize(b),
        Op::Lop2(o) => o.can_legalize(b),
        Op::PopC(o) => o.can_legalize(b),
        Op::Shf(o) => o.can_legalize(b),
        Op::Shl(o) => o.can_legalize(b),
        Op::Shr(o) => o.can_legalize(b),
        Op::F2F(o) => o.can_legalize(b),
        Op::F2I(o) => o.can_legalize(b),
        Op::I2F(o) => o.can_legalize(b),
        Op::I2I(o) => o.can_legalize(b),
        Op::Mov(o) => o.can_legalize(b),
        Op::Prmt(o) => o.can_legalize(b),
        Op::Sel(o) => o.can_legalize(b),
        Op::Shfl(o) => o.can_legalize(b),
        Op::PSetP(o) => o.can_legalize(b),
        Op::Tex(o) => o.can_legalize(b),
        Op::Tld(o) => o.can_legalize(b),
        Op::Tld4(o) => o.can_legalize(b),
        Op::Tmml(o) => o.can_legalize(b),
        Op::Txd(o) => o.can_legalize(b),
        Op::Txq(o) => o.can_legalize(b),
        Op::SuLd(o) => o.can_legalize(b),
        Op::SuSt(o) => o.can_legalize(b),
        Op::SuAtom(o) => o.can_legalize(b),
        Op::Ld(o) => o.can_legalize(b),
        Op::Ldc(o) => o.can_legalize(b),
        Op::St(o) => o.can_legalize(b),
        Op::Atom(o) => o.can_legalize(b),
        Op::ALd(o) => o.can_legalize(b),
        Op::ASt(o) => o.can_legalize(b),
        Op::Ipa(o) => o.can_legalize(b),
        Op::MemBar(o) => o.can_legalize(b),
        Op::Bra(o) => o.can_legalize(b),
        Op::Exit(o) => o.can_legalize(b),
        Op::Bar(o) => o.can_legalize(b),
        Op::CS2R(o) => o.can_legalize(b),
        Op::Isberd(o) => o.can_legalize(b),
        Op::Kill(o) => o.can_legalize(b),
        Op::Nop(o) => o.can_legalize(b),
        Op::S2R(o) => o.can_legalize(b),
        Op::Vote(o) => o.can_legalize(b),
        Op::Out(o) => o.can_legalize(b),
        Op::Copy(_) => false,
    }
}

/// Any operation and the builder after legalization.
pub open spec fn op_legalized(op: Op, b: BuilderState) -> (Op, BuilderState) {
    match op {
        Op::FAdd(o) => (Op::FAdd(o.legalized(b).0), o.legalized(b).1),
        Op::FFma(o) => (Op::FFma(o.legalized(b).0), o.legalized(b).1),
        Op::FMnMx(o) => (Op::FMnMx(o.legalized(b).0), o.legalized(b).1),
        Op::FMul(o) => (Op::FMul(o.legalized(b).0), o.legalized(b).1),
        Op::Rro(o) => (Op::Rro(o.legalized(b).0), o.legalized(b).1),
        Op::MuFu(o) => (Op::MuFu(o.legalized(b).0), o.legalized(b).1),
        Op::FSet(o) => (Op::FSet(o.legalized(b).0), o.legalized(b).1),
        Op::FSetP(o) => (Op::FSetP(o.legalized(b).0), o.legalized(b).1),
        Op::FSwzAdd(o) => (Op::FSwzAdd(o.legalized(b).0), o.legalized(b).1),
        Op::DAdd(o) => (Op::DAdd(o.legalized(b).0), o.legalized(b).1),
        Op::DFma(o) => (Op::DFma(o.legalized(b).0), o.legalized(b).1),
        Op::DMnMx(o) => (Op::DMnMx(o.legalized(b).0), o.legalized(b).1),
        Op::DMul(o) => (Op::DMul(o.legalized(b).0), o.legalized(b).1),
        Op::DSetP(o) => (Op::DSetP(o.legalized(b).0), o.legalized(b).1),
        Op::Bfe(o) => (Op::Bfe(o.legalized(b).0), o.legalized(b).1),
        Op::Flo(o) => (Op::Flo(o.legalized(b).0), o.legalized(b).1),
        Op::IAdd2(o) => (Op::IAdd2(o.legalized(b).0), o.legalized(b).1),
        Op::IMad(o) => (Op::IMad(o.legalized(b).0), o.legalized(b).1),
        Op::IMul(o) => (Op::IMul(o.legalized(b).0), o.legalized(b).1),
        Op::IMnMx(o) => (Op::IMnMx(o.legalized(b).0), o.legalized(b).1),
        Op::ISetP(o) => (Op::ISetP(o.legalized(b).0), o.legalized(b).1),
        Op::Lop2(o) => (Op::Lop2(o.legalized(b).0), o.legalized(b).1),
        Op::PopC(o) => (Op::PopC(o.legalized(b).0), o.legalized(b).1),
        Op::Shf(o) => (Op::Shf(o.legalized(b).0), o.legalized(b).1),
        Op::Shl(o) => (Op::Shl(o.legalized(b).0), o.legalized(b).1),
        Op::Shr(o) => (Op::Shr(o.legalized(b).0), o.legalized(b).1),
        Op::F2F(o) => (Op::F2F(o.legalized(b).0), o.legalized(b).1),
        Op::F2I(o) => (Op::F2I(o.legalized(b).0), o.legalized(b).1),
        Op::I2F(o) => (Op::I2F(o.legalized(b).0), o.legalized(b).1),
        Op::I2I(o) => (Op::I2I(o.legalized(b).0), o.legalized(b).1),
        Op::Mov(o) => (Op::Mov(o.legalized(b).0), o.legalized(b).1),
        Op::Prmt(o) => (Op::Prmt(o.legalized(b).0), o.legalized(b).1),
        Op::Sel(o) => (Op::Sel(o.legalized(b).0), o.legalized(b).1),
        Op::Shfl(o) => (Op::Shfl(o.legalized(b).0), o.legalized(b).1),
        Op::PSetP(o) => (Op::PSetP(o.legalized(b).0), o.legalized(b).1),
        Op::Tex(o) => (Op::Tex(o.legalized(b).0), o.legalized(b).1),
        Op::Tld(o) => (Op::Tld(o.legalized(b).0), o.legalized(b).1),
        Op::Tld4(o) => (Op::Tld4(o.legalized(b).0), o.legalized(b).1),
        Op::Tmml(o) => (Op::Tmml(o.legalized(b).0), o.legalized(b).1),
        Op::Txd(o) => (Op::Txd(o.legalized(b).0), o.legalized(b).1),
        Op::Txq(o) => (Op::Txq(o.legalized(b).0), o.legalized(b).1),
        Op::SuLd(o) => (Op::SuLd(o.legalized(b).0), o.legalized(b).1),
        Op::SuSt(o) => (Op::SuSt(o.legalized(b).0), o.legalized(b).1),
        Op::SuAtom(o) => (Op::SuAtom(o.legalized(b).0), o.legalized(b).1),
        Op::Ld(o) => (Op::Ld(o.legalized(b).0), o.legalized(b).1),
        Op::Ldc(o) => (Op::Ldc(o.legalized(b).0), o.legalized(b).1),
        Op::St(o) => (Op::St(o.legalized(b).0), o.legalized(b).1),
        Op::Atom(o) => (Op::Atom(o.legalized(b).0), o.legalized(b).1),
        Op::ALd(o) => (Op::ALd(o.legalized(b).0), o.legalized(b).1),
        Op::ASt(o) => (Op::ASt(o.legalized(b).0), o.legalized(b).1),
        Op::Ipa(o) => (Op::Ipa(o.legalized(b).0), o.legalized(b).1),
        Op::MemBar(o) => (Op::MemBar(o.legalized(b).0), o.legalized(b).1),
        Op::Bra(o) => (Op::Bra(o.legalized(b).0), o.legalized(b).1),
        Op::Exit(o) => (Op::Exit(o.legalized(b).0), o.legalized(b).1),
        Op::Bar(o) => (Op::Bar(o.legalized(b).0), o.legalized(b).1),
        Op::CS2R(o) => (Op::CS2R(o.legalized(b).0), o.legalized(b).1),
        Op::Isberd(o) => (Op::Isberd(o.legalized(b).0), o.legalized(b).1),
        Op::Kill(o) => (Op::Kill(o.legalized(b).0), o.legalized(b).1),
        Op::Nop(o) => (Op::Nop(o.legalized(b).0), o.legalized(b).1),
        Op::S2R(o) => (Op::S2R(o.legalized(b).0), o.legalized(b).1),
        Op::Vote(o) => (Op::Vote(o.legalized(b).0), o.legalized(b).1),
        Op::Out(o) => (Op::Out(o.legalized(b).0), o.legalized(b).1),
        Op::Copy(_) => (op, b),
    }
}

/// Any operation has the shape that legalization establishes.
pub open spec fn op_is_legal(op: Op) -> bool {
    match op {
        Op::FAdd(o) => o.is_legal(),
        Op::FFma(o) => o.is_legal(),
        Op::FMnMx(o) => o.is_legal(),
        Op::FMul(o) => o.is_legal(),
        Op::Rro(o) => o.is_legal(),
        Op::MuFu(o) => o.is_legal(),
        Op::FSet(o) => o.is_legal(),
        Op::FSetP(o) => o.is_legal(),
        Op::FSwzAdd(o) => o.is_legal(),
        Op::DAdd(o) => o.is_legal(),
        Op::DFma(o) => o.is_legal(),
        Op::DMnMx(o) => o.is_legal(),
        Op::DMul(o) => o.is_legal(),
        Op::DSetP(o) => o.is_legal(),
        Op::Bfe(o) => o.is_legal(),
        Op::Flo(o) => o.is_legal(),
        Op::IAdd2(o) => o.is_legal(),
        Op::IMad(o) => o.is_legal(),
        Op::IMul(o) => o.is_legal(),
        Op::IMnMx(o) => o.is_legal(),
        Op::ISetP(o) => o.is_legal(),
        Op::Lop2(o) => o.is_legal(),
        Op::PopC(o) => o.is_legal(),
        Op::Shf(o) => o.is_legal(),
        Op::Shl(o) => o.is_legal(),
        Op::Shr(o) => o.is_legal(),
        Op::F2F(o) => o.is_legal(),
        Op::F2I(o) => o.is_legal(),
        Op::I2F(o) => o.is_legal(),
        Op::I2I(o) => o.is_legal(),
        Op::Mov(o) => o.is_legal(),
        Op::Prmt(o) => o.is_legal(),
        Op::Sel(o) => o.is_legal(),
        Op::Shfl(o) => o.is_legal(),
        Op::PSetP(o) => o.is_legal(),
        Op::Tex(o) => o.is_legal(),
        Op::Tld(o) => o.is_legal(),
        Op::Tld4(o) => o.is_legal(),
        Op::Tmml(o) => o.is_legal(),
        Op::Txd(o) => o.is_legal(),
        Op::Txq(o) => o.is_legal(),
        Op::SuLd(o) => o.is_legal(),
        Op::SuSt(o) => o.is_legal(),
        Op::SuAtom(o) => o.is_legal(),
        Op::Ld(o) => o.is_legal(),
        Op::Ldc(o) => o.is_legal(),
        Op::St(o) => o.is_legal(),
        Op::Atom(o) => o.is_legal(),
        Op::ALd(o) => o.is_legal(),
        Op::ASt(o) => o.is_legal(),
        Op::Ipa(o) => o.is_legal(),
        Op::MemBar(o) => o.is_legal(),
        Op::Bra(o) => o.is_legal(),
        Op::Exit(o) => o.is_legal(),
        Op::Bar(o) => o.is_legal(),
        Op::CS2R(o) => o.is_legal(),
        Op::Isberd(o) => o.is_legal(),
        Op::Kill(o) => o.is_legal(),
        Op::Nop(o) => o.is_legal(),
        Op::S2R(o) => o.is_legal(),
        Op::Vote(o) => o.is_legal(),
        Op::Out(o) => o.is_legal(),
        Op::Copy(_) => true,
    }
}

impl ShaderModel50 {
    /// No operation of this family runs on the uniform datapath: the
    /// family has none.
    pub fn op_can_be_uniform(&self, _op: &Op) -> (r: bool)
        ensures
            !r,
    {
        false
    }

    /// Whether an operation belongs to the family and is in a form
    /// that legalization takes.
    pub fn can_legalize_op(&self, b: &LegalizeBuilder, op: &Op) -> (r: bool)
        ensures
            r == op_can_legalize(*op, b@),
    {
        match op {
            Op::FAdd(o) => o.legalizable(b),
            Op::FFma(o) => o.legalizable(b),
            Op::FMnMx(o) => o.legalizable(b),
            Op::FMul(o) => o.legalizable(b),
            Op::Rro(o) => o.legalizable(b),
            Op::MuFu(o) => o.legalizable(b),
            Op::FSet(o) => o.legalizable(b),
            Op::FSetP(o) => o.legalizable(b),
            Op::FSwzAdd(o) => o.legalizable(b),
            Op::DAdd(o) => o.legalizable(b),
            Op::DFma(o) => o.legalizable(b),
            Op::DMnMx(o) => o.legalizable(b),
            Op::DMul(o) => o.legalizable(b),
            Op::DSetP(o) => o.legalizable(b),
            Op::Bfe(o) => o.legalizable(b),
            Op::Flo(o) => o.legalizable(b),
            Op::IAdd2(o) => o.legalizable(b),
            Op::IMad(o) => o.legalizable(b),
            Op::IMul(o) => o.legalizable(b),
            Op::IMnMx(o) => o.legalizable(b),
            Op::ISetP(o) => o.legalizable(b),
            Op::Lop2(o) => o.legalizable(b),
            Op::PopC(o) => o.legalizable(b),
            Op::Shf(o) => o.legalizable(b),
            Op::Shl(o) => o.legalizable(b),
            Op::Shr(o) => o.legalizable(b),
            Op::F2F(o) => o.legalizable(b),
            Op::F2I(o) => o.legalizable(b),
            Op::I2F(o) => o.legalizable(b),
            Op::I2I(o) => o.legalizable(b),
            Op::Mov(o) => o.legalizable(b),
            Op::Prmt(o) => o.legalizable(b),
            Op::Sel(o) => o.legalizable(b),
            Op::Shfl(o) => o.legalizable(b),
            Op::PSetP(o) => o.legalizable(b),
            Op::Tex(o) => o.legalizable(b),
            Op::Tld(o) => o.legalizable(b),
            Op::Tld4(o) => o.legalizable(b),
            Op::Tmml(o) => o.legalizable(b),
            Op::Txd(o) => o.legalizable(b),
            Op::Txq(o) => o.legalizable(b),
            Op::SuLd(o) => o.legalizable(b),
            Op::SuSt(o) => o.legalizable(b),
            Op::SuAtom(o) => o.legalizable(b),
            Op::Ld(o) => o.legalizable(b),
            Op::Ldc(o) => o.legalizable(b),
            Op::St(o) => o.legalizable(b),
            Op::Atom(o) => o.legalizable(b),
            Op::ALd(o) => o.legalizable(b),
            Op::ASt(o) => o.legalizable(b),
            Op::Ipa(o) => o.legalizable(b),
            Op::MemBar(o) => o.legalizable(b),
            Op::Bra(o) => o.legalizable(b),
            Op::Exit(o) => o.legalizable(b),
            Op::Bar(o) => o.legalizable(b),
            Op::CS2R(o) => o.legalizable(b),
            Op::Isberd(o) => o.legalizable(b),
            Op::Kill(o) => o.legalizable(b),
            Op::Nop(o) => o.legalizable(b),
            Op::S2R(o) => o.legalizable(b),
            Op::Vote(o) => o.legalizable(b),
            Op::Out(o) => o.legalizable(b),
            Op::Copy(_) => false,
        }
    }

    /// Whether a shader can be encoded for this model.
    pub fn can_encode_shader(&self, s: &Shader) -> (r: bool)
        ensures
            r == (s.functions@.len() == 1 && function_bytes(s.functions@[0].blocks@) + 8
                <= usize::MAX && function_can_encode(s.functions@[0].blocks@, self.sm)),
    {
        can_encode_shader(self, s)
    }

    /// Legalizes any operation of the family.
    #[verifier::rlimit(50)]
    pub fn legalize_op(&self, b: &mut LegalizeBuilder, op: &mut Op)
        requires
            op_can_legalize(*old(op), old(b)@),
        ensures
            (*final(op), final(b)@) == op_legalized(*old(op), old(b)@),
            op_is_legal(*final(op)),
    {
        match *op {
            Op::FAdd(mut o) => {
                o.legalize(b);
                *op = Op::FAdd(o);
            },
            Op::FFma(mut o) => {
                o.legalize(b);
                *op = Op::FFma(o);
            },
            Op::FMnMx(mut o) => {
                o.legalize(b);
                *op = Op::FMnMx(o);
            },
            Op::FMul(mut o) => {
                o.legalize(b);
                *op = Op::FMul(o);
            },
            Op::Rro(mut o) => {
                o.legalize(b);
                *op = Op::Rro(o);
            },
            Op::MuFu(mut o) => {
                o.legalize(b);
                *op = Op::MuFu(o);
            },
            Op::FSet(mut o) => {
                o.legalize(b);
                *op = Op::FSet(o);
            },
            Op::FSetP(mut o) => {
                o.legalize(b);
                *op = Op::FSetP(o);
            },
            Op::FSwzAdd(mut o) => {
                o.legalize(b);
                *op = Op::FSwzAdd(o);
            },
            Op::DAdd(mut o) => {
                o.legalize(b);
                *op = Op::DAdd(o);
            },
            Op::DFma(mut o) => {
                o.legalize(b);
                *op = Op::DFma(o);
            },
            Op::DMnMx(mut o) => {
                o.legalize(b);
                *op = Op::DMnMx(o);
            },
            Op::DMul(mut o) => {
                o.legalize(b);
                *op = Op::DMul(o);
            },
            Op::DSetP(mut o) => {
                o.legalize(b);
                *op = Op::DSetP(o);
            },
            Op::Bfe(mut o) => {
                o.legalize(b);
                *op = Op::Bfe(o);
            },
            Op::Flo(mut o) => {
                o.legalize(b);
                *op = Op::Flo(o);
            },
            Op::IAdd2(mut o) => {
                o.legalize(b);
                *op = Op::IAdd2(o);
            },
            Op::IMad(mut o) => {
                o.legalize(b);
                *op = Op::IMad(o);
            },
            Op::IMul(mut o) => {
                o.legalize(b);
                *op = Op::IMul(o);
            },
            Op::IMnMx(mut o) => {
                o.legalize(b);
                *op = Op::IMnMx(o);
            },
            Op::ISetP(mut o) => {
                o.legalize(b);
                *op = Op::ISetP(o);
            },
            Op::Lop2(mut o) => {
                o.legalize(b);
                *op = Op::Lop2(o);
            },
            Op::PopC(mut o) => {
                o.legalize(b);
                *op = Op::PopC(o);
            },
            Op::Shf(mut o) => {
                o.legalize(b);
                *op = Op::Shf(o);
            },
            Op::Shl(mut o) => {
                o.legalize(b);
                *op = Op::Shl(o);
            },
            Op::Shr(mut o) => {
                o.legalize(b);
                *op = Op::Shr(o);
            },
            Op::F2F(mut o) => {
                o.legalize(b);
                *op = Op::F2F(o);
            },
            Op::F2I(mut o) => {
                o.legalize(b);
                *op = Op::F2I(o);
            },
            Op::I2F(mut o) => {
                o.legalize(b);
                *op = Op::I2F(o);
            },
            Op::I2I(mut o) => {
                o.legalize(b);
                *op = Op::I2I(o);
            },
            Op::Mov(mut o) => {
                o.legalize(b);
                *op = Op::Mov(o);
            },
            Op::Prmt(mut o) => {
                o.legalize(b);
                *op = Op::Prmt(o);
            },
            Op::Sel(mut o) => {
                o.legalize(b);
                *op = Op::Sel(o);
            },
            Op::Shfl(mut o) => {
                o.legalize(b);
                *op = Op::Shfl(o);
            },
            Op::PSetP(mut o) => {
                o.legalize(b);
                *op = Op::PSetP(o);
            },
            Op::Tex(mut o) => {
                o.legalize(b);
                *op = Op::Tex(o);
            },
            Op::Tld(mut o) => {
                o.legalize(b);
                *op = Op::Tld(o);
            },
            Op::Tld4(mut o) => {
                o.legalize(b);
                *op = Op::Tld4(o);
            },
            Op::Tmml(mut o) => {
                o.legalize(b);
                *op = Op::Tmml(o);
            },
            Op::Txd(mut o) => {
                o.legalize(b);
                *op = Op::Txd(o);
            },
            Op::Txq(mut o) => {
                o.legalize(b);
                *op = Op::Txq(o);
            },
            Op::SuLd(mut o) => {
                o.legalize(b);
                *op = Op::SuLd(o);
            },
            Op::SuSt(mut o) => {
                o.legalize(b);
                *op = Op::SuSt(o);
            },
            Op::SuAtom(mut o) => {
                o.legalize(b);
                *op = Op::SuAtom(o);
            },
            Op::Ld(mut o) => {
                o.legalize(b);
                *op = Op::Ld(o);
            },
            Op::Ldc(mut o) => {
                o.legalize(b);
                *op = Op::Ldc(o);
            },
            Op::St(mut o) => {
                o.legalize(b);
                *op = Op::St(o);
            },
            Op::Atom(mut o) => {
                o.legalize(b);
                *op = Op::Atom(o);
            },
            Op::ALd(mut o) => {
                o.legalize(b);
                *op = Op::ALd(o);
            },
            Op::ASt(mut o) => {
                o.legalize(b);
                *op = Op::ASt(o);
            },
            Op::Ipa(mut o) => {
                o.legalize(b);
                *op = Op::Ipa(o);
            },
            Op::MemBar(mut o) => {
                o.legalize(b);
                *op = Op::MemBar(o);
            },
            Op::Bra(mut o) => {
                o.legalize(b);
                *op = Op::Bra(o);
            },
            Op::Exit(mut o) => {
                o.legalize(b);
                *op = Op::Exit(o);
            },
            Op::Bar(mut o) => {
                o.legalize(b);
                *op = Op::Bar(o);
            },
            Op::CS2R(mut o) => {
                o.legalize(b);
                *op = Op::CS2R(o);
            },
            Op::Isberd(mut o) => {
                o.legalize(b);
                *op = Op::Isberd(o);
            },
            Op::Kill(mut o) => {
                o.legalize(b);
                *op = Op::Kill(o);
            },
            Op::Nop(mut o) => {
                o.legalize(b);
                *op = Op::Nop(o);
            },
            Op::S2R(mut o) => {
                o.legalize(b);
                *op = Op::S2R(o);
            },
            Op::Vote(mut o) => {
                o.legalize(b);
                *op = Op::Vote(o);
            },
            Op::Out(mut o) => {
                o.legalize(b);
                *op = Op::Out(o);
            },
            Op::Copy(_) => {},
        }
    }

    /// Encodes a shader of one function into the stream of words that
    /// the hardware fetches.
    pub fn encode_shader(&self, s: &Shader) -> (encoded: Vec<u32>)
        requires
            s.functions@.len() == 1,
            function_bytes(s.functions@[0].blocks@) + 8 <= usize::MAX,
            function_can_encode(s.functions@[0].blocks@, self.sm),
        ensures
            encoded@ == function_words(s.functions@[0].blocks@, self.sm),
            encoded@.len() * 4 == function_bytes(s.functions@[0].blocks@),
    {
        encode_sm50_shader(self, s)
    }
}

} // verus!
