//! The tools of operand legalization: a builder that collects the
//! instructions a rewrite emits, and the rewrites that move a source
//! into a fresh register.
//!
//! Legalization runs on SSA form, before registers are assigned: a
//! source "is a register" when it reads zero, a constant predicate, or
//! an SSA value of the wanted file.

use crate::ir::{CBufRef, Dst, RegFile, Src, SrcMod, SrcRef, SrcType, SSA_MAX_IDX, SSARef, SSAValue};
use crate::ops::{FRndMode, Instr, Op, OpCopy, OpDAdd, OpFAdd};
use vstd::prelude::*;

verus! {

/// What a builder holds, as plain values.
pub struct BuilderState {
    /// The number of SSA values handed out so far.
    pub ssa_count: u32,
    /// The instructions emitted so far, in order.
    pub instrs: Seq<Instr>,
}

/// Collects the instructions that legalizing one instruction emits in
/// front of it, and hands out fresh SSA values for their results.
pub struct LegalizeBuilder {
    pub ssa_count: u32,
    pub instrs: Vec<Instr>,
}

impl View for LegalizeBuilder {
    type V = BuilderState;

    open spec fn view(&self) -> BuilderState {
        BuilderState { ssa_count: self.ssa_count, instrs: self.instrs@ }
    }
}

impl BuilderState {
    /// The allocator has `n` more values to hand out.
    pub open spec fn has_room(self, n: nat) -> bool {
        self.ssa_count + n <= SSA_MAX_IDX
    }

    /// The state after `op` is emitted as an unguarded instruction.
    pub open spec fn push(self, op: Op) -> BuilderState {
        BuilderState { ssa_count: self.ssa_count, instrs: self.instrs.push(Instr::of_op(op)) }
    }

    /// The state after `comps` values are handed out.
    pub open spec fn take(self, comps: u8) -> BuilderState {
        BuilderState { ssa_count: (self.ssa_count + comps) as u32, instrs: self.instrs }
    }

    /// The `i`-th value that the allocator hands out next, in `file`.
    pub open spec fn next_value(self, file: RegFile, i: nat) -> SSAValue {
        SSAValue { file, idx: (self.ssa_count + 1 + i) as u32 }
    }

    /// The `i`-th entry of the vector of the next `comps` values.
    pub open spec fn next_entry(self, file: RegFile, comps: u8, i: nat) -> SSAValue {
        if i < comps {
            self.next_value(file, i)
        } else {
            SSAValue::none()
        }
    }

    /// The vector of the next `comps` values, one to four, in `file`.
    pub open spec fn next_ref(self, file: RegFile, comps: u8) -> SSARef {
        SSARef {
            vals: [
                self.next_entry(file, comps, 0),
                self.next_entry(file, comps, 1),
                self.next_entry(file, comps, 2),
                self.next_entry(file, comps, 3),
            ],
            comps,
        }
    }
}

/// The source is in SSA form: it names no assigned register.
pub open spec fn in_ssa_form(src: Src) -> bool {
    !(src.src_ref is Reg)
}

/// The source is in SSA form, and a vector it reads is well-formed.
pub open spec fn src_ready(src: Src) -> bool {
    in_ssa_form(src) && (src.src_ref matches SrcRef::SSA(ssa) ==> ssa.wf())
}

/// The source needs no register of `reg_file` made for it: it reads
/// zero or a constant predicate, or an SSA vector that lies in the
/// file.
pub open spec fn src_is_reg_spec(src: Src, reg_file: RegFile) -> bool {
    match src.src_ref {
        SrcRef::Zero | SrcRef::True | SrcRef::False => true,
        SrcRef::SSA(ssa) => ssa.file_spec() == Some(reg_file),
        _ => false,
    }
}

/// The sources `(x, y)` after the exchange that puts a register first:
/// they change places if `y` is a register and `x` is not.
pub open spec fn swapped(x: Src, y: Src, reg_file: RegFile) -> bool {
    !src_is_reg_spec(x, reg_file) && src_is_reg_spec(y, reg_file)
}

/// The number of 32-bit components of a value of a source type.
pub open spec fn src_type_comps(src_type: SrcType) -> u8 {
    if src_type == SrcType::F64 {
        2
    } else {
        1
    }
}

/// The source can be copied into a register as a value of `src_type`:
/// the type is one of data, and a 64-bit value is an immediate, a
/// constant buffer with 8 bytes in reach, or a vector of two.
pub open spec fn copy_ok(src: Src, src_type: SrcType) -> bool {
    &&& src_type != SrcType::SSA
    &&& src_type != SrcType::Bar
    &&& src_type == SrcType::F64 ==> match src.src_ref {
        SrcRef::Imm32(_) => true,
        SrcRef::CBuf(cb) => cb.offset + 4 <= u16::MAX,
        SrcRef::SSA(ssa) => ssa.comps == 2,
        _ => false,
    }
}

/// The copy of one component into the value `val`.
pub open spec fn copy_op(val: SSAValue, src: Src) -> Op {
    Op::Copy(OpCopy { dst: Dst::SSA(SSARef::single(val)), src })
}

pub open spec fn plain(src_ref: SrcRef) -> Src {
    Src { src_ref, src_mod: SrcMod::Plain }
}

pub open spec fn imm_src(u: u32) -> Src {
    plain(
        if u == 0 {
            SrcRef::Zero
        } else {
            SrcRef::Imm32(u)
        },
    )
}

/// The builder and the source after the source is copied into fresh
/// values of `reg_file`.  A 32-bit value takes one copy.  A 64-bit
/// value takes two: an immediate goes to the high half over a zero low
/// half, a constant buffer is read at the offset and 4 bytes on, a
/// vector is copied by component.  The source keeps its modifier and
/// now reads the fresh values.
pub open spec fn copy_alu_src_spec(
    b: BuilderState,
    src: Src,
    reg_file: RegFile,
    src_type: SrcType,
) -> (BuilderState, Src) {
    let comps = src_type_comps(src_type);
    let val = b.next_ref(reg_file, comps);
    let b1 = b.take(comps);
    let b2 = if comps == 1 {
        b1.push(copy_op(val.vals[0], plain(src.src_ref)))
    } else {
        match src.src_ref {
            SrcRef::Imm32(u) => b1.push(copy_op(val.vals[0], imm_src(0))).push(
                copy_op(val.vals[1], imm_src(u)),
            ),
            SrcRef::CBuf(cb) => b1.push(copy_op(val.vals[0], plain(SrcRef::CBuf(cb)))).push(
                copy_op(
                    val.vals[1],
                    plain(
                        SrcRef::CBuf(CBufRef { buf: cb.buf, offset: (cb.offset + 4) as u16 }),
                    ),
                ),
            ),
            SrcRef::SSA(vec) => b1.push(
                copy_op(val.vals[0], plain(SrcRef::SSA(SSARef::single(vec.vals[0])))),
            ).push(copy_op(val.vals[1], plain(SrcRef::SSA(SSARef::single(vec.vals[1]))))),
            _ => b1,
        }
    };
    (b2, Src { src_ref: SrcRef::SSA(val), src_mod: src.src_mod })
}

/// As `copy_alu_src_spec` where `cond` holds, else nothing changes.
pub open spec fn copy_if(
    cond: bool,
    b: BuilderState,
    src: Src,
    reg_file: RegFile,
    src_type: SrcType,
) -> (BuilderState, Src) {
    if cond {
        copy_alu_src_spec(b, src, reg_file, src_type)
    } else {
        (b, src)
    }
}

/// The builder and the source after a float modifier is computed into
/// a fresh register: an add of negative zero and the modified source
/// yields the modified value, and the source becomes that register,
/// unmodified.
pub open spec fn lower_fmod_spec(b: BuilderState, src: Src, src_type: SrcType) -> (
    BuilderState,
    Src,
) {
    let comps = src_type_comps(src_type);
    let val = b.next_ref(RegFile::GPR, comps);
    let neg_zero = Src { src_ref: SrcRef::Zero, src_mod: SrcMod::FNeg };
    let op = if src_type == SrcType::F64 {
        Op::DAdd(
            OpDAdd { dst: Dst::SSA(val), srcs: [neg_zero, src], rnd_mode: FRndMode::NearestEven },
        )
    } else {
        Op::FAdd(
            OpFAdd {
                dst: Dst::SSA(val),
                srcs: [neg_zero, src],
                saturate: false,
                rnd_mode: FRndMode::NearestEven,
                ftz: false,
            },
        )
    };
    (b.take(comps).push(op), plain(SrcRef::SSA(val)))
}

/// A fresh vector lies in the file it was allocated in.
pub proof fn lemma_next_ref_file(b: BuilderState, file: RegFile, comps: u8)
    requires
        1 <= comps <= 4,
    ensures
        b.next_ref(file, comps).file_spec() == Some(file),
        b.next_ref(file, comps).comps == comps,
        b.next_ref(file, comps).wf(),
        comps == 1 ==> b.next_ref(file, comps) == SSARef::single(b.next_value(file, 0)),
        comps == 2 ==> b.next_ref(file, comps) == SSARef::pair(
            b.next_value(file, 0),
            b.next_value(file, 1),
        ),
{
    let r = b.next_ref(file, comps);
    assert(r.vals[0].file == file);
    assert(comps >= 2 ==> r.vals[1].file == file);
    assert(comps >= 3 ==> r.vals[2].file == file);
    assert(comps >= 4 ==> r.vals[3].file == file);
    assert(r.all_in_file(file));
}

/// A copied source is a register of the file it was copied to.
pub proof fn lemma_copy_is_reg(b: BuilderState, src: Src, reg_file: RegFile, src_type: SrcType)
    requires
        b.has_room(src_type_comps(src_type) as nat),
    ensures
        src_is_reg_spec(copy_alu_src_spec(b, src, reg_file, src_type).1, reg_file),
        in_ssa_form(copy_alu_src_spec(b, src, reg_file, src_type).1),
        copy_alu_src_spec(b, src, reg_file, src_type).1.src_mod == src.src_mod,
        copy_alu_src_spec(b, src, reg_file, src_type).0.ssa_count == b.ssa_count
            + src_type_comps(src_type),
{
    lemma_next_ref_file(b, reg_file, src_type_comps(src_type));
}

/// A source whose modifier was lowered is an unmodified register.
pub proof fn lemma_lowered_is_reg(b: BuilderState, src: Src, src_type: SrcType)
    requires
        b.has_room(src_type_comps(src_type) as nat),
    ensures
        src_is_reg_spec(lower_fmod_spec(b, src, src_type).1, RegFile::GPR),
        lower_fmod_spec(b, src, src_type).1.src_mod == SrcMod::Plain,
        lower_fmod_spec(b, src, src_type).0.ssa_count == b.ssa_count + src_type_comps(src_type),
{
    lemma_next_ref_file(b, RegFile::GPR, src_type_comps(src_type));
}

/// Whether the source needs no register of `reg_file` made for it.
pub fn src_is_reg(src: &Src, reg_file: RegFile) -> (r: bool)
    requires
        in_ssa_form(*src),
        src.src_ref matches SrcRef::SSA(ssa) ==> ssa.wf(),
    ensures
        r == src_is_reg_spec(*src, reg_file),
{
    match src.src_ref {
        SrcRef::Zero | SrcRef::True | SrcRef::False => true,
        SrcRef::SSA(ssa) => {
            match ssa.file() {
                Some(f) => f == reg_file,
                None => false,
            }
        },
        _ => false,
    }
}

/// Exchanges two sources if the second is a register and the first is
/// not; says whether it did.
pub fn swap_srcs_if_not_reg(x: &mut Src, y: &mut Src, reg_file: RegFile) -> (r: bool)
    requires
        in_ssa_form(*old(x)),
        in_ssa_form(*old(y)),
        old(x).src_ref matches SrcRef::SSA(ssa) ==> ssa.wf(),
        old(y).src_ref matches SrcRef::SSA(ssa) ==> ssa.wf(),
    ensures
        r == swapped(*old(x), *old(y), reg_file),
        r ==> *final(x) == *old(y) && *final(y) == *old(x),
        !r ==> *final(x) == *old(x) && *final(y) == *old(y),
{
    if !src_is_reg(x, reg_file) && src_is_reg(y, reg_file) {
        let t: Src = *x;
        *x = *y;
        *y = t;
        true
    } else {
        false
    }
}

impl LegalizeBuilder {
    /// Whether the allocator has `n` more values to hand out.
    pub fn room_for(&self, n: u32) -> (r: bool)
        ensures
            r == self@.has_room(n as nat),
    {
        self.ssa_count as u64 + n as u64 <= SSA_MAX_IDX as u64
    }

    /// A builder with no instructions, whose allocator has handed out
    /// `ssa_count` values so far.
    pub fn new(ssa_count: u32) -> (b: LegalizeBuilder)
        ensures
            b@ == (BuilderState { ssa_count, instrs: Seq::empty() }),
    {
        LegalizeBuilder { ssa_count, instrs: Vec::new() }
    }

    /// Hands out a vector of one to four fresh values of `file`.
    pub fn alloc_ssa(&mut self, file: RegFile, comps: u8) -> (r: SSARef)
        requires
            1 <= comps <= 4,
            old(self)@.has_room(comps as nat),
        ensures
            r == old(self)@.next_ref(file, comps),
            final(self)@ == old(self)@.take(comps),
    {
        let none = SSAValue::new_none();
        let base: u32 = self.ssa_count;
        let v0 = SSAValue { file, idx: base + 1 };
        let v1 = if comps > 1 {
            SSAValue { file, idx: base + 2 }
        } else {
            none
        };
        let v2 = if comps > 2 {
            SSAValue { file, idx: base + 3 }
        } else {
            none
        };
        let v3 = if comps > 3 {
            SSAValue { file, idx: base + 4 }
        } else {
            none
        };
        self.ssa_count = base + comps as u32;
        SSARef { vals: [v0, v1, v2, v3], comps }
    }

    /// Emits `op` as an unguarded instruction.
    pub fn push_op(&mut self, op: Op)
        ensures
            final(self)@ == old(self)@.push(op),
    {
        self.instrs.push(Instr::new(op));
    }

    /// Emits the copy of `src` into the value `val`.
    pub fn copy_to(&mut self, val: SSAValue, src: Src)
        ensures
            final(self)@ == old(self)@.push(copy_op(val, src)),
    {
        self.push_op(Op::Copy(OpCopy { dst: Dst::SSA(SSARef::from_value(val)), src }));
    }

    /// Copies the source into fresh values of `reg_file`.
    pub fn copy_alu_src(&mut self, src: &mut Src, reg_file: RegFile, src_type: SrcType)
        requires
            copy_ok(*old(src), src_type),
            old(self)@.has_room(src_type_comps(src_type) as nat),
        ensures
            (final(self)@, *final(src)) == copy_alu_src_spec(
                old(self)@,
                *old(src),
                reg_file,
                src_type,
            ),
    {
        let comps: u8 = match src_type {
            SrcType::F64 => 2,
            _ => 1,
        };
        let val = self.alloc_ssa(reg_file, comps);
        if comps == 1 {
            self.copy_to(val.vals[0], Src::from_ref(src.src_ref));
        } else {
            match src.src_ref {
                SrcRef::Imm32(u) => {
                    // Immediates go in the top bits
                    self.copy_to(val.vals[0], Src::new_imm_u32(0));
                    self.copy_to(val.vals[1], Src::new_imm_u32(u));
                },
                SrcRef::CBuf(cb) => {
                    // CBufs load 8B
                    self.copy_to(val.vals[0], Src::from_cbuf(cb));
                    self.copy_to(val.vals[1], Src::from_cbuf(cb.offset(4)));
                },
                SrcRef::SSA(vec) => {
                    self.copy_to(val.vals[0], Src::from_ssa(SSARef::from_value(vec.vals[0])));
                    self.copy_to(val.vals[1], Src::from_ssa(SSARef::from_value(vec.vals[1])));
                },
                _ => {},
            }
        }
        src.src_ref = SrcRef::SSA(val);
    }

    /// Copies the source into a register unless it is one.
    pub fn copy_alu_src_if_not_reg(&mut self, src: &mut Src, reg_file: RegFile, src_type: SrcType)
        requires
            in_ssa_form(*old(src)),
            old(src).src_ref matches SrcRef::SSA(ssa) ==> ssa.wf(),
            !src_is_reg_spec(*old(src), reg_file) ==> copy_ok(*old(src), src_type) && old(
                self,
            )@.has_room(src_type_comps(src_type) as nat),
        ensures
            (final(self)@, *final(src)) == copy_if(
                !src_is_reg_spec(*old(src), reg_file),
                old(self)@,
                *old(src),
                reg_file,
                src_type,
            ),
            src_is_reg_spec(*final(src), reg_file),
            in_ssa_form(*final(src)),
            final(src).src_mod == old(src).src_mod,
    {
        if !src_is_reg(src, reg_file) {
            proof {
                lemma_copy_is_reg(self@, *src, reg_file, src_type);
            }
            self.copy_alu_src(src, reg_file, src_type);
        }
    }

    /// Copies the source into a register if it is an immediate.
    pub fn copy_alu_src_if_imm(&mut self, src: &mut Src, reg_file: RegFile, src_type: SrcType)
        requires
            old(src).src_ref is Imm32 ==> copy_ok(*old(src), src_type) && old(self)@.has_room(
                src_type_comps(src_type) as nat,
            ),
        ensures
            (final(self)@, *final(src)) == copy_if(
                old(src).src_ref is Imm32,
                old(self)@,
                *old(src),
                reg_file,
                src_type,
            ),
            !(final(src).src_ref is Imm32),
            final(src).src_mod == old(src).src_mod,
    {
        if matches!(src.src_ref, SrcRef::Imm32(_)) {
            self.copy_alu_src(src, reg_file, src_type);
        }
    }

    /// Copies the source into a register unless it is a register or an
    /// immediate.
    pub fn copy_alu_src_if_not_reg_or_imm(
        &mut self,
        src: &mut Src,
        reg_file: RegFile,
        src_type: SrcType,
    )
        requires
            in_ssa_form(*old(src)),
            old(src).src_ref matches SrcRef::SSA(ssa) ==> ssa.wf(),
            !src_is_reg_spec(*old(src), reg_file) && !(old(src).src_ref is Imm32) ==> copy_ok(
                *old(src),
                src_type,
            ) && old(self)@.has_room(src_type_comps(src_type) as nat),
        ensures
            (final(self)@, *final(src)) == copy_if(
                !src_is_reg_spec(*old(src), reg_file) && !(old(src).src_ref is Imm32),
                old(self)@,
                *old(src),
                reg_file,
                src_type,
            ),
            src_is_reg_spec(*final(src), reg_file) || final(src).src_ref is Imm32,
            final(src).src_mod == old(src).src_mod,
    {
        if !src_is_reg(src, reg_file) && !matches!(src.src_ref, SrcRef::Imm32(_)) {
            proof {
                lemma_copy_is_reg(self@, *src, reg_file, src_type);
            }
            self.copy_alu_src(src, reg_file, src_type);
        }
    }

    /// Computes the float modifier of a 32- or 64-bit source into a
    /// fresh register.
    pub fn copy_alu_src_and_lower_fmod(&mut self, src: &mut Src, src_type: SrcType)
        requires
            src_type == SrcType::F32 || src_type == SrcType::F64,
            old(self)@.has_room(src_type_comps(src_type) as nat),
        ensures
            (final(self)@, *final(src)) == lower_fmod_spec(old(self)@, *old(src), src_type),
    {
        let neg_zero = Src { src_ref: SrcRef::Zero, src_mod: SrcMod::FNeg };
        match src_type {
            SrcType::F64 => {
                let val = self.alloc_ssa(RegFile::GPR, 2);
                self.push_op(
                    Op::DAdd(
                        OpDAdd {
                            dst: Dst::SSA(val),
                            srcs: [neg_zero, *src],
                            rnd_mode: FRndMode::NearestEven,
                        },
                    ),
                );
                *src = Src::from_ssa(val);
            },
            _ => {
                let val = self.alloc_ssa(RegFile::GPR, 1);
                self.push_op(
                    Op::FAdd(
                        OpFAdd {
                            dst: Dst::SSA(val),
                            srcs: [neg_zero, *src],
                            saturate: false,
                            rnd_mode: FRndMode::NearestEven,
                            ftz: false,
                        },
                    ),
                );
                *src = Src::from_ssa(val);
            },
        }
    }
}

/// What an external unit (memory, texture) asks of a source of type
/// `src_type`: an unmodified SSA vector, or a general-purpose register.
/// Such instructions take no other kind of source.
pub open spec fn ext_src_ok(src: Src, src_type: SrcType) -> bool {
    match src_type {
        SrcType::SSA => src.as_ssa_spec() is Some,
        SrcType::GPR => src_ready(src) && src_is_reg_spec(src, RegFile::GPR),
        _ => false,
    }
}

/// Whether a source is in SSA form and reads no malformed vector.
pub fn check_src_ready(src: &Src) -> (r: bool)
    ensures
        r == src_ready(*src),
{
    match &src.src_ref {
        SrcRef::Reg(_) => false,
        SrcRef::SSA(ssa) => ssa.is_wf(),
        _ => true,
    }
}

/// Whether a source can be copied into a register as a value of
/// `src_type`.
pub fn check_copy_ok(src: &Src, src_type: SrcType) -> (r: bool)
    ensures
        r == copy_ok(*src, src_type),
{
    match src_type {
        SrcType::SSA | SrcType::Bar => false,
        SrcType::F64 => match &src.src_ref {
            SrcRef::Imm32(_) => true,
            SrcRef::CBuf(cb) => cb.offset <= u16::MAX - 4,
            SrcRef::SSA(ssa) => ssa.comps == 2,
            _ => false,
        },
        _ => true,
    }
}

/// Whether an external unit takes a source of type `src_type`.
pub fn check_ext_src(src: &Src, src_type: SrcType) -> (r: bool)
    ensures
        r == ext_src_ok(*src, src_type),
{
    match src_type {
        SrcType::SSA => src.as_ssa().is_some(),
        SrcType::GPR => check_src_ready(src) && src_is_reg(src, RegFile::GPR),
        _ => false,
    }
}

/// The sources of an instruction of an external unit are as their
/// types ask, one type for each source.
pub open spec fn ext_srcs_ok(srcs: Seq<Src>, src_types: Seq<SrcType>) -> bool {
    &&& srcs.len() == src_types.len()
    &&& forall|i: int| 0 <= i < srcs.len() ==> ext_src_ok(#[trigger] srcs[i], src_types[i])
}

/// Whether the sources of an instruction of an external unit are as
/// their types ask.
pub fn check_ext_instr(srcs: &[Src], src_types: &[SrcType]) -> (ok: bool)
    ensures
        ok == ext_srcs_ok(srcs@, src_types@),
{
    if srcs.len() != src_types.len() {
        return false;
    }
    let mut i: usize = 0;
    while i < srcs.len()
        invariant
            i <= srcs@.len(),
            srcs@.len() == src_types@.len(),
            forall|j: int| 0 <= j < i ==> ext_src_ok(#[trigger] srcs@[j], src_types@[j]),
        decreases srcs@.len() - i,
    {
        if !check_ext_src(&srcs[i], src_types[i]) {
            return false;
        }
        i = i + 1;
    }
    true
}

/// Legalizes an instruction of an external unit.  Such instructions
/// are never rewritten: they take vectors, and whatever feeds them is
/// resolved before legalization.  So the sources have to be as their
/// types ask already, and nothing is emitted.
pub fn legalize_ext_instr(srcs: &[Src], src_types: &[SrcType], b: &mut LegalizeBuilder)
    requires
        ext_srcs_ok(srcs@, src_types@),
    ensures
        *final(b) == *old(b),
{
}

} // verus!
