//! The operand model of the instruction set: register references, SSA
//! values, sources and destinations, predicates and scheduling data.

use vstd::prelude::*;

verus! {

/// A register file.
#[derive(Clone, Copy, Debug, PartialEq, Eq, Structural)]
pub enum RegFile {
    /// General-purpose registers.
    GPR,
    /// Uniform general-purpose registers.
    UGPR,
    /// Predicate registers.
    Pred,
    /// Uniform predicate registers.
    UPred,
    /// The carry flag.
    Carry,
    /// Barrier registers.
    Bar,
    /// Spill slots in memory.
    Mem,
}

/// The largest register index a reference can hold.
pub const REG_MAX_IDX: u32 = 0x3ff_ffff;

/// The largest SSA value index an allocator hands out.
pub const SSA_MAX_IDX: u32 = 0x1fff_fffd;

/// A contiguous group of `comps` registers of one file, starting at
/// `base_idx`.
#[derive(Clone, Copy, Debug, PartialEq, Eq, Structural)]
pub struct RegRef {
    pub file: RegFile,
    pub base_idx: u32,
    pub comps: u8,
}

impl RegRef {
    /// The index is representable and the group has one to eight members.
    pub open spec fn wf(self) -> bool {
        self.base_idx <= REG_MAX_IDX && 1 <= self.comps <= 8
    }

    /// Whether the file has a register that always reads as zero (for
    /// predicates: as true).
    pub open spec fn has_zero(file: RegFile) -> bool {
        file == RegFile::GPR || file == RegFile::UGPR || file == RegFile::Pred || file
            == RegFile::UPred
    }

    /// The index of the zero register of a file.
    pub open spec fn zero_idx_spec(file: RegFile) -> u32 {
        match file {
            RegFile::GPR => 255,
            RegFile::UGPR => 63,
            _ => 7,
        }
    }

    pub fn new(file: RegFile, base_idx: u32, comps: u8) -> (r: RegRef)
        requires
            base_idx <= REG_MAX_IDX,
            1 <= comps <= 8,
        ensures
            r == (RegRef { file, base_idx, comps }),
            r.wf(),
    {
        RegRef { file, base_idx, comps }
    }

    /// The zero register of a file, as a group of `comps`.
    pub fn zero(file: RegFile, comps: u8) -> (r: RegRef)
        requires
            Self::has_zero(file),
            1 <= comps <= 8,
        ensures
            r == (RegRef { file, base_idx: Self::zero_idx_spec(file), comps }),
            r.wf(),
    {
        let idx: u32 = match file {
            RegFile::GPR => 255,
            RegFile::UGPR => 63,
            _ => 7,
        };
        RegRef { file, base_idx: idx, comps }
    }

    pub fn file(&self) -> (f: RegFile)
        ensures
            f == self.file,
    {
        self.file
    }

    pub fn base_idx(&self) -> (i: u32)
        ensures
            i == self.base_idx,
    {
        self.base_idx
    }

    pub fn comps(&self) -> (c: u8)
        ensures
            c == self.comps,
    {
        self.comps
    }
}

/// One value in static single assignment form.
#[derive(Clone, Copy, Debug, PartialEq, Eq, Structural)]
pub struct SSAValue {
    pub file: RegFile,
    pub idx: u32,
}

impl SSAValue {
    /// The value that fills the unused entries of a vector.
    pub open spec fn none() -> SSAValue {
        SSAValue { file: RegFile::GPR, idx: 0 }
    }

    pub fn new_none() -> (v: SSAValue)
        ensures
            v == Self::none(),
    {
        SSAValue { file: RegFile::GPR, idx: 0 }
    }
}

/// A vector of one to four SSA values; only the first `comps` entries of
/// `vals` count, and the others hold `SSAValue::none()`.
#[derive(Clone, Copy, Debug, PartialEq, Eq)]
pub struct SSARef {
    pub vals: [SSAValue; 4],
    pub comps: u8,
}

impl SSARef {
    pub open spec fn wf(self) -> bool {
        1 <= self.comps <= 4
    }

    /// Every component lives in `file`.
    pub open spec fn all_in_file(self, file: RegFile) -> bool {
        forall|i: int| 0 <= i < self.comps ==> (#[trigger] self.vals[i]).file == file
    }

    /// The file that all components share, if they share one.
    pub open spec fn file_spec(self) -> Option<RegFile> {
        if self.all_in_file(self.vals[0].file) {
            Some(self.vals[0].file)
        } else {
            None
        }
    }

    /// The vector of the one value `val`.
    pub open spec fn single(val: SSAValue) -> SSARef {
        SSARef { vals: [val, SSAValue::none(), SSAValue::none(), SSAValue::none()], comps: 1 }
    }

    /// The vector of the two values `a` and `b`.
    pub open spec fn pair(a: SSAValue, b: SSAValue) -> SSARef {
        SSARef { vals: [a, b, SSAValue::none(), SSAValue::none()], comps: 2 }
    }

    /// A vector of one value.
    pub fn from_value(val: SSAValue) -> (r: SSARef)
        ensures
            r == Self::single(val),
            r.wf(),
            r.file_spec() == Some(val.file),
    {
        let none = SSAValue::new_none();
        SSARef { vals: [val, none, none, none], comps: 1 }
    }

    /// A vector of two values.
    pub fn from_pair(a: SSAValue, b: SSAValue) -> (r: SSARef)
        ensures
            r == Self::pair(a, b),
            r.wf(),
    {
        let none = SSAValue::new_none();
        SSARef { vals: [a, b, none, none], comps: 2 }
    }

    pub fn comps(&self) -> (c: u8)
        ensures
            c == self.comps,
    {
        self.comps
    }

    /// Whether the vector has one to four components.
    pub fn is_wf(&self) -> (b: bool)
        ensures
            b == self.wf(),
    {
        1 <= self.comps && self.comps <= 4
    }

    /// The file that all components share, or `None` if they differ.
    pub fn file(&self) -> (f: Option<RegFile>)
        requires
            self.wf(),
        ensures
            f == self.file_spec(),
    {
        let first: RegFile = self.vals[0].file;
        let mut i: usize = 1;
        while i < 4 && i < self.comps as usize
            invariant
                1 <= i <= 4,
                self.wf(),
                first == self.vals[0].file,
                forall|j: int| 0 <= j < i ==> (#[trigger] self.vals[j]).file == first,
            decreases 4 - i,
        {
            if self.vals[i].file != first {
                return None;
            }
            i = i + 1;
        }
        Some(first)
    }
}

/// A constant buffer: bound to a slot, or reached through a handle.
#[derive(Clone, Copy, Debug, PartialEq, Eq)]
pub enum CBuf {
    Binding(u8),
    BindlessSSA(SSARef),
    BindlessUGPR(RegRef),
}

/// A location in a constant buffer.
#[derive(Clone, Copy, Debug, PartialEq, Eq)]
pub struct CBufRef {
    pub buf: CBuf,
    pub offset: u16,
}

impl CBufRef {
    /// The same buffer, `delta` bytes further.
    pub fn offset(self, delta: u16) -> (r: CBufRef)
        requires
            self.offset + delta <= u16::MAX,
        ensures
            r.buf == self.buf,
            r.offset == self.offset + delta,
    {
        CBufRef { buf: self.buf, offset: self.offset + delta }
    }
}

/// What a source reads.
#[derive(Clone, Copy, Debug, PartialEq, Eq)]
pub enum SrcRef {
    Zero,
    True,
    False,
    Imm32(u32),
    CBuf(CBufRef),
    SSA(SSARef),
    Reg(RegRef),
}

/// A modifier applied to a source as it is read.
#[derive(Clone, Copy, Debug, PartialEq, Eq, Structural)]
pub enum SrcMod {
    /// The source is read as it is.
    Plain,
    FAbs,
    FNeg,
    FNegAbs,
    INeg,
    BNot,
}

impl SrcMod {
    /// No modifier or one of the floating-point modifiers.
    pub open spec fn is_float(self) -> bool {
        self == SrcMod::Plain || self == SrcMod::FAbs || self == SrcMod::FNeg || self
            == SrcMod::FNegAbs
    }

    /// No modifier or integer negation.
    pub open spec fn is_int(self) -> bool {
        self == SrcMod::Plain || self == SrcMod::INeg
    }

    /// No modifier or bitwise not.
    pub open spec fn is_bitwise(self) -> bool {
        self == SrcMod::Plain || self == SrcMod::BNot
    }

    pub open spec fn fabs_spec(self) -> bool {
        self == SrcMod::FAbs || self == SrcMod::FNegAbs
    }

    pub open spec fn fneg_spec(self) -> bool {
        self == SrcMod::FNeg || self == SrcMod::FNegAbs
    }

    pub open spec fn bnot_spec(self) -> SrcMod {
        if self == SrcMod::Plain {
            SrcMod::BNot
        } else {
            SrcMod::Plain
        }
    }

    pub fn is_none(&self) -> (b: bool)
        ensures
            b == (*self == SrcMod::Plain),
    {
        matches!(self, SrcMod::Plain)
    }

    /// Whether the modifier is none or a floating-point one.
    pub fn is_float_mod(&self) -> (b: bool)
        ensures
            b == self.is_float(),
    {
        matches!(self, SrcMod::Plain | SrcMod::FAbs | SrcMod::FNeg | SrcMod::FNegAbs)
    }

    /// Whether the modifier is none or integer negation.
    pub fn is_int_mod(&self) -> (b: bool)
        ensures
            b == self.is_int(),
    {
        matches!(self, SrcMod::Plain | SrcMod::INeg)
    }

    /// Whether the modifier is none or bitwise not.
    pub fn is_bitwise_mod(&self) -> (b: bool)
        ensures
            b == self.is_bitwise(),
    {
        matches!(self, SrcMod::Plain | SrcMod::BNot)
    }

    pub fn has_fabs(&self) -> (b: bool)
        requires
            self.is_float(),
        ensures
            b == self.fabs_spec(),
    {
        matches!(self, SrcMod::FAbs | SrcMod::FNegAbs)
    }

    pub fn has_fneg(&self) -> (b: bool)
        requires
            self.is_float(),
        ensures
            b == self.fneg_spec(),
    {
        matches!(self, SrcMod::FNeg | SrcMod::FNegAbs)
    }

    pub fn is_ineg(&self) -> (b: bool)
        requires
            self.is_int(),
        ensures
            b == (*self == SrcMod::INeg),
    {
        matches!(self, SrcMod::INeg)
    }

    pub fn is_bnot(&self) -> (b: bool)
        requires
            self.is_bitwise(),
        ensures
            b == (*self == SrcMod::BNot),
    {
        matches!(self, SrcMod::BNot)
    }

    /// Toggles bitwise not.
    pub fn bnot(self) -> (m: SrcMod)
        requires
            self.is_bitwise(),
        ensures
            m == self.bnot_spec(),
    {
        match self {
            SrcMod::Plain => SrcMod::BNot,
            _ => SrcMod::Plain,
        }
    }

    /// Toggles floating-point negation.
    pub fn fneg(self) -> (m: SrcMod)
        requires
            self.is_float(),
        ensures
            m.is_float(),
            m.fabs_spec() == self.fabs_spec(),
            m.fneg_spec() == !self.fneg_spec(),
    {
        match self {
            SrcMod::Plain => SrcMod::FNeg,
            SrcMod::FAbs => SrcMod::FNegAbs,
            SrcMod::FNeg => SrcMod::Plain,
            _ => SrcMod::FAbs,
        }
    }
}

/// An instruction source: what is read, and how it is modified.
#[derive(Clone, Copy, Debug, PartialEq, Eq)]
pub struct Src {
    pub src_ref: SrcRef,
    pub src_mod: SrcMod,
}

impl Src {
    /// The top 13 bits of `i` are all equal: `i` is a 32-bit image of a
    /// signed number of 20 bits.
    pub open spec fn i20_ok(i: u32) -> bool {
        (i & 0xfff80000) == 0 || (i & 0xfff80000) == 0xfff80000
    }

    /// The low 12 bits of `i` are zero: `i` is a 32-bit float whose
    /// mantissa fits the short immediate form.
    pub open spec fn f20_ok(i: u32) -> bool {
        (i & 0xfff) == 0
    }

    /// An immediate source carries no modifier.
    pub open spec fn imm_unmodified(self) -> bool {
        self.src_ref is Imm32 ==> self.src_mod == SrcMod::Plain
    }

    pub open spec fn imm_not_i20_spec(self) -> Option<u32> {
        match self.src_ref {
            SrcRef::Imm32(i) => if Self::i20_ok(i) {
                None
            } else {
                Some(i)
            },
            _ => None,
        }
    }

    pub open spec fn imm_not_f20_spec(self) -> Option<u32> {
        match self.src_ref {
            SrcRef::Imm32(i) => if Self::f20_ok(i) {
                None
            } else {
                Some(i)
            },
            _ => None,
        }
    }

    pub open spec fn reg_or_zero_spec(self) -> bool {
        self.src_ref is Zero || self.src_ref is Reg
    }

    pub open spec fn as_ssa_spec(self) -> Option<SSARef> {
        match self.src_ref {
            SrcRef::SSA(ssa) => if self.src_mod == SrcMod::Plain {
                Some(ssa)
            } else {
                None
            },
            _ => None,
        }
    }

    /// Whether `i` is a 32-bit image of a signed number of 20 bits.
    pub fn fits_i20(i: u32) -> (b: bool)
        ensures
            b == Self::i20_ok(i),
    {
        let top: u32 = i & 0xfff80000;
        top == 0 || top == 0xfff80000
    }

    /// Whether the low 12 bits of `i` are zero.
    pub fn fits_f20(i: u32) -> (b: bool)
        ensures
            b == Self::f20_ok(i),
    {
        (i & 0xfff) == 0
    }

    /// Whether the source, if it is an immediate, carries no modifier.
    pub fn is_imm_unmodified(&self) -> (b: bool)
        ensures
            b == self.imm_unmodified(),
    {
        match self.src_ref {
            SrcRef::Imm32(_) => self.src_mod.is_none(),
            _ => true,
        }
    }

    /// The unmodified source that reads `src_ref`.
    pub fn from_ref(src_ref: SrcRef) -> (s: Src)
        ensures
            s == (Src { src_ref, src_mod: SrcMod::Plain }),
    {
        Src { src_ref, src_mod: SrcMod::Plain }
    }

    pub fn new_zero() -> (s: Src)
        ensures
            s == (Src { src_ref: SrcRef::Zero, src_mod: SrcMod::Plain }),
    {
        Src { src_ref: SrcRef::Zero, src_mod: SrcMod::Plain }
    }

    pub fn new_imm_u32(u: u32) -> (s: Src)
        ensures
            s == (Src {
                src_ref: if u == 0 {
                    SrcRef::Zero
                } else {
                    SrcRef::Imm32(u)
                },
                src_mod: SrcMod::Plain,
            }),
    {
        if u == 0 {
            Src { src_ref: SrcRef::Zero, src_mod: SrcMod::Plain }
        } else {
            Src { src_ref: SrcRef::Imm32(u), src_mod: SrcMod::Plain }
        }
    }

    pub fn new_imm_bool(b: bool) -> (s: Src)
        ensures
            s == (Src {
                src_ref: if b {
                    SrcRef::True
                } else {
                    SrcRef::False
                },
                src_mod: SrcMod::Plain,
            }),
    {
        if b {
            Src { src_ref: SrcRef::True, src_mod: SrcMod::Plain }
        } else {
            Src { src_ref: SrcRef::False, src_mod: SrcMod::Plain }
        }
    }

    pub fn from_reg(reg: RegRef) -> (s: Src)
        ensures
            s == (Src { src_ref: SrcRef::Reg(reg), src_mod: SrcMod::Plain }),
    {
        Src { src_ref: SrcRef::Reg(reg), src_mod: SrcMod::Plain }
    }

    pub fn from_ssa(ssa: SSARef) -> (s: Src)
        ensures
            s == (Src { src_ref: SrcRef::SSA(ssa), src_mod: SrcMod::Plain }),
    {
        Src { src_ref: SrcRef::SSA(ssa), src_mod: SrcMod::Plain }
    }

    pub fn from_cbuf(cb: CBufRef) -> (s: Src)
        ensures
            s == (Src { src_ref: SrcRef::CBuf(cb), src_mod: SrcMod::Plain }),
    {
        Src { src_ref: SrcRef::CBuf(cb), src_mod: SrcMod::Plain }
    }

    /// The same source with floating-point negation toggled.
    pub fn fneg(self) -> (s: Src)
        requires
            self.src_mod.is_float(),
        ensures
            s.src_ref == self.src_ref,
            s.src_mod.is_float(),
            s.src_mod.fabs_spec() == self.src_mod.fabs_spec(),
            s.src_mod.fneg_spec() == !self.src_mod.fneg_spec(),
    {
        Src { src_ref: self.src_ref, src_mod: self.src_mod.fneg() }
    }

    /// The same source with bitwise not toggled.
    pub fn bnot(self) -> (s: Src)
        requires
            self.src_mod.is_bitwise(),
        ensures
            s == (Src { src_ref: self.src_ref, src_mod: self.src_mod.bnot_spec() }),
    {
        Src { src_ref: self.src_ref, src_mod: self.src_mod.bnot() }
    }

    /// The SSA vector that the source reads unmodified, if it does.
    pub fn as_ssa(&self) -> (r: Option<SSARef>)
        ensures
            r == self.as_ssa_spec(),
    {
        match self.src_ref {
            SrcRef::SSA(ssa) => {
                if self.src_mod.is_none() {
                    Some(ssa)
                } else {
                    None
                }
            },
            _ => None,
        }
    }

    /// The immediate, if the source is one that does not fit the short
    /// signed form of 20 bits.
    pub fn as_imm_not_i20(&self) -> (r: Option<u32>)
        requires
            self.imm_unmodified(),
        ensures
            r == self.imm_not_i20_spec(),
    {
        match self.src_ref {
            SrcRef::Imm32(i) => {
                let top: u32 = i & 0xfff80000;
                if top == 0 || top == 0xfff80000 {
                    None
                } else {
                    Some(i)
                }
            },
            _ => None,
        }
    }

    /// The immediate, if the source is one that does not fit the short
    /// floating-point form of 20 bits.
    pub fn as_imm_not_f20(&self) -> (r: Option<u32>)
        requires
            self.imm_unmodified(),
        ensures
            r == self.imm_not_f20_spec(),
    {
        match self.src_ref {
            SrcRef::Imm32(i) => {
                if (i & 0xfff) == 0 {
                    None
                } else {
                    Some(i)
                }
            },
            _ => None,
        }
    }

    /// Whether the source reads a register or the zero register.
    pub fn is_reg_or_zero(&self) -> (b: bool)
        ensures
            b == self.reg_or_zero_spec(),
    {
        matches!(self.src_ref, SrcRef::Zero | SrcRef::Reg(_))
    }
}

/// An instruction destination.
#[derive(Clone, Copy, Debug, PartialEq, Eq)]
pub enum Dst {
    /// The result is thrown away.
    Discard,
    SSA(SSARef),
    Reg(RegRef),
}

impl Dst {
    pub fn is_none(&self) -> (b: bool)
        ensures
            b == (*self is Discard),
    {
        matches!(self, Dst::Discard)
    }

    pub fn from_ssa(ssa: SSARef) -> (d: Dst)
        ensures
            d == Dst::SSA(ssa),
    {
        Dst::SSA(ssa)
    }

    pub fn from_reg(reg: RegRef) -> (d: Dst)
        ensures
            d == Dst::Reg(reg),
    {
        Dst::Reg(reg)
    }
}

/// The register that guards an instruction.
#[derive(Clone, Copy, Debug, PartialEq, Eq, Structural)]
pub enum PredRef {
    /// No register: the guard is the constant true.
    Always,
    SSA(SSAValue),
    Reg(RegRef),
}

/// A guard: the instruction runs when the predicate, inverted if
/// `pred_inv`, is true.  No register means true.
#[derive(Clone, Copy, Debug, PartialEq, Eq, Structural)]
pub struct Pred {
    pub pred_ref: PredRef,
    pub pred_inv: bool,
}

impl Pred {
    pub open spec fn is_false_spec(self) -> bool {
        self.pred_ref is Always && self.pred_inv
    }

    /// The guard that always holds.
    pub fn always() -> (p: Pred)
        ensures
            p == (Pred { pred_ref: PredRef::Always, pred_inv: false }),
    {
        Pred { pred_ref: PredRef::Always, pred_inv: false }
    }

    /// Whether the guard can never hold.
    pub fn is_false(&self) -> (b: bool)
        ensures
            b == self.is_false_spec(),
    {
        matches!(self.pred_ref, PredRef::Always) && self.pred_inv
    }
}

/// Scheduling data of one instruction.  A barrier index below zero means
/// that the instruction uses no barrier of that kind.
#[derive(Clone, Copy, Debug, PartialEq, Eq, Structural)]
pub struct InstrDeps {
    pub delay: u8,
    pub yld: bool,
    pub wr_bar: i8,
    pub rd_bar: i8,
    pub wt_bar_mask: u8,
    pub reuse_mask: u8,
}

impl InstrDeps {
    pub open spec fn new_spec() -> InstrDeps {
        InstrDeps {
            delay: 0,
            yld: false,
            wr_bar: -1i8,
            rd_bar: -1i8,
            wt_bar_mask: 0,
            reuse_mask: 0,
        }
    }

    pub open spec fn wr_bar_spec(self) -> Option<u8> {
        if self.wr_bar < 0 {
            None
        } else {
            Some(self.wr_bar as u8)
        }
    }

    pub open spec fn rd_bar_spec(self) -> Option<u8> {
        if self.rd_bar < 0 {
            None
        } else {
            Some(self.rd_bar as u8)
        }
    }

    /// No delay, no yield, no barriers, no reuse.
    pub fn new() -> (d: InstrDeps)
        ensures
            d == Self::new_spec(),
    {
        InstrDeps { delay: 0, yld: false, wr_bar: -1, rd_bar: -1, wt_bar_mask: 0, reuse_mask: 0 }
    }

    /// The barrier that the instruction signals when its writes land.
    pub fn wr_bar(&self) -> (b: Option<u8>)
        ensures
            b == self.wr_bar_spec(),
    {
        if self.wr_bar < 0 {
            None
        } else {
            Some(self.wr_bar as u8)
        }
    }

    /// The barrier that the instruction signals when its reads are done.
    pub fn rd_bar(&self) -> (b: Option<u8>)
        ensures
            b == self.rd_bar_spec(),
    {
        if self.rd_bar < 0 {
            None
        } else {
            Some(self.rd_bar as u8)
        }
    }
}

/// The name of a basic block.
#[derive(Clone, Copy, Debug, PartialEq, Eq, Structural)]
pub struct Label {
    pub idx: u32,
}

/// What kind of value a source slot of an instruction takes.
#[derive(Clone, Copy, Debug, PartialEq, Eq, Structural)]
pub enum SrcType {
    SSA,
    GPR,
    ALU,
    F16,
    F16v2,
    F32,
    F64,
    I32,
    B32,
    Pred,
    Bar,
}

} // verus!
