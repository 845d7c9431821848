//! The operations of the instruction set, one struct per operation, and
//! the containers that hold them: instructions, basic blocks, functions.

use crate::ir::{Dst, InstrDeps, Label, Pred, Src};
use vstd::prelude::*;

verus! {

/// Floating-point rounding mode.
#[derive(Clone, Copy, Debug, PartialEq, Eq, Structural)]
pub enum FRndMode {
    NearestEven,
    NegInf,
    PosInf,
    Zero,
}

/// A floating-point comparison.  The ordered forms are false and the
/// unordered forms true when an operand is not a number.
#[derive(Clone, Copy, Debug, PartialEq, Eq, Structural)]
pub enum FloatCompare {
    OrdEq,
    OrdNe,
    OrdLt,
    OrdLe,
    OrdGt,
    OrdGe,
    UnordEq,
    UnordNe,
    UnordLt,
    UnordLe,
    UnordGt,
    UnordGe,
    IsNum,
    IsNan,
}

impl FloatCompare {
    /// The comparison has two operands, so they can be exchanged.
    pub open spec fn is_binary(self) -> bool {
        self != FloatCompare::IsNum && self != FloatCompare::IsNan
    }

    /// The comparison that gives, on exchanged operands, what this one
    /// gives.
    pub open spec fn flip_spec(self) -> FloatCompare {
        match self {
            FloatCompare::OrdLt => FloatCompare::OrdGt,
            FloatCompare::OrdLe => FloatCompare::OrdGe,
            FloatCompare::OrdGt => FloatCompare::OrdLt,
            FloatCompare::OrdGe => FloatCompare::OrdLe,
            FloatCompare::UnordLt => FloatCompare::UnordGt,
            FloatCompare::UnordLe => FloatCompare::UnordGe,
            FloatCompare::UnordGt => FloatCompare::UnordLt,
            FloatCompare::UnordGe => FloatCompare::UnordLe,
            _ => self,
        }
    }

    /// Whether the comparison has two operands.
    pub fn is_binary_op(&self) -> (b: bool)
        ensures
            b == self.is_binary(),
    {
        !matches!(self, FloatCompare::IsNum | FloatCompare::IsNan)
    }

    pub fn flip(self) -> (r: FloatCompare)
        requires
            self.is_binary(),
        ensures
            r == self.flip_spec(),
    {
        match self {
            FloatCompare::OrdLt => FloatCompare::OrdGt,
            FloatCompare::OrdLe => FloatCompare::OrdGe,
            FloatCompare::OrdGt => FloatCompare::OrdLt,
            FloatCompare::OrdGe => FloatCompare::OrdLe,
            FloatCompare::UnordLt => FloatCompare::UnordGt,
            FloatCompare::UnordLe => FloatCompare::UnordGe,
            FloatCompare::UnordGt => FloatCompare::UnordLt,
            FloatCompare::UnordGe => FloatCompare::UnordLe,
            _ => self,
        }
    }

    /// Flipping twice gives the comparison back.
    pub proof fn lemma_flip_involution(self)
        ensures
            self.flip_spec().flip_spec() == self,
            self.is_binary() ==> self.flip_spec().is_binary(),
    {
    }
}

/// An integer comparison.
#[derive(Clone, Copy, Debug, PartialEq, Eq, Structural)]
pub enum IntCompare {
    Eq,
    Ne,
    Lt,
    Le,
    Gt,
    Ge,
}

impl IntCompare {
    pub open spec fn flip_spec(self) -> IntCompare {
        match self {
            IntCompare::Lt => IntCompare::Gt,
            IntCompare::Le => IntCompare::Ge,
            IntCompare::Gt => IntCompare::Lt,
            IntCompare::Ge => IntCompare::Le,
            _ => self,
        }
    }

    /// The comparison that gives, on exchanged operands, what this one
    /// gives.
    pub fn flip(self) -> (r: IntCompare)
        ensures
            r == self.flip_spec(),
    {
        match self {
            IntCompare::Lt => IntCompare::Gt,
            IntCompare::Le => IntCompare::Ge,
            IntCompare::Gt => IntCompare::Lt,
            IntCompare::Ge => IntCompare::Le,
            _ => self,
        }
    }

    /// Flipping twice gives the comparison back.
    pub proof fn lemma_flip_involution(self)
        ensures
            self.flip_spec().flip_spec() == self,
    {
    }
}

/// Whether an integer comparison is signed.
#[derive(Clone, Copy, Debug, PartialEq, Eq, Structural)]
pub enum IntCompareType {
    U32,
    I32,
}

/// How a comparison result is combined with the accumulator predicate.
#[derive(Clone, Copy, Debug, PartialEq, Eq, Structural)]
pub enum PredSetOp {
    And,
    Or,
    Xor,
}

/// The function that the multi-function unit computes.
#[derive(Clone, Copy, Debug, PartialEq, Eq, Structural)]
pub enum MuFuOp {
    Cos,
    Sin,
    Exp2,
    Log2,
    Rcp,
    Rsq,
    Rcp64H,
    Rsq64H,
    Sqrt,
    Tanh,
}

/// The function for which a range reduction prepares its operand.
#[derive(Clone, Copy, Debug, PartialEq, Eq, Structural)]
pub enum RroOp {
    SinCos,
    Exp2,
}

/// What one lane of a swizzled add computes.
#[derive(Clone, Copy, Debug, PartialEq, Eq, Structural)]
pub enum FSwzAddOp {
    Add,
    SubLeft,
    SubRight,
    MoveLeft,
}

/// A two-operand logic operation.
#[derive(Clone, Copy, Debug, PartialEq, Eq, Structural)]
pub enum LogicOp2 {
    And,
    Or,
    Xor,
    PassB,
}

/// An integer type.
#[derive(Clone, Copy, Debug, PartialEq, Eq, Structural)]
pub enum IntType {
    U8,
    I8,
    U16,
    I16,
    U32,
    I32,
    U64,
    I64,
}

impl IntType {
    pub open spec fn bits_spec(self) -> u32 {
        match self {
            IntType::U8 | IntType::I8 => 8,
            IntType::U16 | IntType::I16 => 16,
            IntType::U32 | IntType::I32 => 32,
            IntType::U64 | IntType::I64 => 64,
        }
    }

    pub open spec fn signed_spec(self) -> bool {
        self == IntType::I8 || self == IntType::I16 || self == IntType::I32 || self
            == IntType::I64
    }

    /// The width of the type in bits.
    pub fn bits(&self) -> (b: u32)
        ensures
            b == self.bits_spec(),
    {
        match self {
            IntType::U8 | IntType::I8 => 8,
            IntType::U16 | IntType::I16 => 16,
            IntType::U32 | IntType::I32 => 32,
            IntType::U64 | IntType::I64 => 64,
        }
    }

    pub fn is_signed(&self) -> (s: bool)
        ensures
            s == self.signed_spec(),
    {
        matches!(self, IntType::I8 | IntType::I16 | IntType::I32 | IntType::I64)
    }
}

/// A floating-point type.
#[derive(Clone, Copy, Debug, PartialEq, Eq, Structural)]
pub enum FloatType {
    F16,
    F32,
    F64,
}

impl FloatType {
    pub open spec fn bits_spec(self) -> u32 {
        match self {
            FloatType::F16 => 16,
            FloatType::F32 => 32,
            FloatType::F64 => 64,
        }
    }

    /// The width of the type in bits.
    pub fn bits(&self) -> (b: u32)
        ensures
            b == self.bits_spec(),
    {
        match self {
            FloatType::F16 => 16,
            FloatType::F32 => 32,
            FloatType::F64 => 64,
        }
    }
}

/// How a shuffle picks the source lane.
#[derive(Clone, Copy, Debug, PartialEq, Eq, Structural)]
pub enum ShflOp {
    Idx,
    Up,
    Down,
    Bfly,
}

/// The dimensionality of a texture.
#[derive(Clone, Copy, Debug, PartialEq, Eq, Structural)]
pub enum TexDim {
    _1D,
    Array1D,
    _2D,
    Array2D,
    _3D,
    Cube,
    ArrayCube,
}

/// How the level of detail of a texture access is chosen.
#[derive(Clone, Copy, Debug, PartialEq, Eq, Structural)]
pub enum TexLodMode {
    Auto,
    Zero,
    Bias,
    Lod,
    Clamp,
    BiasClamp,
}

/// How a gather applies texel offsets.
#[derive(Clone, Copy, Debug, PartialEq, Eq, Structural)]
pub enum Tld4OffsetMode {
    Unset,
    AddOffI,
    PerPx,
}

/// What a texture query asks for.
#[derive(Clone, Copy, Debug, PartialEq, Eq, Structural)]
pub enum TexQuery {
    Dimension,
    TextureType,
    SamplerPos,
}

/// The type of a value in memory.
#[derive(Clone, Copy, Debug, PartialEq, Eq, Structural)]
pub enum MemType {
    U8,
    I8,
    U16,
    I16,
    B32,
    B64,
    B128,
}

/// The width of a memory address.
#[derive(Clone, Copy, Debug, PartialEq, Eq, Structural)]
pub enum MemAddrType {
    A32,
    A64,
}

/// How far a memory operation has to be visible.
#[derive(Clone, Copy, Debug, PartialEq, Eq, Structural)]
pub enum MemScope {
    CTA,
    GPU,
    System,
}

/// The ordering of a memory operation.
#[derive(Clone, Copy, Debug, PartialEq, Eq, Structural)]
pub enum MemOrder {
    Constant,
    Weak,
    Strong(MemScope),
}

/// The address space of a memory operation.
#[derive(Clone, Copy, Debug, PartialEq, Eq, Structural)]
pub enum MemSpace {
    Global(MemAddrType),
    Local,
    Shared,
}

impl MemSpace {
    pub open spec fn addr_type_spec(self) -> MemAddrType {
        match self {
            MemSpace::Global(t) => t,
            _ => MemAddrType::A32,
        }
    }

    /// The address width of the space: local and shared memory take
    /// 32-bit addresses.
    pub fn addr_type(&self) -> (t: MemAddrType)
        ensures
            t == self.addr_type_spec(),
    {
        match self {
            MemSpace::Global(t) => *t,
            _ => MemAddrType::A32,
        }
    }
}

/// How long a cache line touched by a memory operation should stay.
#[derive(Clone, Copy, Debug, PartialEq, Eq, Structural)]
pub enum MemEvictionPriority {
    First,
    Normal,
    Last,
    Unchanged,
}

/// The properties of a load or store.
#[derive(Clone, Copy, Debug, PartialEq, Eq, Structural)]
pub struct MemAccess {
    pub mem_type: MemType,
    pub space: MemSpace,
    pub order: MemOrder,
    pub eviction_priority: MemEvictionPriority,
}

/// The dimensionality of an image.
#[derive(Clone, Copy, Debug, PartialEq, Eq, Structural)]
pub enum ImageDim {
    _1D,
    _1DBuffer,
    _1DArray,
    _2D,
    _2DArray,
    _3D,
}

/// An atomic read-modify-write operation.
#[derive(Clone, Copy, Debug, PartialEq, Eq, Structural)]
pub enum AtomOp {
    Add,
    Min,
    Max,
    Inc,
    Dec,
    And,
    Or,
    Xor,
    Exch,
    CompareExch,
}

/// The type on which an atomic operates.
#[derive(Clone, Copy, Debug, PartialEq, Eq, Structural)]
pub enum AtomType {
    F16x2,
    U32,
    I32,
    F32,
    U64,
    I64,
    F64,
}

/// The properties of an attribute load or store.
#[derive(Clone, Copy, Debug, PartialEq, Eq, Structural)]
pub struct AttrAccess {
    pub addr: u16,
    pub comps: u8,
    pub patch: bool,
    pub output: bool,
    pub phys: bool,
}

/// Where in the pixel an input is interpolated.
#[derive(Clone, Copy, Debug, PartialEq, Eq, Structural)]
pub enum InterpLoc {
    Center,
    Centroid,
    Offset,
}

/// How an input is interpolated.
#[derive(Clone, Copy, Debug, PartialEq, Eq, Structural)]
pub enum InterpFreq {
    Pass,
    PassMulW,
    Constant,
    State,
}

/// How a constant load with a register offset addresses the buffer.
#[derive(Clone, Copy, Debug, PartialEq, Eq, Structural)]
pub enum LdcMode {
    Indexed,
    IndexedLinear,
    IndexedSegmented,
    IndexedSegmentedLinear,
}

/// How a vote combines the predicates of the lanes.
#[derive(Clone, Copy, Debug, PartialEq, Eq, Structural)]
pub enum VoteOp {
    All,
    Any,
    Eq,
}

/// What a geometry output instruction does.
#[derive(Clone, Copy, Debug, PartialEq, Eq, Structural)]
pub enum OutType {
    Emit,
    Cut,
    EmitThenCut,
}

/// How a byte permute reads its selector.
#[derive(Clone, Copy, Debug, PartialEq, Eq, Structural)]
pub enum PrmtMode {
    Index,
    Forward4Extract,
    Backward4Extract,
    Replicate8,
    EdgeClampLeft,
    EdgeClampRight,
    Replicate16,
}

#[derive(Clone, Copy, Debug, PartialEq, Eq)]
pub struct OpFAdd {
    pub dst: Dst,
    pub srcs: [Src; 2],
    pub saturate: bool,
    pub rnd_mode: FRndMode,
    pub ftz: bool,
}

#[derive(Clone, Copy, Debug, PartialEq, Eq)]
pub struct OpFFma {
    pub dst: Dst,
    pub srcs: [Src; 3],
    pub saturate: bool,
    pub rnd_mode: FRndMode,
    pub ftz: bool,
    pub dnz: bool,
}

#[derive(Clone, Copy, Debug, PartialEq, Eq)]
pub struct OpFMnMx {
    pub dst: Dst,
    pub srcs: [Src; 2],
    pub min: Src,
    pub ftz: bool,
}

#[derive(Clone, Copy, Debug, PartialEq, Eq)]
pub struct OpFMul {
    pub dst: Dst,
    pub srcs: [Src; 2],
    pub saturate: bool,
    pub rnd_mode: FRndMode,
    pub ftz: bool,
    pub dnz: bool,
}

#[derive(Clone, Copy, Debug, PartialEq, Eq)]
pub struct OpRro {
    pub dst: Dst,
    pub op: RroOp,
    pub src: Src,
}

#[derive(Clone, Copy, Debug, PartialEq, Eq)]
pub struct OpMuFu {
    pub dst: Dst,
    pub op: MuFuOp,
    pub src: Src,
}

#[derive(Clone, Copy, Debug, PartialEq, Eq)]
pub struct OpFSet {
    pub dst: Dst,
    pub compare_op: FloatCompare,
    pub srcs: [Src; 2],
    pub ftz: bool,
}

#[derive(Clone, Copy, Debug, PartialEq, Eq)]
pub struct OpFSetP {
    pub dst: Dst,
    pub set_op: PredSetOp,
    pub compare_op: FloatCompare,
    pub srcs: [Src; 2],
    pub accum: Src,
    pub ftz: bool,
}

#[derive(Clone, Copy, Debug, PartialEq, Eq)]
pub struct OpFSwzAdd {
    pub dst: Dst,
    pub srcs: [Src; 2],
    pub rnd_mode: FRndMode,
    pub ftz: bool,
    pub ops: [FSwzAddOp; 4],
}

#[derive(Clone, Copy, Debug, PartialEq, Eq)]
pub struct OpDAdd {
    pub dst: Dst,
    pub srcs: [Src; 2],
    pub rnd_mode: FRndMode,
}

#[derive(Clone, Copy, Debug, PartialEq, Eq)]
pub struct OpDFma {
    pub dst: Dst,
    pub srcs: [Src; 3],
    pub rnd_mode: FRndMode,
}

#[derive(Clone, Copy, Debug, PartialEq, Eq)]
pub struct OpDMnMx {
    pub dst: Dst,
    pub srcs: [Src; 2],
    pub min: Src,
}

#[derive(Clone, Copy, Debug, PartialEq, Eq)]
pub struct OpDMul {
    pub dst: Dst,
    pub srcs: [Src; 2],
    pub rnd_mode: FRndMode,
}

#[derive(Clone, Copy, Debug, PartialEq, Eq)]
pub struct OpDSetP {
    pub dst: Dst,
    pub set_op: PredSetOp,
    pub compare_op: FloatCompare,
    pub srcs: [Src; 2],
    pub accum: Src,
}

#[derive(Clone, Copy, Debug, PartialEq, Eq)]
pub struct OpBfe {
    pub dst: Dst,
    pub base: Src,
    pub signed: bool,
    pub range: Src,
    pub reverse: bool,
}

#[derive(Clone, Copy, Debug, PartialEq, Eq)]
pub struct OpFlo {
    pub dst: Dst,
    pub src: Src,
    pub signed: bool,
    pub return_shift_amount: bool,
}

#[derive(Clone, Copy, Debug, PartialEq, Eq)]
pub struct OpIAdd2 {
    pub dst: Dst,
    pub carry_out: Dst,
    pub srcs: [Src; 2],
    pub carry_in: Src,
}

#[derive(Clone, Copy, Debug, PartialEq, Eq)]
pub struct OpIMad {
    pub dst: Dst,
    pub srcs: [Src; 3],
    pub signed: bool,
}

#[derive(Clone, Copy, Debug, PartialEq, Eq)]
pub struct OpIMul {
    pub dst: Dst,
    pub srcs: [Src; 2],
    pub signed: [bool; 2],
    pub high: bool,
}

#[derive(Clone, Copy, Debug, PartialEq, Eq)]
pub struct OpIMnMx {
    pub dst: Dst,
    pub compare_type: IntCompareType,
    pub srcs: [Src; 2],
    pub min: Src,
}

#[derive(Clone, Copy, Debug, PartialEq, Eq)]
pub struct OpISetP {
    pub dst: Dst,
    pub set_op: PredSetOp,
    pub compare_op: IntCompare,
    pub compare_type: IntCompareType,
    pub srcs: [Src; 2],
    pub accum: Src,
}

#[derive(Clone, Copy, Debug, PartialEq, Eq)]
pub struct OpLop2 {
    pub dst: Dst,
    pub srcs: [Src; 2],
    pub op: LogicOp2,
}

#[derive(Clone, Copy, Debug, PartialEq, Eq)]
pub struct OpPopC {
    pub dst: Dst,
    pub src: Src,
}

#[derive(Clone, Copy, Debug, PartialEq, Eq)]
pub struct OpShf {
    pub dst: Dst,
    pub low: Src,
    pub high: Src,
    pub shift: Src,
    pub right: bool,
    pub wrap: bool,
    pub data_type: IntType,
    pub dst_high: bool,
}

#[derive(Clone, Copy, Debug, PartialEq, Eq)]
pub struct OpShl {
    pub dst: Dst,
    pub src: Src,
    pub shift: Src,
    pub wrap: bool,
}

#[derive(Clone, Copy, Debug, PartialEq, Eq)]
pub struct OpShr {
    pub dst: Dst,
    pub src: Src,
    pub shift: Src,
    pub wrap: bool,
    pub signed: bool,
}

#[derive(Clone, Copy, Debug, PartialEq, Eq)]
pub struct OpF2F {
    pub dst: Dst,
    pub src: Src,
    pub src_type: FloatType,
    pub dst_type: FloatType,
    pub rnd_mode: FRndMode,
    pub ftz: bool,
    pub high: bool,
    pub integer_rnd: bool,
}

#[derive(Clone, Copy, Debug, PartialEq, Eq)]
pub struct OpF2I {
    pub dst: Dst,
    pub src: Src,
    pub src_type: FloatType,
    pub dst_type: IntType,
    pub rnd_mode: FRndMode,
    pub ftz: bool,
}

#[derive(Clone, Copy, Debug, PartialEq, Eq)]
pub struct OpI2F {
    pub dst: Dst,
    pub src: Src,
    pub dst_type: FloatType,
    pub src_type: IntType,
    pub rnd_mode: FRndMode,
}

#[derive(Clone, Copy, Debug, PartialEq, Eq)]
pub struct OpI2I {
    pub dst: Dst,
    pub src: Src,
    pub src_type: IntType,
    pub dst_type: IntType,
    pub saturate: bool,
    pub abs: bool,
    pub neg: bool,
}

#[derive(Clone, Copy, Debug, PartialEq, Eq)]
pub struct OpMov {
    pub dst: Dst,
    pub src: Src,
    pub quad_lanes: u8,
}

#[derive(Clone, Copy, Debug, PartialEq, Eq)]
pub struct OpPrmt {
    pub dst: Dst,
    pub srcs: [Src; 2],
    pub sel: Src,
    pub mode: PrmtMode,
}

#[derive(Clone, Copy, Debug, PartialEq, Eq)]
pub struct OpSel {
    pub dst: Dst,
    pub cond: Src,
    pub srcs: [Src; 2],
}

#[derive(Clone, Copy, Debug, PartialEq, Eq)]
pub struct OpShfl {
    pub dst: Dst,
    pub in_bounds: Dst,
    pub src: Src,
    pub lane: Src,
    pub c: Src,
    pub op: ShflOp,
}

#[derive(Clone, Copy, Debug, PartialEq, Eq)]
pub struct OpPSetP {
    pub dsts: [Dst; 2],
    pub ops: [PredSetOp; 2],
    pub srcs: [Src; 3],
}

#[derive(Clone, Copy, Debug, PartialEq, Eq)]
pub struct OpTex {
    pub dsts: [Dst; 2],
    pub fault: Dst,
    pub srcs: [Src; 2],
    pub dim: TexDim,
    pub lod_mode: TexLodMode,
    pub z_compare: bool,
    pub offset: bool,
    pub mask: u8,
}

#[derive(Clone, Copy, Debug, PartialEq, Eq)]
pub struct OpTld {
    pub dsts: [Dst; 2],
    pub fault: Dst,
    pub srcs: [Src; 2],
    pub dim: TexDim,
    pub is_ms: bool,
    pub lod_mode: TexLodMode,
    pub offset: bool,
    pub mask: u8,
}

#[derive(Clone, Copy, Debug, PartialEq, Eq)]
pub struct OpTld4 {
    pub dsts: [Dst; 2],
    pub fault: Dst,
    pub srcs: [Src; 2],
    pub dim: TexDim,
    pub comp: u8,
    pub offset_mode: Tld4OffsetMode,
    pub z_compare: bool,
    pub mask: u8,
}

#[derive(Clone, Copy, Debug, PartialEq, Eq)]
pub struct OpTmml {
    pub dsts: [Dst; 2],
    pub srcs: [Src; 2],
    pub dim: TexDim,
    pub mask: u8,
}

#[derive(Clone, Copy, Debug, PartialEq, Eq)]
pub struct OpTxd {
    pub dsts: [Dst; 2],
    pub fault: Dst,
    pub srcs: [Src; 2],
    pub dim: TexDim,
    pub offset: bool,
    pub mask: u8,
}

#[derive(Clone, Copy, Debug, PartialEq, Eq)]
pub struct OpTxq {
    pub dsts: [Dst; 2],
    pub src: Src,
    pub query: TexQuery,
    pub mask: u8,
}

#[derive(Clone, Copy, Debug, PartialEq, Eq)]
pub struct OpSuLd {
    pub dst: Dst,
    pub fault: Dst,
    pub image_dim: ImageDim,
    pub mem_order: MemOrder,
    pub mem_eviction_priority: MemEvictionPriority,
    pub mask: u8,
    pub handle: Src,
    pub coord: Src,
}

#[derive(Clone, Copy, Debug, PartialEq, Eq)]
pub struct OpSuSt {
    pub image_dim: ImageDim,
    pub mem_order: MemOrder,
    pub mem_eviction_priority: MemEvictionPriority,
    pub mask: u8,
    pub handle: Src,
    pub coord: Src,
    pub data: Src,
}

#[derive(Clone, Copy, Debug, PartialEq, Eq)]
pub struct OpSuAtom {
    pub dst: Dst,
    pub fault: Dst,
    pub image_dim: ImageDim,
    pub atom_op: AtomOp,
    pub atom_type: AtomType,
    pub mem_order: MemOrder,
    pub mem_eviction_priority: MemEvictionPriority,
    pub handle: Src,
    pub coord: Src,
    pub data: Src,
}

#[derive(Clone, Copy, Debug, PartialEq, Eq)]
pub struct OpLd {
    pub dst: Dst,
    pub addr: Src,
    pub offset: i32,
    pub access: MemAccess,
}

#[derive(Clone, Copy, Debug, PartialEq, Eq)]
pub struct OpLdc {
    pub dst: Dst,
    pub cb: Src,
    pub offset: Src,
    pub mode: LdcMode,
    pub mem_type: MemType,
}

#[derive(Clone, Copy, Debug, PartialEq, Eq)]
pub struct OpSt {
    pub addr: Src,
    pub data: Src,
    pub offset: i32,
    pub access: MemAccess,
}

#[derive(Clone, Copy, Debug, PartialEq, Eq)]
pub struct OpAtom {
    pub dst: Dst,
    pub addr: Src,
    pub compare: Src,
    pub data: Src,
    pub atom_op: AtomOp,
    pub atom_type: AtomType,
    pub addr_offset: i32,
    pub mem_space: MemSpace,
    pub mem_order: MemOrder,
    pub mem_eviction_priority: MemEvictionPriority,
}

#[derive(Clone, Copy, Debug, PartialEq, Eq)]
pub struct OpALd {
    pub dst: Dst,
    pub vtx: Src,
    pub offset: Src,
    pub access: AttrAccess,
}

#[derive(Clone, Copy, Debug, PartialEq, Eq)]
pub struct OpASt {
    pub vtx: Src,
    pub offset: Src,
    pub data: Src,
    pub access: AttrAccess,
}

#[derive(Clone, Copy, Debug, PartialEq, Eq)]
pub struct OpIpa {
    pub dst: Dst,
    pub addr: u16,
    pub freq: InterpFreq,
    pub loc: InterpLoc,
    pub inv_w: Src,
    pub offset: Src,
}

#[derive(Clone, Copy, Debug, PartialEq, Eq, Structural)]
pub struct OpMemBar {
    pub scope: MemScope,
}

#[derive(Clone, Copy, Debug, PartialEq, Eq, Structural)]
pub struct OpBra {
    pub target: Label,
}

#[derive(Clone, Copy, Debug, PartialEq, Eq, Structural)]
pub struct OpExit {}

#[derive(Clone, Copy, Debug, PartialEq, Eq, Structural)]
pub struct OpBar {}

#[derive(Clone, Copy, Debug, PartialEq, Eq)]
pub struct OpCS2R {
    pub dst: Dst,
    pub idx: u8,
}

#[derive(Clone, Copy, Debug, PartialEq, Eq)]
pub struct OpIsberd {
    pub dst: Dst,
    pub idx: Src,
}

#[derive(Clone, Copy, Debug, PartialEq, Eq, Structural)]
pub struct OpKill {}

#[derive(Clone, Copy, Debug, PartialEq, Eq)]
pub struct OpNop {
    pub label: Option<Label>,
}

#[derive(Clone, Copy, Debug, PartialEq, Eq)]
pub struct OpS2R {
    pub dst: Dst,
    pub idx: u8,
}

#[derive(Clone, Copy, Debug, PartialEq, Eq)]
pub struct OpVote {
    pub op: VoteOp,
    pub ballot: Dst,
    pub vote: Dst,
    pub pred: Src,
}

#[derive(Clone, Copy, Debug, PartialEq, Eq)]
pub struct OpOut {
    pub dst: Dst,
    pub handle: Src,
    pub stream: Src,
    pub out_type: OutType,
}

/// A plain copy; the legalizer emits these to move a source into a
/// register.  It is lowered before encoding.
#[derive(Clone, Copy, Debug, PartialEq, Eq)]
pub struct OpCopy {
    pub dst: Dst,
    pub src: Src,
}

/// Any operation.
#[derive(Clone, Copy, Debug, PartialEq, Eq)]
pub enum Op {
    FAdd(OpFAdd),
    FFma(OpFFma),
    FMnMx(OpFMnMx),
    FMul(OpFMul),
    Rro(OpRro),
    MuFu(OpMuFu),
    FSet(OpFSet),
    FSetP(OpFSetP),
    FSwzAdd(OpFSwzAdd),
    DAdd(OpDAdd),
    DFma(OpDFma),
    DMnMx(OpDMnMx),
    DMul(OpDMul),
    DSetP(OpDSetP),
    Bfe(OpBfe),
    Flo(OpFlo),
    IAdd2(OpIAdd2),
    IMad(OpIMad),
    IMul(OpIMul),
    IMnMx(OpIMnMx),
    ISetP(OpISetP),
    Lop2(OpLop2),
    PopC(OpPopC),
    Shf(OpShf),
    Shl(OpShl),
    Shr(OpShr),
    F2F(OpF2F),
    F2I(OpF2I),
    I2F(OpI2F),
    I2I(OpI2I),
    Mov(OpMov),
    Prmt(OpPrmt),
    Sel(OpSel),
    Shfl(OpShfl),
    PSetP(OpPSetP),
    Tex(OpTex),
    Tld(OpTld),
    Tld4(OpTld4),
    Tmml(OpTmml),
    Txd(OpTxd),
    Txq(OpTxq),
    SuLd(OpSuLd),
    SuSt(OpSuSt),
    SuAtom(OpSuAtom),
    Ld(OpLd),
    Ldc(OpLdc),
    St(OpSt),
    Atom(OpAtom),
    ALd(OpALd),
    ASt(OpASt),
    Ipa(OpIpa),
    MemBar(OpMemBar),
    Bra(OpBra),
    Exit(OpExit),
    Bar(OpBar),
    CS2R(OpCS2R),
    Isberd(OpIsberd),
    Kill(OpKill),
    Nop(OpNop),
    S2R(OpS2R),
    Vote(OpVote),
    Out(OpOut),
    Copy(OpCopy),
}

/// One instruction: an operation, its guard and its scheduling data.
#[derive(Clone, Copy, Debug, PartialEq, Eq)]
pub struct Instr {
    pub pred: Pred,
    pub op: Op,
    pub deps: InstrDeps,
}

impl Instr {
    /// The unguarded instruction that performs `op`, with no scheduling
    /// data yet.
    pub open spec fn of_op(op: Op) -> Instr {
        Instr {
            pred: Pred { pred_ref: crate::ir::PredRef::Always, pred_inv: false },
            op,
            deps: InstrDeps::new_spec(),
        }
    }

    /// Wraps an operation into an unguarded instruction.
    pub fn new(op: Op) -> (i: Instr)
        ensures
            i == Self::of_op(op),
    {
        Instr { pred: Pred::always(), op, deps: InstrDeps::new() }
    }
}

/// A basic block: a label and the instructions that run in order when
/// control reaches it.
#[derive(Clone, Debug, PartialEq, Eq)]
pub struct BasicBlock {
    pub label: Label,
    pub instrs: Vec<Instr>,
}

/// A function: its blocks in program order.
#[derive(Clone, Debug, PartialEq, Eq)]
pub struct Function {
    pub blocks: Vec<BasicBlock>,
}

/// A shader: its functions.
#[derive(Clone, Debug, PartialEq, Eq)]
pub struct Shader {
    pub functions: Vec<Function>,
}

} // verus!
