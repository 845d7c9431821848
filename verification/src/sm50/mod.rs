//! The Maxwell/Pascal shader model: register limits, operand
//! legalization, and the encoder that turns legal instructions into the
//! hardware's fixed-width binary form.

pub mod alu_float;
pub mod alu_int;
pub mod control;
pub mod convert;
pub mod encoder;
pub mod legalize_ops;
pub mod mem;
pub mod shader;
pub mod tex;

use crate::ir::{REG_MAX_IDX, RegFile};
use crate::legalize::{BuilderState, LegalizeBuilder};
use crate::sm50::encoder::{EncodeState, SM50Encoder};
use vstd::prelude::*;

verus! {

/// What every operation of the family offers: the rewrite that makes
/// it encodable, and its binary encoding.
pub trait SM50Op: Sized {
    /// The operation is in a form that legalization takes: its sources
    /// are in SSA form, and the builder `b` has the values to hand out
    /// that the rewrite may need.
    spec fn can_legalize(&self, b: BuilderState) -> bool;

    /// Whether the operation is in a form that legalization takes.
    fn legalizable(&self, b: &LegalizeBuilder) -> (r: bool)
        ensures
            r == self.can_legalize(b@),
    ;

    /// The operation and the builder after legalization.
    spec fn legalized(&self, b: BuilderState) -> (Self, BuilderState);

    /// The operation has the shape that legalization establishes, as
    /// far as it shows before registers are assigned.
    spec fn is_legal(&self) -> bool;

    /// Rewrites the operation so that the encoder can represent it,
    /// emitting through `b` the copies that this takes.
    fn legalize(&mut self, b: &mut LegalizeBuilder)
        requires
            old(self).can_legalize(old(b)@),
        ensures
            (*final(self), final(b)@) == old(self).legalized(old(b)@),
            final(self).is_legal(),
    ;

    /// The operation is in the form that the encoder can represent, and
    /// an encoder in state `e` can take it.
    spec fn can_encode(&self, e: EncodeState) -> bool;

    /// The instruction word after the operation is written by an
    /// encoder in state `e`.
    spec fn encoded(&self, e: EncodeState) -> u64;

    /// Whether an encoder in the state of `e` can take the operation.
    fn encodable(&self, e: &SM50Encoder<'_>) -> (r: bool)
        ensures
            r == self.can_encode(e.state()),
    ;

    /// Writes the operation into the instruction word.
    fn encode(&self, e: &mut SM50Encoder<'_>)
        requires
            self.can_encode(old(e).state()),
        ensures
            final(e).word() == self.encoded(old(e).state()),
            final(e).same_context(*old(e)),
    ;
}

/// A shader model number of the Maxwell/Pascal family: 50 to 69.
#[derive(Clone, Copy, Debug, PartialEq, Eq, Structural)]
pub struct ShaderModel50 {
    pub sm: u8,
}

impl ShaderModel50 {
    /// The number names a model of this family.
    pub open spec fn wf(self) -> bool {
        50 <= self.sm < 70
    }

    pub open spec fn num_regs_spec(file: RegFile) -> u32 {
        match file {
            RegFile::GPR => 255,
            RegFile::Pred => 7,
            RegFile::Carry => 1,
            RegFile::Mem => (REG_MAX_IDX + 1) as u32,
            _ => 0,
        }
    }

    pub fn new(sm: u8) -> (m: ShaderModel50)
        requires
            50 <= sm < 70,
        ensures
            m.sm == sm,
            m.wf(),
    {
        ShaderModel50 { sm }
    }

    pub fn sm(&self) -> (n: u8)
        ensures
            n == self.sm,
    {
        self.sm
    }

    /// How many registers of a file an instruction may name.  The
    /// family has no uniform and no barrier registers.
    pub fn num_regs(&self, file: RegFile) -> (n: u32)
        ensures
            n == Self::num_regs_spec(file),
    {
        match file {
            RegFile::GPR => 255,
            RegFile::Pred => 7,
            RegFile::Carry => 1,
            RegFile::Mem => REG_MAX_IDX + 1,
            _ => 0,
        }
    }
}

} // verus!
