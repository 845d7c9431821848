//! The legalization rules of the family, one per operation: what each
//! rewrites so that its encoder can represent it.
//!
//! The arithmetic operations take a register as their first source and
//! have short forms for an immediate or a constant buffer as their
//! second; what does not fit is copied into a register first.  The
//! operations of external units take registers only and are checked,
//! not rewritten.

use crate::ir::{RegFile, Src, SrcMod, SrcRef, SrcType};
use crate::legalize::{
    BuilderState, check_copy_ok, check_src_ready, copy_if, copy_ok, in_ssa_form, LegalizeBuilder,
    lemma_copy_is_reg, lemma_lowered_is_reg, lower_fmod_spec, src_is_reg, src_is_reg_spec,
    src_ready, src_type_comps, swap_srcs_if_not_reg, swapped,
};
use vstd::prelude::*;

verus! {

/// Which immediates a source may keep.
#[derive(Clone, Copy, Debug, PartialEq, Eq, Structural)]
pub enum ImmRule {
    /// Any immediate: the encoder has a form with all 32 bits.
    Any,
    /// Those that fit 20 signed bits.
    I20,
    /// Floats whose low 12 bits are zero.
    F20,
}

/// The source is an immediate that the rule does not let it keep.
pub open spec fn imm_overflows(src: Src, rule: ImmRule) -> bool {
    match rule {
        ImmRule::Any => false,
        ImmRule::I20 => src.imm_not_i20_spec() is Some,
        ImmRule::F20 => src.imm_not_f20_spec() is Some,
    }
}

/// Lowering the absolute value of `src`, where it has one.
pub open spec fn lower_if_fabs(b: BuilderState, src: Src, src_type: SrcType) -> (
    BuilderState,
    Src,
) {
    if src.src_mod.fabs_spec() {
        lower_fmod_spec(b, src, src_type)
    } else {
        (b, src)
    }
}

/// The rewrites that only this family needs.
pub trait SM50LegalizeBuildHelpers {
    /// The builder as plain values.
    spec fn state(&self) -> BuilderState;

    /// Computes the source into a register if it takes an absolute
    /// value: the multiply-add encodings have no flag for one.
    fn copy_alu_src_if_fabs(&mut self, src: &mut Src, src_type: SrcType)
        requires
            old(src).src_mod.is_float(),
            src_type == SrcType::F32 || src_type == SrcType::F64,
            old(src).src_mod.fabs_spec() ==> old(self).state().has_room(
                src_type_comps(src_type) as nat,
            ),
        ensures
            (final(self).state(), *final(src)) == lower_if_fabs(
                old(self).state(),
                *old(src),
                src_type,
            ),
            !final(src).src_mod.fabs_spec(),
            final(src).src_mod.is_float(),
            old(src).src_mod.fabs_spec() ==> src_is_reg_spec(*final(src), RegFile::GPR),
            in_ssa_form(*old(src)) ==> in_ssa_form(*final(src)),
            src_ready(*old(src)) ==> src_ready(*final(src)),
            old(self).state().ssa_count <= final(self).state().ssa_count <= old(
                self,
            ).state().ssa_count + src_type_comps(src_type),
    ;

    /// Copies the source into a register if it is an immediate that
    /// does not fit 20 signed bits.
    fn copy_alu_src_if_i20_overflow(&mut self, src: &mut Src, reg_file: RegFile, src_type: SrcType)
        requires
            old(src).imm_unmodified(),
            old(src).imm_not_i20_spec() is Some ==> copy_ok(*old(src), src_type) && old(
                self,
            ).state().has_room(src_type_comps(src_type) as nat),
        ensures
            (final(self).state(), *final(src)) == copy_if(
                old(src).imm_not_i20_spec() is Some,
                old(self).state(),
                *old(src),
                reg_file,
                src_type,
            ),
            final(src).imm_not_i20_spec() is None,
            final(src).src_mod == old(src).src_mod,
            src_is_reg_spec(*old(src), reg_file) ==> src_is_reg_spec(*final(src), reg_file),
            src_ready(*old(src)) ==> src_ready(*final(src)),
            old(self).state().ssa_count <= final(self).state().ssa_count <= old(
                self,
            ).state().ssa_count + src_type_comps(src_type),
    ;

    /// Copies the source into a register if it is an immediate float
    /// with low bits set.
    fn copy_alu_src_if_f20_overflow(&mut self, src: &mut Src, reg_file: RegFile, src_type: SrcType)
        requires
            old(src).imm_unmodified(),
            old(src).imm_not_f20_spec() is Some ==> copy_ok(*old(src), src_type) && old(
                self,
            ).state().has_room(src_type_comps(src_type) as nat),
        ensures
            (final(self).state(), *final(src)) == copy_if(
                old(src).imm_not_f20_spec() is Some,
                old(self).state(),
                *old(src),
                reg_file,
                src_type,
            ),
            final(src).imm_not_f20_spec() is None,
            final(src).src_mod == old(src).src_mod,
            src_is_reg_spec(*old(src), reg_file) ==> src_is_reg_spec(*final(src), reg_file),
            src_ready(*old(src)) ==> src_ready(*final(src)),
            old(self).state().ssa_count <= final(self).state().ssa_count <= old(
                self,
            ).state().ssa_count + src_type_comps(src_type),
    ;
}

impl SM50LegalizeBuildHelpers for LegalizeBuilder {
    open spec fn state(&self) -> BuilderState {
        self@
    }

    fn copy_alu_src_if_fabs(&mut self, src: &mut Src, src_type: SrcType) {
        if src.src_mod.has_fabs() {
            proof {
                lemma_lowered_is_reg(self@, *src, src_type);
                crate::legalize::lemma_next_ref_file(
                    self@,
                    RegFile::GPR,
                    src_type_comps(src_type),
                );
            }
            self.copy_alu_src_and_lower_fmod(src, src_type);
        }
    }

    fn copy_alu_src_if_i20_overflow(&mut self, src: &mut Src, reg_file: RegFile, src_type: SrcType) {
        assert(self.state() == self@);
        if src.as_imm_not_i20().is_some() {
            proof {
                assert(src.imm_not_i20_spec() is Some);
                assert(self@.has_room(src_type_comps(src_type) as nat));
                lemma_copy_is_reg(self@, *src, reg_file, src_type);
                crate::legalize::lemma_next_ref_file(self@, reg_file, src_type_comps(src_type));
            }
            self.copy_alu_src(src, reg_file, src_type);
        }
    }

    fn copy_alu_src_if_f20_overflow(&mut self, src: &mut Src, reg_file: RegFile, src_type: SrcType) {
        assert(self.state() == self@);
        if src.as_imm_not_f20().is_some() {
            proof {
                assert(src.imm_not_f20_spec() is Some);
                assert(self@.has_room(src_type_comps(src_type) as nat));
                lemma_copy_is_reg(self@, *src, reg_file, src_type);
                crate::legalize::lemma_next_ref_file(self@, reg_file, src_type_comps(src_type));
            }
            self.copy_alu_src(src, reg_file, src_type);
        }
    }
}

/// The first source of a pair after the exchange that puts a register
/// first.
pub open spec fn first_after_swap(s0: Src, s1: Src) -> Src {
    if swapped(s0, s1, RegFile::GPR) {
        s1
    } else {
        s0
    }
}

/// The second source of a pair after the exchange.
pub open spec fn second_after_swap(s0: Src, s1: Src) -> Src {
    if swapped(s0, s1, RegFile::GPR) {
        s0
    } else {
        s1
    }
}

/// The source is a register of the wanted file already, or can be
/// copied into one.
pub open spec fn reg_or_copy_ok(b: BuilderState, src: Src, src_type: SrcType) -> bool {
    src_ready(src) && (src_is_reg_spec(src, RegFile::GPR) || (copy_ok(src, src_type)
        && b.has_room(src_type_comps(src_type) as nat)))
}

/// The source keeps its immediate, or can be copied into a register.
pub open spec fn imm_or_copy_ok(b: BuilderState, src: Src, src_type: SrcType, rule: ImmRule) -> bool {
    rule != ImmRule::Any ==> src.imm_unmodified() && (imm_overflows(src, rule) ==> copy_ok(
        src,
        src_type,
    ) && b.has_room(src_type_comps(src_type) as nat))
}

/// A register copy of `src` unless it is a register.
pub open spec fn to_reg(b: BuilderState, src: Src, src_type: SrcType) -> (BuilderState, Src) {
    copy_if(!src_is_reg_spec(src, RegFile::GPR), b, src, RegFile::GPR, src_type)
}

/// A register copy of `src` if it is an immediate that the rule does
/// not let it keep.
pub open spec fn fit_imm(b: BuilderState, src: Src, src_type: SrcType, rule: ImmRule) -> (
    BuilderState,
    Src,
) {
    copy_if(imm_overflows(src, rule), b, src, RegFile::GPR, src_type)
}

/// A pair of sources of a commutative operation can be legalized.
pub open spec fn binary_ok(
    b: BuilderState,
    s0: Src,
    s1: Src,
    src_type: SrcType,
    rule: ImmRule,
) -> bool {
    &&& src_ready(s0)
    &&& src_ready(s1)
    &&& reg_or_copy_ok(b, first_after_swap(s0, s1), src_type)
    &&& imm_or_copy_ok(
        to_reg(b, first_after_swap(s0, s1), src_type).0,
        second_after_swap(s0, s1),
        src_type,
        rule,
    )
}

/// The builder and the two sources of a commutative operation after
/// legalization: a register is put first if there is one, else the
/// first source is copied into one; and the second source is copied
/// if it is an immediate that does not fit.
pub open spec fn binary_spec(
    b: BuilderState,
    s0: Src,
    s1: Src,
    src_type: SrcType,
    rule: ImmRule,
) -> (BuilderState, Src, Src) {
    let (b1, x) = to_reg(b, first_after_swap(s0, s1), src_type);
    let (b2, y) = fit_imm(b1, second_after_swap(s0, s1), src_type, rule);
    (b2, x, y)
}

/// What holds of a pair of sources after legalization: the first is a
/// register, and the second is no immediate that does not fit.
pub open spec fn binary_legal(s0: Src, s1: Src, rule: ImmRule) -> bool {
    src_is_reg_spec(s0, RegFile::GPR) && !imm_overflows(s1, rule)
}

impl LegalizeBuilder {
    /// Copies the source into a general-purpose register unless it is
    /// one.
    pub fn src_to_reg(&mut self, src: &mut Src, src_type: SrcType)
        requires
            reg_or_copy_ok(old(self)@, *old(src), src_type),
        ensures
            (final(self)@, *final(src)) == to_reg(old(self)@, *old(src), src_type),
            src_is_reg_spec(*final(src), RegFile::GPR),
            src_ready(*final(src)),
            final(src).src_mod == old(src).src_mod,
            old(self)@.ssa_count <= final(self)@.ssa_count <= old(self)@.ssa_count
                + src_type_comps(src_type),
    {
        proof {
            crate::legalize::lemma_next_ref_file(self@, RegFile::GPR, src_type_comps(src_type));
            if !src_is_reg_spec(*src, RegFile::GPR) {
                lemma_copy_is_reg(self@, *src, RegFile::GPR, src_type);
            }
        }
        self.copy_alu_src_if_not_reg(src, RegFile::GPR, src_type);
    }

    /// Copies the source into a general-purpose register if it is an
    /// immediate that the rule does not let it keep.
    pub fn src_fit_imm(&mut self, src: &mut Src, src_type: SrcType, rule: ImmRule)
        requires
            imm_or_copy_ok(old(self)@, *old(src), src_type, rule),
        ensures
            (final(self)@, *final(src)) == fit_imm(old(self)@, *old(src), src_type, rule),
            !imm_overflows(*final(src), rule),
            final(src).src_mod == old(src).src_mod,
            src_is_reg_spec(*old(src), RegFile::GPR) ==> src_is_reg_spec(
                *final(src),
                RegFile::GPR,
            ),
            src_ready(*old(src)) ==> src_ready(*final(src)),
            old(self)@.ssa_count <= final(self)@.ssa_count <= old(self)@.ssa_count
                + src_type_comps(src_type),
    {
        match rule {
            ImmRule::Any => {},
            ImmRule::I20 => self.copy_alu_src_if_i20_overflow(src, RegFile::GPR, src_type),
            ImmRule::F20 => self.copy_alu_src_if_f20_overflow(src, RegFile::GPR, src_type),
        }
    }

    /// Legalizes the two sources of a commutative operation; says
    /// whether they changed places.
    pub fn legalize_binary(
        &mut self,
        s0: &mut Src,
        s1: &mut Src,
        src_type: SrcType,
        rule: ImmRule,
    ) -> (r: bool)
        requires
            binary_ok(old(self)@, *old(s0), *old(s1), src_type, rule),
        ensures
            r == swapped(*old(s0), *old(s1), RegFile::GPR),
            (final(self)@, *final(s0), *final(s1)) == binary_spec(
                old(self)@,
                *old(s0),
                *old(s1),
                src_type,
                rule,
            ),
            binary_legal(*final(s0), *final(s1), rule),
            src_ready(*final(s0)),
            src_ready(*final(s1)),
            final(s0).src_mod == first_after_swap(*old(s0), *old(s1)).src_mod,
            final(s1).src_mod == second_after_swap(*old(s0), *old(s1)).src_mod,
            old(self)@.ssa_count <= final(self)@.ssa_count <= old(self)@.ssa_count + 2
                * src_type_comps(src_type),
    {
        let r = swap_srcs_if_not_reg(s0, s1, RegFile::GPR);
        self.src_to_reg(s0, src_type);
        self.src_fit_imm(s1, src_type, rule);
        r
    }
}

/// The source is ready to be made a register: it is one, or it can be
/// copied.
pub open spec fn copyable(src: Src, src_type: SrcType) -> bool {
    src_ready(src) && (src_is_reg_spec(src, RegFile::GPR) || copy_ok(src, src_type))
}

/// The source is ready to be held to an immediate rule.
pub open spec fn imm_ruled(src: Src, src_type: SrcType, rule: ImmRule) -> bool {
    rule != ImmRule::Any ==> src.imm_unmodified() && (imm_overflows(src, rule) ==> copy_ok(
        src,
        src_type,
    ))
}

/// A register copy of `src` unless it is a register or an immediate.
pub open spec fn to_reg_or_imm(b: BuilderState, src: Src, src_type: SrcType) -> (
    BuilderState,
    Src,
) {
    copy_if(
        !src_is_reg_spec(src, RegFile::GPR) && !(src.src_ref is Imm32),
        b,
        src,
        RegFile::GPR,
        src_type,
    )
}

/// A register copy of `src` if it is an immediate.
pub open spec fn imm_to_reg(b: BuilderState, src: Src, src_type: SrcType) -> (BuilderState, Src) {
    copy_if(src.src_ref is Imm32, b, src, RegFile::GPR, src_type)
}

impl LegalizeBuilder {
    /// Copies the source into a general-purpose register unless it is
    /// one or an immediate.
    pub fn src_to_reg_or_imm(&mut self, src: &mut Src, src_type: SrcType)
        requires
            src_ready(*old(src)),
            src_is_reg_spec(*old(src), RegFile::GPR) || old(src).src_ref is Imm32 || (copy_ok(
                *old(src),
                src_type,
            ) && old(self)@.has_room(src_type_comps(src_type) as nat)),
        ensures
            (final(self)@, *final(src)) == to_reg_or_imm(old(self)@, *old(src), src_type),
            src_is_reg_spec(*final(src), RegFile::GPR) || final(src).src_ref is Imm32,
            final(src).src_mod == old(src).src_mod,
            old(self)@.ssa_count <= final(self)@.ssa_count <= old(self)@.ssa_count
                + src_type_comps(src_type),
    {
        proof {
            if !src_is_reg_spec(*src, RegFile::GPR) && !(src.src_ref is Imm32) {
                lemma_copy_is_reg(self@, *src, RegFile::GPR, src_type);
            }
        }
        self.copy_alu_src_if_not_reg_or_imm(src, RegFile::GPR, src_type);
    }

    /// Copies the source into a general-purpose register if it is an
    /// immediate.
    pub fn src_imm_to_reg(&mut self, src: &mut Src, src_type: SrcType)
        requires
            old(src).src_ref is Imm32 ==> copy_ok(*old(src), src_type) && old(self)@.has_room(
                src_type_comps(src_type) as nat,
            ),
        ensures
            (final(self)@, *final(src)) == imm_to_reg(old(self)@, *old(src), src_type),
            !(final(src).src_ref is Imm32),
            final(src).src_mod == old(src).src_mod,
            old(self)@.ssa_count <= final(self)@.ssa_count <= old(self)@.ssa_count
                + src_type_comps(src_type),
    {
        proof {
            if src.src_ref is Imm32 {
                lemma_copy_is_reg(self@, *src, RegFile::GPR, src_type);
            }
        }
        self.copy_alu_src_if_imm(src, RegFile::GPR, src_type);
    }
}

/// The number of 32-bit components of a value of a source type.
pub fn comps_of(src_type: SrcType) -> (c: u32)
    ensures
        c == src_type_comps(src_type),
{
    match src_type {
        SrcType::F64 => 2,
        _ => 1,
    }
}

/// Whether a source is an immediate that a rule does not let it keep.
pub fn check_imm_overflows(src: &Src, rule: ImmRule) -> (r: bool)
    ensures
        r == imm_overflows(*src, rule),
{
    match rule {
        ImmRule::Any => false,
        ImmRule::I20 => match src.src_ref {
            SrcRef::Imm32(i) => !Src::fits_i20(i),
            _ => false,
        },
        ImmRule::F20 => match src.src_ref {
            SrcRef::Imm32(i) => !Src::fits_f20(i),
            _ => false,
        },
    }
}

/// Whether a source is a register or can be copied into one.
pub fn check_copyable(src: &Src, src_type: SrcType) -> (r: bool)
    ensures
        r == copyable(*src, src_type),
{
    check_src_ready(src) && (src_is_reg(src, RegFile::GPR) || check_copy_ok(src, src_type))
}

/// Whether a source can be held to an immediate rule.
pub fn check_imm_ruled(src: &Src, src_type: SrcType, rule: ImmRule) -> (r: bool)
    ensures
        r == imm_ruled(*src, src_type, rule),
{
    match rule {
        ImmRule::Any => true,
        _ => src.is_imm_unmodified() && (!check_imm_overflows(src, rule) || check_copy_ok(
            src,
            src_type,
        )),
    }
}

/// Whether a source is a register, an immediate, or can be copied.
pub fn check_reg_imm_or_copy(src: &Src, src_type: SrcType) -> (r: bool)
    ensures
        r == (src_ready(*src) && (src_is_reg_spec(*src, RegFile::GPR) || src.src_ref is Imm32
            || copy_ok(*src, src_type))),
{
    check_src_ready(src) && (src_is_reg(src, RegFile::GPR) || matches!(src.src_ref, SrcRef::Imm32(_))
        || check_copy_ok(src, src_type))
}

/// Whether legalizing a commutative pair exchanges its sources.
pub fn check_swapped(s0: &Src, s1: &Src) -> (r: bool)
    requires
        src_ready(*s0),
        src_ready(*s1),
    ensures
        r == swapped(*s0, *s1, RegFile::GPR),
{
    !src_is_reg(s0, RegFile::GPR) && src_is_reg(s1, RegFile::GPR)
}

impl LegalizeBuilder {
    /// Whether a pair of sources of a commutative operation can be
    /// legalized.
    pub fn check_binary_ok(&self, s0: &Src, s1: &Src, src_type: SrcType, rule: ImmRule) -> (r:
        bool)
        ensures
            r == binary_ok(self@, *s0, *s1, src_type, rule),
    {
        if !check_src_ready(s0) || !check_src_ready(s1) {
            return false;
        }
        let comps: u32 = comps_of(src_type);
        let swap = check_swapped(s0, s1);
        let first: &Src = if swap {
            s1
        } else {
            s0
        };
        let second: &Src = if swap {
            s0
        } else {
            s1
        };
        let first_is_reg = src_is_reg(first, RegFile::GPR);
        if !first_is_reg && !(check_copy_ok(first, src_type) && self.room_for(comps)) {
            return false;
        }
        proof {
            if !first_is_reg {
                lemma_copy_is_reg(self@, *first, RegFile::GPR, src_type);
            }
        }
        match rule {
            ImmRule::Any => true,
            _ => {
                let taken: u32 = if first_is_reg {
                    0
                } else {
                    comps
                };
                second.is_imm_unmodified() && (!check_imm_overflows(second, rule) || (check_copy_ok(
                    second,
                    src_type,
                ) && self.room_for(taken + comps)))
            },
        }
    }
}

/// What lowering an absolute value leaves: a source without one is
/// untouched, and a source with one becomes an unmodified register.
pub proof fn lemma_lower_if_fabs(b: BuilderState, src: Src, src_type: SrcType)
    requires
        b.has_room(src_type_comps(src_type) as nat),
        src_ready(src),
    ensures
        b.ssa_count <= lower_if_fabs(b, src, src_type).0.ssa_count <= b.ssa_count + src_type_comps(
            src_type,
        ),
        src_ready(lower_if_fabs(b, src, src_type).1),
        !src.src_mod.fabs_spec() ==> lower_if_fabs(b, src, src_type) == (b, src),
        src.src_mod.fabs_spec() ==> src_is_reg_spec(
            lower_if_fabs(b, src, src_type).1,
            RegFile::GPR,
        ) && lower_if_fabs(b, src, src_type).1.src_mod == SrcMod::Plain,
{
    if src.src_mod.fabs_spec() {
        lemma_lowered_is_reg(b, src, src_type);
        crate::legalize::lemma_next_ref_file(b, RegFile::GPR, src_type_comps(src_type));
    }
}

} // verus!
