use gpu_backend::bitview::{check_fits, check_fits_signed};
use gpu_backend::extent::{Extent4D, Format, Offset4D, SampleLayout, Tiling};
use gpu_backend::ir::{
    CBuf, CBufRef, Dst, InstrDeps, Label, Pred, PredRef, RegFile, RegRef, SSARef, SSAValue, Src,
    SrcMod, SrcRef, SrcType,
};
use gpu_backend::kernel::args::{
    AddressQualifier, InternalKernelArg, InternalKernelArgType, KernelArg, KernelArgType,
    SPIRVKernelArg,
};
use gpu_backend::kernel::kernel::{ComputeStateInfo, Device, Kernel, KernelInfo, NirKernelBuild};
use gpu_backend::kernel::launch::{
    check_bindings_ordered, check_images_wf, check_internals_ok, ImageRef, KernelArgValue,
};
use gpu_backend::kernel::lower::{
    check_inline_samplers, check_locations, check_params_have_vars, InlineSampler, NirVariable,
};
use gpu_backend::legalize::{check_copy_ok, check_ext_src, check_src_ready, LegalizeBuilder};
use gpu_backend::ops::{
    AtomOp, AtomType, BasicBlock, FRndMode, Function, Instr, LogicOp2, MemEvictionPriority,
    MemOrder, MemSpace, MuFuOp, Op, OpAtom, OpBra, OpCopy, OpDAdd, OpExit, OpFAdd, OpLop2,
    OpMuFu, Shader,
};
use gpu_backend::sm50::encoder::{check_deps, check_pred, check_rel_offset, SM50Encoder};
use gpu_backend::sm50::shader::{
    can_encode_shader, check_labels_distinct, compute_labels, function_size, instr_encodable,
    op_encodable,
};
use gpu_backend::sm50::{SM50Op, ShaderModel50};
use std::collections::HashMap;

fn gpr(idx: u32) -> Src {
    Src::from_reg(RegRef::new(RegFile::GPR, idx, 1))
}

fn gpr_ssa(idx: u32) -> Src {
    Src::from_ssa(SSARef::from_value(SSAValue { file: RegFile::GPR, idx }))
}

fn fadd(dst: Dst, s0: Src, s1: Src) -> OpFAdd {
    OpFAdd { dst, srcs: [s0, s1], saturate: false, rnd_mode: FRndMode::NearestEven, ftz: false }
}

#[test]
fn fields_that_fit() {
    assert!(check_fits(0xff, 8, 16));
    assert!(!check_fits(0x100, 8, 16));
    assert!(check_fits(u64::MAX, 0, 64));
    assert!(check_fits_signed(-0x80_0000, 20, 44));
    assert!(check_fits_signed(0x7f_ffff, 20, 44));
    assert!(!check_fits_signed(0x80_0000, 20, 44));
    assert!(!check_fits_signed(-0x80_0001, 20, 44));
    assert!(check_fits_signed(i64::MIN, 0, 64));
    assert!(check_rel_offset(8, 40, 20, 44));
    assert!(check_rel_offset(0x7fff_ffff, 0x7fff_ffff - 0x7f_fff8, 20, 44));
    assert!(!check_rel_offset(0, 0x80_0008, 20, 44));
    assert!(check_rel_offset(0, 0x80_0007, 20, 44));
    // a narrower field holds less, a wider one more
    assert!(check_rel_offset(0, 8 + 127, 0, 8));
    assert!(!check_rel_offset(0, 8 + 128, 0, 8));
    assert!(check_rel_offset(0x100, 0, 0, 16));
    assert!(check_rel_offset(0, 0x7fff_ffff, 0, 32));
}

#[test]
fn what_the_encoder_takes() {
    let labels = HashMap::new();
    let e = SM50Encoder::new(50, 8, &labels);
    let dst = Dst::Reg(RegRef::new(RegFile::GPR, 1, 1));
    assert!(fadd(dst, gpr(2), gpr(3)).encodable(&e));
    // the first source must be a register
    assert!(!fadd(dst, Src::new_imm_u32(1), gpr(3)).encodable(&e));
    // registers are assigned before encoding
    assert!(!fadd(dst, gpr_ssa(2), gpr(3)).encodable(&e));
    assert!(!fadd(Dst::SSA(SSARef::from_value(SSAValue { file: RegFile::GPR, idx: 1 })), gpr(2), gpr(3)).encodable(&e));
    // a register past what 8 bits name, or of another file
    assert!(!fadd(dst, Src::from_reg(RegRef::new(RegFile::GPR, 256, 1)), gpr(3)).encodable(&e));
    assert!(!fadd(dst, Src::from_reg(RegRef::new(RegFile::Pred, 2, 1)), gpr(3)).encodable(&e));
    // an integer modifier on a float operation
    assert!(!fadd(dst, Src { src_ref: gpr(2).src_ref, src_mod: SrcMod::INeg }, gpr(3)).encodable(&e));
    // a constant buffer at an odd offset, in a slot past 31, or unbound
    let cb = |buf, offset| Src::from_cbuf(CBufRef { buf, offset });
    assert!(fadd(dst, gpr(2), cb(CBuf::Binding(31), 4)).encodable(&e));
    assert!(!fadd(dst, gpr(2), cb(CBuf::Binding(31), 6)).encodable(&e));
    assert!(!fadd(dst, gpr(2), cb(CBuf::Binding(32), 4)).encodable(&e));
    assert!(!fadd(dst, gpr(2), cb(CBuf::BindlessUGPR(RegRef::new(RegFile::UGPR, 0, 2)), 4)).encodable(&e));
    // the long logic form cannot pass its second source through
    let lop = |op, imm| OpLop2 { dst, srcs: [gpr(1), Src::new_imm_u32(imm)], op };
    assert!(lop(LogicOp2::PassB, 0x7_ffff).encodable(&e));
    assert!(!lop(LogicOp2::PassB, 0x8_0000).encodable(&e));
    assert!(lop(LogicOp2::And, 0x8_0000).encodable(&e));
    // the square root needs model 52
    let sqrt = OpMuFu { dst, op: MuFuOp::Sqrt, src: gpr(1) };
    assert!(!sqrt.encodable(&e));
    assert!(sqrt.encodable(&SM50Encoder::new(52, 8, &labels)));
    assert!(!OpMuFu { dst, op: MuFuOp::Tanh, src: gpr(1) }.encodable(&SM50Encoder::new(61, 8, &labels)));
    // atomics: no local memory, no compare-and-exchange, offsets in words
    let atom = |atom_op, mem_space, addr_offset| OpAtom {
        dst,
        addr: gpr(2),
        compare: Src::new_zero(),
        data: gpr(3),
        atom_op,
        atom_type: AtomType::U32,
        addr_offset,
        mem_space,
        mem_order: MemOrder::Weak,
        mem_eviction_priority: MemEvictionPriority::Normal,
    };
    assert!(atom(AtomOp::Add, MemSpace::Shared, -8).encodable(&e));
    assert!(!atom(AtomOp::Add, MemSpace::Shared, -6).encodable(&e));
    assert!(!atom(AtomOp::Add, MemSpace::Local, 0).encodable(&e));
    assert!(!atom(AtomOp::CompareExch, MemSpace::Shared, 0).encodable(&e));
    assert!(!op_encodable(&Op::Copy(OpCopy { dst, src: gpr(1) }), &e));
}

#[test]
fn branches_need_a_label() {
    let mut labels = HashMap::new();
    let bra = OpBra { target: Label { idx: 4 } };
    assert!(!bra.encodable(&SM50Encoder::new(50, 8, &labels)));
    labels.insert(4, 0x100);
    assert!(bra.encodable(&SM50Encoder::new(50, 8, &labels)));
    labels.insert(4, 0x4000_0000);
    assert!(!bra.encodable(&SM50Encoder::new(50, 8, &labels)));
}

#[test]
fn guards_and_scheduling_data() {
    let p = |pred_ref, pred_inv| Pred { pred_ref, pred_inv };
    assert!(check_pred(&p(PredRef::Always, false)));
    assert!(!check_pred(&p(PredRef::Always, true)));
    assert!(check_pred(&p(PredRef::Reg(RegRef::new(RegFile::Pred, 6, 1)), true)));
    assert!(!check_pred(&p(PredRef::Reg(RegRef::new(RegFile::Pred, 8, 1)), false)));
    assert!(!check_pred(&p(PredRef::SSA(SSAValue { file: RegFile::Pred, idx: 1 }), false)));
    let ok = InstrDeps { delay: 15, yld: true, wr_bar: 7, rd_bar: -1, wt_bar_mask: 0x3f, reuse_mask: 0xf };
    assert!(check_deps(&ok));
    assert!(check_deps(&InstrDeps::new()));
    assert!(!check_deps(&InstrDeps { delay: 16, ..ok }));
    assert!(!check_deps(&InstrDeps { wr_bar: 8, ..ok }));
    assert!(!check_deps(&InstrDeps { wt_bar_mask: 0x40, ..ok }));
    assert!(!check_deps(&InstrDeps { reuse_mask: 0x10, ..ok }));
    let sm = ShaderModel50::new(50);
    let labels = HashMap::new();
    let mut i = Instr::new(Op::Exit(OpExit {}));
    assert!(instr_encodable(&i, &sm, &labels, 8));
    i.deps.delay = 16;
    assert!(!instr_encodable(&i, &sm, &labels, 8));
}

#[test]
fn shaders_that_can_be_encoded() {
    let sm = ShaderModel50::new(50);
    let block = |idx, instrs| BasicBlock { label: Label { idx }, instrs };
    let exit = Instr::new(Op::Exit(OpExit {}));
    let jump = |idx| Instr::new(Op::Bra(OpBra { target: Label { idx } }));
    let s = Shader { functions: vec![Function { blocks: vec![block(0, vec![jump(1)]), block(1, vec![exit])] }] };
    assert!(can_encode_shader(&sm, &s));
    assert!(sm.can_encode_shader(&s));
    assert_eq!(function_size(&s.functions[0].blocks), Some(64));
    // a branch to a label that no block has
    let s = Shader { functions: vec![Function { blocks: vec![block(0, vec![exit, jump(2)])] }] };
    assert!(!can_encode_shader(&sm, &s));
    // an operand that is still an SSA value
    let ssa_add = Instr::new(Op::FAdd(fadd(Dst::Discard, gpr_ssa(1), gpr(2))));
    let s = Shader { functions: vec![Function { blocks: vec![block(0, vec![exit, exit, exit, ssa_add])] }] };
    assert!(!can_encode_shader(&sm, &s));
    // no function, or more than one
    assert!(!can_encode_shader(&sm, &Shader { functions: vec![] }));
    let f = || Function { blocks: vec![] };
    assert!(!can_encode_shader(&sm, &Shader { functions: vec![f(), f()] }));
    assert!(can_encode_shader(&sm, &Shader { functions: vec![f()] }));
}

#[test]
fn what_legalization_takes() {
    let sm = ShaderModel50::new(50);
    let b = LegalizeBuilder::new(0);
    let add = |s0, s1| Op::FAdd(fadd(Dst::Discard, s0, s1));
    assert!(sm.can_legalize_op(&b, &add(gpr_ssa(1), Src::new_imm_u32(3))));
    // legalization runs before registers are assigned
    assert!(!sm.can_legalize_op(&b, &add(gpr(1), gpr_ssa(2))));
    // a copy is not an operation of the family
    assert!(!sm.can_legalize_op(&b, &Op::Copy(OpCopy { dst: Dst::Discard, src: gpr_ssa(1) })));
    // nothing is left to allocate
    let full = LegalizeBuilder::new(0x1fff_fffd);
    assert!(full.room_for(0));
    assert!(!full.room_for(1));
    assert!(!sm.can_legalize_op(&full, &add(Src::new_imm_u32(1), Src::new_imm_u32(3))));
    assert!(sm.can_legalize_op(&full, &add(gpr_ssa(1), Src::new_imm_u32(3))));
    // a 64-bit value in one component cannot be copied
    let dadd = |s0, s1| OpDAdd { dst: Dst::Discard, srcs: [s0, s1], rnd_mode: FRndMode::NearestEven };
    let single_ugpr = Src::from_ssa(SSARef::from_value(SSAValue { file: RegFile::UGPR, idx: 1 }));
    let imm = Src::new_imm_u32(0x4000_0000);
    assert!(!dadd(single_ugpr, imm).legalizable(&LegalizeBuilder::new(0)));
    // next to a register it changes places with it and stays as it is
    assert!(dadd(single_ugpr, Src::new_zero()).legalizable(&LegalizeBuilder::new(0)));
    assert!(dadd(imm, imm).legalizable(&LegalizeBuilder::new(0)));
    assert!(check_copy_ok(&Src::new_imm_u32(1), SrcType::F64));
    assert!(!check_copy_ok(&Src::new_zero(), SrcType::F64));
    assert!(!check_copy_ok(&Src::new_imm_u32(1), SrcType::SSA));
    assert!(!check_copy_ok(&Src::from_cbuf(CBufRef { buf: CBuf::Binding(0), offset: 0xfffc }), SrcType::F64));
    assert!(check_copy_ok(&Src::from_cbuf(CBufRef { buf: CBuf::Binding(0), offset: 0xfffb }), SrcType::F64));
    let malformed = Src { src_ref: SrcRef::SSA(SSARef { comps: 5, ..SSARef::from_value(SSAValue::new_none()) }), src_mod: SrcMod::Plain };
    assert!(!check_src_ready(&malformed));
    assert!(!check_ext_src(&malformed, SrcType::GPR));
    assert!(check_ext_src(&malformed, SrcType::SSA));
    assert!(check_ext_src(&gpr_ssa(1), SrcType::GPR));
}

fn arg(kind: KernelArgType, binding: u32, dead: bool) -> KernelArg {
    KernelArg {
        spirv: SPIRVKernelArg {
            name: vec![],
            ty_name: vec![],
            access_qualifier: 0,
            address_qualifier: AddressQualifier::Global,
            type_qualifier: 0,
        },
        kind,
        size: 0,
        offset: 0,
        binding,
        dead,
    }
}

fn image(elem_size: u8, in_buffer: bool) -> Option<KernelArgValue> {
    Some(KernelArgValue::Image(ImageRef {
        resource: Some(1),
        res_is_buffer: in_buffer,
        mem_type: 0x10F1,
        row_pitch: 64,
        width: 4,
        height: 4,
        image_elem_size: elem_size,
        pipe_format: 0,
        host_access: 0,
        image_channel_data_type: 0,
        image_channel_order: 0,
    }))
}

#[test]
fn what_a_launch_takes() {
    let tex = |binding| arg(KernelArgType::Texture, binding, false);
    let img = |binding| arg(KernelArgType::Image, binding, false);
    let i = image(4, false);
    let vals = |n: usize| vec![i.clone(); n];
    // each table has its own order
    assert!(check_bindings_ordered(&[tex(0), img(0), tex(1), img(3)], &vals(4)));
    assert!(!check_bindings_ordered(&[tex(1), tex(0)], &vals(2)));
    assert!(!check_bindings_ordered(&[img(2), tex(0), img(2)], &vals(3)));
    // dead arguments and arguments without an image do not count
    assert!(check_bindings_ordered(&[tex(1), arg(KernelArgType::Texture, 0, true)], &vals(2)));
    assert!(check_bindings_ordered(&[tex(1), tex(0)], &[i.clone(), None]));
    assert!(check_bindings_ordered(&[tex(1), tex(0)], &[i.clone()]));
    assert!(check_images_wf(&[None, image(0, false), image(1, true)]));
    assert!(!check_images_wf(&[image(0, true)]));
    let internal = |kind| InternalKernelArg { kind, size: 8, offset: 0 };
    let both = [internal(InternalKernelArgType::ConstantBuffer), internal(InternalKernelArgType::PrintfBuffer)];
    assert!(check_internals_ok(&both, Some(1), Some(2)));
    assert!(!check_internals_ok(&both, None, Some(2)));
    assert!(!check_internals_ok(&both, Some(1), None));
    assert!(check_internals_ok(&both[..0], None, None));

    let dev = Device {
        id: 1,
        address_bits: 64,
        max_block_sizes: [64, 64, 64],
        max_grid_size: [1 << 16; 3],
        printf_buffer_size: 0,
        svm_supported: true,
        shareable_shaders: false,
    };
    let build = |max_threads| {
        NirKernelBuild::new(
            false,
            ComputeStateInfo { max_threads, preferred_simd_size: 32, simd_sizes: 1 << 5, private_memory: 0 },
            None,
            0,
            false,
            vec![internal(InternalKernelArgType::PrintfBuffer)],
        )
    };
    let kernel = |max_threads| {
        let info = KernelInfo {
            args: vec![],
            attributes_string: String::new(),
            work_group_size: [0; 3],
            subgroup_size: 0,
            num_subgroups: 0,
        };
        let mut builds = HashMap::new();
        builds.insert(1, build(max_threads));
        Kernel::new(String::from("k"), info, builds, vec![dev])
    };
    let k = kernel(256);
    assert!(k.has_svm_devs());
    assert!(k.can_launch(&dev, &[1], &[1], &[], Some(9)));
    // the printf buffer is missing
    assert!(!k.can_launch(&dev, &[1], &[1], &[], None));
    // more than three dimensions
    assert!(!k.can_launch(&dev, &[1, 1, 1, 1], &[1], &[], Some(9)));
    // not built for the device
    assert!(!k.can_launch(&Device { id: 2, ..dev }, &[1], &[1], &[], Some(9)));
    // limits of zero
    assert!(!k.can_launch(&Device { max_block_sizes: [64, 0, 64], ..dev }, &[1], &[1], &[], Some(9)));
    assert!(!kernel(0).can_launch(&dev, &[1], &[1], &[], Some(9)));
}

#[test]
fn what_lowering_takes() {
    let var = |location| NirVariable {
        location,
        driver_location: 0,
        binding: 0,
        is_sampler: false,
        is_image: false,
        is_texture: false,
        access: 0,
        cl_size: 4,
        inline_sampler: None,
    };
    assert!(check_params_have_vars(&[var(1), var(0)], 2));
    assert!(!check_params_have_vars(&[var(1), var(0)], 3));
    assert!(check_params_have_vars(&[], 0));
    assert!(check_locations(&[var(0), var(4)], 5));
    assert!(!check_locations(&[var(0), var(5)], 5));
    assert!(!check_locations(&[var(-1)], 5));
    let sampler = |addressing_mode, filter_mode, location| NirVariable {
        is_sampler: true,
        inline_sampler: Some(InlineSampler { addressing_mode, filter_mode, normalized_coordinates: 0 }),
        ..var(location)
    };
    assert!(check_inline_samplers(&[var(0), sampler(4, 1, 0)]));
    assert!(!check_inline_samplers(&[sampler(5, 0, 0)]));
    assert!(!check_inline_samplers(&[sampler(0, 2, 0)]));
    assert!(!check_inline_samplers(&[var(i32::MAX - 1), sampler(0, 0, 0)]));
    assert!(check_inline_samplers(&[var(i32::MAX - 2), sampler(0, 0, 0)]));
}

#[test]
fn extents_that_fit() {
    let e = Extent4D::new(0x1_0000, 0x1_0000, 2, 1);
    assert!(!e.can_size());
    assert!(Extent4D::new(0x1_0000, 0xffff, 1, 9).can_size());
    assert!(Extent4D::new(u32::MAX, u32::MAX, 0, 1).can_size());
    assert!(e.can_mul(&Extent4D::new(0xffff, 0xffff, 2, 1)));
    assert!(!e.can_mul(&Extent4D::new(0x1_0000, 1, 1, 1)));
    assert!(e.can_align(&Extent4D::new(3, 3, 3, 3)));
    assert!(!e.can_align(&Extent4D::new(3, 0, 3, 3)));
    assert!(!Extent4D::new(u32::MAX, 1, 1, 1).can_align(&Extent4D::new(2, 1, 1, 1)));
    assert!(Extent4D::new(u32::MAX, 1, 1, 1).can_align(&Extent4D::new(5, 1, 1, 1)));
    let rgba = Format { block_width: 1, block_height: 1, block_depth: 1, block_bits: 32 };
    assert!(Extent4D::new(0x3fff_ffff, 1, 1, 1).can_px_to_b(&rgba, SampleLayout::_1x1));
    assert!(!Extent4D::new(0x4000_0000, 1, 1, 1).can_px_to_b(&rgba, SampleLayout::_1x1));
    assert!(!Extent4D::new(1, 1, 1, 1).can_px_to_b(&rgba, SampleLayout::Invalid));
    assert!(!Extent4D::new(1, 1, 1, 1).can_px_to_b(&Format { block_depth: 0, ..rgba }, SampleLayout::_1x1));
    let o = Offset4D { x: 0x4000_0000, y: 0, z: 0, a: 0 };
    assert!(!o.can_px_to_b(&rgba, SampleLayout::_1x1));
    assert!(o.can_mul(&Extent4D::new(3, 9, 9, 9)));
    assert!(Tiling { is_tiled: true, gob_height_is_8: true, x_log2: 24, y_log2: 0, z_log2: 0 }.is_wf());
    assert!(!Tiling { is_tiled: true, gob_height_is_8: true, x_log2: 25, y_log2: 0, z_log2: 0 }.is_wf());
}

#[test]
fn labels_that_name_one_block() {
    let block = |idx, n: usize| BasicBlock { label: Label { idx }, instrs: vec![Instr::new(Op::Exit(OpExit {})); n] };
    let blocks = vec![block(3, 1), block(1, 4), block(2, 0), block(9, 3)];
    assert!(check_labels_distinct(&blocks));
    let labels = compute_labels(&blocks);
    // 1, 2, 0 and 1 groups of 32 bytes
    assert_eq!((labels[&3], labels[&1], labels[&2], labels[&9]), (8, 40, 104, 104));
    let blocks = vec![block(3, 1), block(1, 4), block(3, 0)];
    assert!(!check_labels_distinct(&blocks));
    // where a label is shared, the later block counts
    assert_eq!(compute_labels(&blocks)[&3], 104);
    assert!(check_labels_distinct(&vec![]));
}
