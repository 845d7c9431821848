use gpu_backend::kernel::args::{
    AddressQualifier, InternalKernelArg, InternalKernelArgType, KernelArg, KernelArgType,
    SPIRVKernelArg,
};
use gpu_backend::kernel::lower::{
    add_internal_args, address_config, assign_inline_sampler_locations, can_remove_var, find_var,
    has_variable_shared_mem, lower_state, nir_to_cl, AddedUniform, AddressConfig, InlineSampler,
    NirAddressFormat, NirVariable, ShaderUsage, UniformType, ACCESS_NON_READABLE,
    ACCESS_NON_WRITEABLE,
};

fn spirv(name: &str, ty: &str, address_qualifier: AddressQualifier) -> SPIRVKernelArg {
    SPIRVKernelArg {
        name: name.as_bytes().to_vec(),
        ty_name: ty.as_bytes().to_vec(),
        access_qualifier: 0,
        address_qualifier,
        type_qualifier: 0,
    }
}

fn var(location: i32, cl_size: u32) -> NirVariable {
    NirVariable {
        location,
        driver_location: 0,
        binding: 0,
        is_sampler: false,
        is_image: false,
        is_texture: false,
        access: 0,
        cl_size,
        inline_sampler: None,
    }
}

const NO_USAGE: ShaderUsage = ShaderUsage {
    reads_base_global_invocation_id: false,
    reads_base_workgroup_id: false,
    reads_num_workgroups: false,
    has_constant: false,
    has_printf: false,
    num_images: 0,
    num_textures: 0,
    reads_work_dim: false,
};

#[test]
fn argument_offsets_of_a_small_kernel() {
    // kernel void k(global int* a, local float* b, int c), which uses `b` and
    // reads the global offset
    let params = [
        spirv("a", "int*", AddressQualifier::Global),
        spirv("b", "float*", AddressQualifier::Local),
        spirv("c", "int", AddressQualifier::Private),
    ];
    let vars = [var(0, 8), var(1, 8), var(2, 4)];
    let mut args = KernelArg::from_spirv_nir(&params, &vars);
    assert_eq!(args.len(), 3);
    assert_eq!(
        args.iter().map(|a| a.kind).collect::<Vec<_>>(),
        vec![KernelArgType::MemGlobal, KernelArgType::MemLocal, KernelArgType::Constant]
    );
    assert_eq!(args.iter().map(|a| a.size).collect::<Vec<_>>(), vec![8, 8, 4]);
    assert!(args.iter().all(|a| a.dead && a.offset == 0 && a.binding == 0));
    assert_eq!(args[1].spirv, params[1]);

    let usage = ShaderUsage { reads_base_global_invocation_id: true, ..NO_USAGE };
    let mut internal_args = Vec::new();
    let uniforms = add_internal_args(args.len(), &mut internal_args, &usage, 64);
    // three addresses of a 64-bit device
    let word3: usize = 24;
    assert_eq!(
        internal_args,
        vec![InternalKernelArg { kind: InternalKernelArgType::GlobalWorkOffsets, offset: 0, size: word3 }]
    );
    // the one internal argument comes after all three user arguments
    assert_eq!(
        uniforms,
        vec![AddedUniform {
            kind: InternalKernelArgType::GlobalWorkOffsets,
            ty: UniformType::AddressVec3,
            location: 3,
        }]
    );

    // the driver laid the variables out by their natural width; `a` is gone
    let laid_out = [
        NirVariable { driver_location: 8, ..var(1, 8) },
        NirVariable { driver_location: 16, ..var(2, 4) },
        NirVariable { driver_location: 24, ..var(3, word3 as u32) },
    ];
    KernelArg::assign_locations(&mut args, &mut internal_args, &laid_out);
    let locals: Vec<_> = args.iter().filter(|a| a.kind == KernelArgType::MemLocal).collect();
    assert_eq!(locals.len(), 1);
    assert!(!locals[0].dead);
    assert!(args[0].dead);
    assert_eq!((args[0].offset, args[0].binding), (0, 0));
    assert_eq!(args[1].offset, 8);
    assert_eq!(args[2].offset, 16);
    assert!(!args[2].dead);
    assert_eq!(internal_args[0].offset, 24);
    // live arguments and the internal argument do not overlap, in this order
    let mut end = 0;
    for (offset, size) in [
        (args[1].offset, args[1].size),
        (args[2].offset, args[2].size),
        (internal_args[0].offset, internal_args[0].size),
    ] {
        assert!(offset >= end);
        end = offset + size;
    }
    assert!(has_variable_shared_mem(&args));
}

#[test]
fn classification_by_variable() {
    let params = [
        spirv("s", "sampler_t", AddressQualifier::Private),
        spirv("c", "float4", AddressQualifier::Private),
        spirv("k", "int*", AddressQualifier::Constant),
        spirv("ro", "image2d_t", AddressQualifier::Global),
        spirv("wo", "image2d_t", AddressQualifier::Global),
        spirv("rw", "image2d_t", AddressQualifier::Global),
        spirv("p", "int*", AddressQualifier::Global),
    ];
    let vars = [
        NirVariable { is_sampler: true, ..var(0, 0) },
        var(1, 16),
        var(2, 8),
        NirVariable { is_image: true, access: ACCESS_NON_WRITEABLE, ..var(3, 0) },
        NirVariable { is_image: true, access: ACCESS_NON_READABLE, ..var(4, 0) },
        NirVariable { is_image: true, access: 0, ..var(5, 0) },
        var(6, 8),
        // a duplicate location: the last one counts
        NirVariable { is_image: true, access: ACCESS_NON_WRITEABLE | 1, ..var(3, 0) },
    ];
    let args = KernelArg::from_spirv_nir(&params, &vars);
    assert_eq!(
        args.iter().map(|a| a.kind).collect::<Vec<_>>(),
        vec![
            KernelArgType::Sampler,
            KernelArgType::Constant,
            KernelArgType::MemConstant,
            KernelArgType::RWImage,
            KernelArgType::Image,
            KernelArgType::RWImage,
            KernelArgType::MemGlobal,
        ]
    );
    assert_eq!(find_var(&vars, 3), Some(7));
    assert_eq!(find_var(&vars, 9), None);
    assert!(!has_variable_shared_mem(&args));
}

#[test]
fn internal_arguments_come_in_a_fixed_order() {
    let usage = ShaderUsage {
        reads_base_global_invocation_id: true,
        reads_base_workgroup_id: true,
        reads_num_workgroups: true,
        has_constant: true,
        has_printf: true,
        num_images: 2,
        num_textures: 1,
        reads_work_dim: true,
    };
    let sampler = InternalKernelArg {
        kind: InternalKernelArgType::InlineSampler((0x1130, 0x1140, false)),
        offset: 0,
        size: 0,
    };
    let mut internal_args = vec![sampler];
    let uniforms = add_internal_args(4, &mut internal_args, &usage, 32);
    // three addresses of a 32-bit device
    let word3: usize = 12;
    let arg = |kind, size| InternalKernelArg { kind, offset: 0, size };
    assert_eq!(
        internal_args,
        vec![
            sampler,
            arg(InternalKernelArgType::GlobalWorkOffsets, word3),
            arg(InternalKernelArgType::WorkGroupOffsets, word3),
            arg(InternalKernelArgType::NumWorkgroups, 12),
            arg(InternalKernelArgType::ConstantBuffer, 4),
            arg(InternalKernelArgType::PrintfBuffer, 4),
            arg(InternalKernelArgType::FormatArray, 6),
            arg(InternalKernelArgType::OrderArray, 6),
            arg(InternalKernelArgType::WorkDim, 1),
        ]
    );
    assert_eq!(uniforms.len(), 8);
    for (i, u) in uniforms.iter().enumerate() {
        assert_eq!(u.kind, internal_args[i + 1].kind);
        assert_eq!(u.location, 4 + 1 + i);
    }
    assert_eq!(uniforms[2].ty, UniformType::UintVec3);
    assert_eq!(uniforms[3].ty, UniformType::Address);
    assert_eq!(uniforms[5].ty, UniformType::Int16Array(3));
    assert_eq!(uniforms[7].ty, UniformType::Uint8);
    let st = lower_state(&uniforms);
    assert_eq!(
        (
            st.base_global_invoc_id_loc,
            st.base_workgroup_id_loc,
            st.num_workgroups_loc,
            st.const_buf_loc,
            st.printf_buf_loc,
            st.format_arr_loc,
            st.order_arr_loc,
            st.work_dim_loc
        ),
        (5, 6, 7, 8, 9, 10, 11, 12)
    );
    // the same inputs give the same layout
    let mut again = vec![sampler];
    assert_eq!(add_internal_args(4, &mut again, &usage, 32), uniforms);
    assert_eq!(again, internal_args);
}

#[test]
fn only_what_the_kernel_reads_is_added() {
    let mut internal_args = Vec::new();
    assert_eq!(add_internal_args(2, &mut internal_args, &NO_USAGE, 64), vec![]);
    assert_eq!(internal_args, vec![]);
    let usage = ShaderUsage { has_printf: true, reads_work_dim: true, num_textures: 1, ..NO_USAGE };
    let uniforms = add_internal_args(2, &mut internal_args, &usage, 64);
    assert_eq!(
        internal_args.iter().map(|a| (a.kind, a.size)).collect::<Vec<_>>(),
        vec![
            (InternalKernelArgType::PrintfBuffer, 8),
            (InternalKernelArgType::FormatArray, 2),
            (InternalKernelArgType::OrderArray, 2),
            (InternalKernelArgType::WorkDim, 1),
        ]
    );
    assert_eq!(uniforms.iter().map(|u| u.location).collect::<Vec<_>>(), vec![2, 3, 4, 5]);
    let st = lower_state(&uniforms);
    assert_eq!(st.printf_buf_loc, 2);
    assert_eq!(st.base_global_invoc_id_loc, 0);
}

#[test]
fn inline_samplers_get_locations_of_their_own() {
    let s = InlineSampler { addressing_mode: 2, filter_mode: 1, normalized_coordinates: 1 };
    let mut vars = vec![
        var(0, 8),
        NirVariable { is_sampler: true, ..var(1, 0) },
        NirVariable { is_sampler: true, inline_sampler: Some(s), ..var(0, 0) },
        NirVariable { is_sampler: true, inline_sampler: Some(s), ..var(0, 0) },
    ];
    let internal_args = assign_inline_sampler_locations(&mut vars);
    assert_eq!(vars.iter().map(|v| v.location).collect::<Vec<_>>(), vec![0, 1, 2, 3]);
    let expected = InternalKernelArg {
        kind: InternalKernelArgType::InlineSampler((0x1132, 0x1141, true)),
        offset: 0,
        size: 0,
    };
    assert_eq!(internal_args, vec![expected, expected]);
    // with no variable before it, the first inline sampler gets location 0
    let mut vars = vec![NirVariable { is_sampler: true, inline_sampler: Some(s), ..var(5, 0) }];
    assert_eq!(assign_inline_sampler_locations(&mut vars).len(), 1);
    assert_eq!(vars[0].location, 0);
}

#[test]
fn sampler_modes() {
    let modes = [0x1130, 0x1131, 0x1132, 0x1133, 0x1134];
    for (i, m) in modes.iter().enumerate() {
        let s = InlineSampler { addressing_mode: i as u32, filter_mode: 0, normalized_coordinates: 0 };
        assert_eq!(nir_to_cl(&s), (*m, 0x1140, false));
    }
    let s = InlineSampler { addressing_mode: 0, filter_mode: 1, normalized_coordinates: 7 };
    assert_eq!(nir_to_cl(&s), (0x1130, 0x1141, true));
}

#[test]
fn what_may_be_removed() {
    assert!(can_remove_var(&var(0, 4)));
    assert!(!can_remove_var(&NirVariable { is_image: true, ..var(0, 4) }));
    assert!(!can_remove_var(&NirVariable { is_texture: true, ..var(0, 4) }));
    assert!(!can_remove_var(&NirVariable { is_sampler: true, ..var(0, 4) }));
}

#[test]
fn addressing_by_device() {
    assert_eq!(
        address_config(64),
        AddressConfig {
            ptr_bits: 64,
            global_address_format: NirAddressFormat::Global64,
            shared_address_format: NirAddressFormat::Offset32As64,
        }
    );
    assert_eq!(
        address_config(32),
        AddressConfig {
            ptr_bits: 32,
            global_address_format: NirAddressFormat::Global32,
            shared_address_format: NirAddressFormat::Offset32,
        }
    );
}

#[test]
fn dead_status_leaves_other_offsets_alone() {
    let params = [
        spirv("a", "int", AddressQualifier::Private),
        spirv("b", "int", AddressQualifier::Private),
        spirv("c", "int", AddressQualifier::Private),
    ];
    let all = [
        NirVariable { driver_location: 0, ..var(0, 4) },
        NirVariable { driver_location: 4, ..var(1, 4) },
        NirVariable { driver_location: 8, ..var(2, 4) },
    ];
    let mut with_b = KernelArg::from_spirv_nir(&params, &all);
    let mut without_b = KernelArg::from_spirv_nir(&params, &all);
    KernelArg::assign_locations(&mut with_b, &mut Vec::new(), &all);
    KernelArg::assign_locations(&mut without_b, &mut Vec::new(), &[all[0], all[2]]);
    assert!(!with_b[1].dead);
    assert!(without_b[1].dead);
    assert_eq!(with_b[0], without_b[0]);
    assert_eq!(with_b[2], without_b[2]);
}

#[test]
fn offsets_follow_the_order_of_the_arguments() {
    let params = [
        spirv("a", "int", AddressQualifier::Private),
        spirv("b", "int", AddressQualifier::Private),
        spirv("c", "long", AddressQualifier::Private),
    ];
    let vars = [var(0, 4), var(1, 4), var(2, 8)];
    let mut args = KernelArg::from_spirv_nir(&params, &vars);
    let usage = ShaderUsage { reads_num_workgroups: true, reads_work_dim: true, ..NO_USAGE };
    let mut internal_args = Vec::new();
    add_internal_args(args.len(), &mut internal_args, &usage, 64);
    assert_eq!(internal_args.len(), 2);
    // `b` is gone; the driver laid the others out in the order of their locations
    let laid_out = [
        NirVariable { driver_location: 16, ..var(3, 12) },
        NirVariable { driver_location: 0, ..var(0, 4) },
        NirVariable { driver_location: 28, ..var(4, 1) },
        NirVariable { driver_location: 8, ..var(2, 8) },
    ];
    KernelArg::assign_locations(&mut args, &mut internal_args, &laid_out);
    assert!(args[1].dead);
    let offsets = [args[0].offset, args[2].offset, internal_args[0].offset, internal_args[1].offset];
    assert_eq!(offsets, [0, 8, 16, 28]);
    assert!(offsets.windows(2).all(|w| w[0] < w[1]));
}
