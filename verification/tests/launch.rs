use gpu_backend::kernel::args::{
    AddressQualifier, InternalKernelArg, InternalKernelArgType, KernelArg, KernelArgType,
    SPIRVKernelArg,
};
use gpu_backend::kernel::kernel::{
    ComputeStateInfo, Device, Kernel, KernelInfo, NirKernelBuild, ShaderFacts, SPIRVToNirResult,
    SubgroupSize,
};
use gpu_backend::kernel::launch::{
    marshal_launch, AppImgInfo, BufferRef, ImageRef, ImageView, KernelArgValue, LaunchContext,
    Marshal, SamplerDesc, SamplerView,
};
use gpu_backend::kernel::local_size::{
    create_kernel_arr, create_kernel_arr_u32, suggest_local_size_for,
};
use gpu_backend::kernel::math::{align_u64, div_round_up, gcd, local_mem_align};
use gpu_backend::kernel::tiling::{
    first_tile, hw_max_grid, next_tile, sub_dispatch, tile_counts, write_workgroup_offsets,
    SubDispatch,
};
use std::collections::HashMap;

fn arg(kind: KernelArgType, size: usize, offset: usize, binding: u32, dead: bool) -> KernelArg {
    KernelArg {
        spirv: SPIRVKernelArg {
            name: b"x".to_vec(),
            ty_name: b"t".to_vec(),
            access_qualifier: 3,
            address_qualifier: AddressQualifier::Global,
            type_qualifier: 5,
        },
        kind,
        size,
        offset,
        binding,
        dead,
    }
}

fn ctx(address_bits: u32) -> LaunchContext {
    LaunchContext {
        address_bits,
        work_dim: 2,
        offsets: [1, 2, 3],
        grid: [4, 5, 6],
        constant_buffer: Some(77),
        printf_buf: Some(88),
    }
}

fn image(resource: u64) -> ImageRef {
    ImageRef {
        resource: Some(resource),
        res_is_buffer: false,
        mem_type: 0x10F1,
        row_pitch: 0,
        width: 16,
        height: 16,
        image_elem_size: 4,
        pipe_format: 9,
        host_access: 3,
        image_channel_data_type: 0x10DA,
        image_channel_order: 0x10B5,
    }
}

#[test]
fn math_helpers() {
    assert_eq!(gcd(12, 18), 6);
    assert_eq!(gcd(7, 0), 7);
    assert_eq!(gcd(0, 7), 7);
    assert_eq!(gcd(0, 0), 0);
    assert_eq!(gcd(1024, 1000), 8);
    assert_eq!(div_round_up(0, 4), 0);
    assert_eq!(div_round_up(8, 4), 2);
    assert_eq!(div_round_up(9, 4), 3);
    assert_eq!(div_round_up(usize::MAX, 2), usize::MAX / 2 + 1);
    assert_eq!(div_round_up(usize::MAX, 1), usize::MAX);
    for (size, align) in [(0, 1), (1, 1), (2, 2), (3, 4), (5, 8), (64, 64), (65, 128), (128, 128), (4096, 128)] {
        assert_eq!(local_mem_align(size), align as u64);
    }
    assert_eq!(align_u64(13, 8), Some(16));
    assert_eq!(align_u64(16, 8), Some(16));
    assert_eq!(align_u64(0, 128), Some(0));
    assert_eq!(align_u64(u64::MAX, 2), None);
    assert_eq!(align_u64(u64::MAX - 1, 2), Some(u64::MAX - 1));
}

#[test]
fn values_by_dimension() {
    assert_eq!(create_kernel_arr_u32(&[4, 5], 1), Ok([4, 5, 1]));
    assert_eq!(create_kernel_arr_u32(&[], 1), Ok([1, 1, 1]));
    assert_eq!(create_kernel_arr_u32(&[u32::MAX as usize], 0), Ok([u32::MAX, 0, 0]));
    assert_eq!(create_kernel_arr(&[7, 8, 9], 0), Ok([7, 8, 9]));
    assert_eq!(create_kernel_arr(&[7], 0), Ok([7, 0, 0]));
}

#[test]
fn oversized_block_is_out_of_resources() {
    let too_wide = (u32::MAX as u64 + 1) as usize;
    if too_wide != 0 {
        assert_eq!(create_kernel_arr_u32(&[1, too_wide], 1), Err(-5));
        let k = kernel(vec![], vec![], 0);
        assert_eq!(k.launch(&device(), 1, &[too_wide], &[1], &[], None).err(), Some(-5));
    }
}

#[test]
fn suggested_local_size_divides_the_grid() {
    let cases: [(usize, [usize; 3], usize, usize, [usize; 3]); 12] = [
        (1024, [1024, 1024, 64], 32, 1, [4096, 1, 1]),
        (1024, [1024, 1024, 64], 32, 2, [100, 100, 1]),
        (256, [256, 256, 256], 64, 3, [7, 13, 5]),
        (1024, [1024, 1024, 64], 32, 3, [3, 5, 1]),
        (1024, [1024, 1024, 64], 32, 1, [7, 1, 1]),
        (10, [4, 4, 4], 32, 1, [8, 1, 1]),
        (10, [4, 4, 4], 32, 1, [4, 1, 1]),
        (64, [2, 64, 64], 32, 1, [8, 1, 1]),
        (64, [64, 64, 64], 16, 2, [0, 9, 1]),
        (96, [5, 7, 3], 32, 3, [36, 48, 18]),
        (1000, [10, 10, 10], 64, 3, [250, 40, 6]),
        (1, [1, 1, 1], 1, 3, [5, 6, 7]),
    ];
    for (max_threads, dims, simd, work_dim, requested) in cases {
        let mut grid = requested;
        let mut block = [0usize; 3];
        suggest_local_size_for(max_threads, &dims, simd, work_dim, &mut grid, &mut block);
        let mut volume = 1;
        for i in 0..work_dim {
            assert_eq!(block[i] * grid[i], requested[i], "{:?}", requested);
            volume *= block[i];
        }
        assert!(volume >= 1 && volume <= max_threads);
        assert_eq!(max_threads % volume, 0, "{:?}", requested);
        for i in work_dim..3 {
            assert_eq!((grid[i], block[i]), (requested[i], 0));
        }
    }
}

#[test]
fn suggested_local_size_values() {
    // gcd(1024, 4096) fills the block in one step
    let mut grid = [4096, 1, 1];
    let mut block = [0; 3];
    suggest_local_size_for(1024, &[1024, 1024, 64], 32, 1, &mut grid, &mut block);
    assert_eq!((grid, block), ([4, 1, 1], [1024, 0, 0]));
    // 100 = gcd(1024, 100) * 25; 256 threads are left for the second dimension
    let mut grid = [100, 100, 1];
    let mut block = [0; 3];
    suggest_local_size_for(1024, &[1024, 1024, 64], 32, 2, &mut grid, &mut block);
    assert_eq!((grid, block), ([25, 25, 1], [4, 4, 0]));
    // 12 threads: 4 for the first dimension, gcd(3, 100) = 1 for the second
    let mut grid = [100, 100, 1];
    let mut block = [0; 3];
    suggest_local_size_for(12, &[1024, 1024, 64], 32, 2, &mut grid, &mut block);
    assert_eq!((grid, block), ([25, 100, 1], [4, 1, 0]));
    // nothing divides, and no grid divides the threads that are left: no dimension is folded
    let mut grid = [3, 5, 1];
    let mut block = [0; 3];
    suggest_local_size_for(1024, &[1024, 1024, 64], 32, 3, &mut grid, &mut block);
    assert_eq!((grid, block), ([3, 5, 1], [1, 1, 1]));
    let mut grid = [7, 1, 1];
    let mut block = [0; 3];
    suggest_local_size_for(1024, &[1024, 1024, 64], 32, 1, &mut grid, &mut block);
    assert_eq!((grid, block), ([7, 1, 1], [1, 0, 0]));
    // the block divides the threads: gcd(10, 8) = 2, not the limit 4 of the dimension
    let mut grid = [8, 1, 1];
    let mut block = [0; 3];
    suggest_local_size_for(10, &[4, 4, 4], 2, 1, &mut grid, &mut block);
    assert_eq!((grid, block), ([4, 1, 1], [2, 0, 0]));
    let mut grid = [4, 1, 1];
    let mut block = [0; 3];
    suggest_local_size_for(10, &[4, 4, 4], 2, 1, &mut grid, &mut block);
    assert_eq!((grid, block), ([2, 1, 1], [2, 0, 0]));
    // gcd(64, 32) = 32 is over the limit 4 of the dimension: gcd(32, 4) = 4
    let mut grid = [32, 1, 1];
    let mut block = [0; 3];
    suggest_local_size_for(64, &[4, 4, 4], 2, 1, &mut grid, &mut block);
    assert_eq!((grid, block), ([8, 1, 1], [4, 0, 0]));
    // 32 threads are left and the subgroup is not filled: the grid of 4 that
    // is left divides them and is folded into the block
    let mut grid = [8, 1, 1];
    let mut block = [0; 3];
    suggest_local_size_for(64, &[2, 64, 64], 32, 1, &mut grid, &mut block);
    assert_eq!((grid, block), ([1, 1, 1], [8, 0, 0]));
}

#[test]
fn tiles_of_a_grid() {
    let hw = hw_max_grid(&[65535, u64::MAX, 3]);
    assert_eq!(hw, [65535, u32::MAX as usize, 3]);
    let grid = [10, 4, 7];
    let hw = [4, 4, 3];
    let counts = tile_counts(&grid, &hw);
    assert_eq!(counts, [3, 1, 3]);
    assert_eq!(
        sub_dispatch(&grid, &hw, &[2, 0, 1]),
        SubDispatch { offsets: [8, 0, 3], grid: [2, 4, 3] }
    );
    assert_eq!(
        sub_dispatch(&grid, &hw, &[0, 0, 2]),
        SubDispatch { offsets: [0, 0, 6], grid: [4, 4, 1] }
    );
    // the tiles are visited with x fastest, and there are 3 * 1 * 3 of them
    let mut covered = vec![0u8; 10 * 4 * 7];
    let mut idx = first_tile(&counts);
    let mut dispatches = 0;
    let mut order = Vec::new();
    while let Some(i) = idx {
        let d = sub_dispatch(&grid, &hw, &i);
        assert_eq!(d.offsets, [i[0] * hw[0], i[1] * hw[1], i[2] * hw[2]]);
        for z in 0..d.grid[2] as usize {
            for y in 0..d.grid[1] as usize {
                for x in 0..d.grid[0] as usize {
                    let p = (d.offsets[0] + x) + 10 * ((d.offsets[1] + y) + 4 * (d.offsets[2] + z));
                    covered[p] += 1;
                }
            }
        }
        order.push(i);
        dispatches += 1;
        idx = next_tile(&counts, &i);
    }
    assert_eq!(dispatches, 9);
    assert_eq!(&order[..4], &[[0, 0, 0], [1, 0, 0], [2, 0, 0], [0, 0, 1]]);
    // every workgroup is covered once
    assert!(covered.iter().all(|c| *c == 1));
}

#[test]
fn an_empty_grid_has_no_tiles() {
    assert_eq!(tile_counts(&[0, 5, 5], &[4, 4, 4]), [0, 2, 2]);
    assert_eq!(first_tile(&[0, 2, 2]), None);
    assert_eq!(first_tile(&[2, 0, 2]), None);
    assert_eq!(first_tile(&[2, 2, 0]), None);
    assert_eq!(first_tile(&[1, 1, 1]), Some([0, 0, 0]));
    assert_eq!(first_tile(&[3, 1, 3]), Some([0, 0, 0]));
    assert_eq!(tile_counts(&[4, 4, 4], &[4, 4, 4]), [1, 1, 1]);
    assert_eq!(next_tile(&[1, 1, 1], &[0, 0, 0]), None);
    assert_eq!(next_tile(&[2, 2, 2], &[1, 1, 0]), Some([0, 0, 1]));
}

#[test]
fn workgroup_offsets_are_patched_in_place() {
    let mut input = vec![0xaau8; 32];
    write_workgroup_offsets(&mut input, 4, &[0x0102, 3, 0x1_0000_0004], 64);
    let mut expected = vec![0xaau8; 32];
    expected[4..28].copy_from_slice(&[
        2, 1, 0, 0, 0, 0, 0, 0, 3, 0, 0, 0, 0, 0, 0, 0, 4, 0, 0, 0, 1, 0, 0, 0,
    ]);
    assert_eq!(input, expected);
    let mut input = vec![0xaau8; 16];
    write_workgroup_offsets(&mut input, 2, &[0x0102, 3, 0x1_0000_0004], 32);
    let mut expected = vec![0xaau8; 16];
    expected[2..14].copy_from_slice(&[2, 1, 0, 0, 3, 0, 0, 0, 4, 0, 0, 0]);
    assert_eq!(input, expected);
}

#[test]
fn arguments_land_at_their_offsets() {
    let args = [
        arg(KernelArgType::MemGlobal, 8, 0, 0, false),
        arg(KernelArgType::Constant, 4, 16, 0, false),
        arg(KernelArgType::MemConstant, 8, 24, 0, false),
    ];
    let vals = [
        Some(KernelArgValue::Buffer(BufferRef { resource: Some(5), offset: 0x100 })),
        Some(KernelArgValue::Constant(vec![1, 2, 3, 4])),
        Some(KernelArgValue::Null),
    ];
    let m = marshal_launch(&args, &vals, &[], &ctx(64), 0).unwrap();
    let mut expected = vec![0u8; 32];
    expected[1] = 1;
    expected[16..20].copy_from_slice(&[1, 2, 3, 4]);
    assert_eq!(m.input, expected);
    assert_eq!(m.resource_info, vec![(5, 0)]);
    assert_eq!(m.variable_local_size, 0);
    assert_eq!(m.workgroup_id_offset_loc, None);
    // 32-bit addresses take 4 bytes
    let m = marshal_launch(&args[..1], &vals[..1], &[], &ctx(32), 0).unwrap();
    assert_eq!(m.input, vec![0, 1, 0, 0]);
}

#[test]
fn dead_arguments_write_nothing() {
    let live = [
        arg(KernelArgType::Constant, 4, 0, 0, false),
        arg(KernelArgType::Constant, 4, 8, 0, false),
    ];
    let live_vals = [
        Some(KernelArgValue::Constant(vec![1, 1, 1, 1])),
        Some(KernelArgValue::Constant(vec![3, 3, 3, 3])),
    ];
    let with_dead = [
        live[0].clone(),
        arg(KernelArgType::Constant, 4, 4, 0, true),
        arg(KernelArgType::Image, 0, 0, 0, true),
        live[1].clone(),
    ];
    let vals = [
        live_vals[0].clone(),
        Some(KernelArgValue::Constant(vec![2, 2, 2, 2])),
        // a dead argument needs no value at all
        None,
        live_vals[1].clone(),
    ];
    let a = marshal_launch(&with_dead, &vals, &[], &ctx(64), 0).unwrap();
    let b = marshal_launch(&live, &live_vals, &[], &ctx(64), 0).unwrap();
    assert_eq!(a.input, vec![1, 1, 1, 1, 0, 0, 0, 0, 3, 3, 3, 3]);
    assert_eq!(a.input, b.input);
    assert_eq!(a.iviews, vec![]);
    assert_eq!(a.img_formats, Vec::<u16>::new());
}

#[test]
fn local_memory_reservations_do_not_overlap() {
    let args = [
        arg(KernelArgType::MemLocal, 8, 0, 0, false),
        arg(KernelArgType::MemLocal, 8, 8, 0, false),
        arg(KernelArgType::MemLocal, 8, 16, 0, false),
    ];
    let vals = [
        Some(KernelArgValue::LocalMem(3)),
        Some(KernelArgValue::LocalMem(200)),
        Some(KernelArgValue::LocalMem(16)),
    ];
    // the kernel itself uses 10 bytes
    let m = marshal_launch(&args, &vals, &[], &ctx(64), 10).unwrap();
    // 3 bytes at 12 (aligned to 4), 200 at 128 (aligned to 128), 16 at 336
    let mut expected = vec![0u8; 24];
    expected[0] = 12;
    expected[8] = 128;
    expected[16..18].copy_from_slice(&[0x50, 0x01]);
    assert_eq!(m.input, expected);
    // only what is asked on top of the kernel's own local memory counts
    assert_eq!(m.variable_local_size, 352 - 10);
    let r = marshal_launch(&args[..1], &[Some(KernelArgValue::LocalMem(8))], &[], &ctx(64), u64::MAX - 4);
    assert_eq!(r.err(), Some(-5));
}

#[test]
fn images_and_samplers_are_collected() {
    let args = [
        arg(KernelArgType::Texture, 0, 0, 0, false),
        arg(KernelArgType::Image, 0, 0, 0, false),
        arg(KernelArgType::RWImage, 0, 0, 2, false),
        arg(KernelArgType::Sampler, 0, 0, 0, false),
        arg(KernelArgType::Constant, 2, 4, 0, false),
    ];
    let from_buffer = ImageRef { res_is_buffer: true, row_pitch: 256, ..image(12) };
    let sampler = SamplerDesc { addressing_mode: 0x1131, filter_mode: 0x1140, normalized: true };
    let vals = [
        Some(KernelArgValue::Image(image(10))),
        Some(KernelArgValue::Image(image(11))),
        Some(KernelArgValue::Image(from_buffer)),
        Some(KernelArgValue::Sampler(sampler)),
        Some(KernelArgValue::Constant(vec![9, 9])),
    ];
    let internal = [
        InternalKernelArg { kind: InternalKernelArgType::FormatArray, size: 8, offset: 8 },
        InternalKernelArg { kind: InternalKernelArgType::OrderArray, size: 8, offset: 16 },
        InternalKernelArg {
            kind: InternalKernelArgType::InlineSampler((0x1130, 0x1141, false)),
            size: 0,
            offset: 0,
        },
    ];
    let m = marshal_launch(&args, &vals, &internal, &ctx(64), 0).unwrap();
    assert_eq!(m.sviews, vec![SamplerView { resource: 10, format: 9, app_img_info: None }]);
    assert_eq!(
        m.iviews,
        vec![
            ImageView { resource: 11, format: 9, read_write: false, host_access: 3, app_img_info: None },
            ImageView {
                resource: 12,
                format: 9,
                read_write: true,
                host_access: 3,
                app_img_info: Some(AppImgInfo { row_stride: 64, width: 16, height: 16 }),
            },
        ]
    );
    assert_eq!(m.tex_formats, vec![0x10DA]);
    // binding 1 was skipped and holds zero
    assert_eq!(m.img_formats, vec![0x10DA, 0, 0x10DA]);
    assert_eq!(m.img_orders, vec![0x10B5, 0, 0x10B5]);
    assert_eq!(
        m.samplers,
        vec![sampler, SamplerDesc { addressing_mode: 0x1130, filter_mode: 0x1141, normalized: false }]
    );
    // objects take no room in the input buffer; the tables follow the constant
    let mut expected = vec![0u8; 4];
    expected.extend_from_slice(&[9, 9, 0, 0]);
    expected.extend_from_slice(&[0xDA, 0x10, 0xDA, 0x10, 0, 0, 0xDA, 0x10]);
    expected.extend_from_slice(&[0xB5, 0x10, 0xB5, 0x10, 0, 0, 0xB5, 0x10]);
    assert_eq!(m.input, expected);
}

#[test]
fn internal_arguments_follow_the_user_arguments() {
    let args = [arg(KernelArgType::Constant, 4, 0, 0, false)];
    let vals = [Some(KernelArgValue::Constant(vec![7, 7, 7, 7]))];
    let internal = [
        InternalKernelArg { kind: InternalKernelArgType::GlobalWorkOffsets, size: 12, offset: 8 },
        InternalKernelArg { kind: InternalKernelArgType::WorkGroupOffsets, size: 12, offset: 20 },
        InternalKernelArg { kind: InternalKernelArgType::NumWorkgroups, size: 12, offset: 32 },
        InternalKernelArg { kind: InternalKernelArgType::ConstantBuffer, size: 4, offset: 44 },
        InternalKernelArg { kind: InternalKernelArgType::PrintfBuffer, size: 4, offset: 48 },
        InternalKernelArg { kind: InternalKernelArgType::WorkDim, size: 1, offset: 52 },
    ];
    let m = marshal_launch(&args, &vals, &internal, &ctx(32), 0).unwrap();
    let mut expected = vec![7, 7, 7, 7, 0, 0, 0, 0];
    expected.extend_from_slice(&[1, 0, 0, 0, 2, 0, 0, 0, 3, 0, 0, 0]);
    expected.extend_from_slice(&[0; 12]);
    expected.extend_from_slice(&[4, 0, 0, 0, 5, 0, 0, 0, 6, 0, 0, 0]);
    expected.extend_from_slice(&[0; 8]);
    expected.push(2);
    assert_eq!(m.input, expected);
    assert_eq!(m.workgroup_id_offset_loc, Some(20));
    assert_eq!(m.resource_info, vec![(77, 44), (88, 48)]);
    // an offset that the buffer has passed does not cut it
    let late = [InternalKernelArg { kind: InternalKernelArgType::WorkDim, size: 1, offset: 2 }];
    let m = marshal_launch(&args, &vals, &late, &ctx(32), 0).unwrap();
    assert_eq!(m.input, vec![7, 7, 7, 7, 2]);
}

#[test]
fn launch_errors() {
    let pointer = [arg(KernelArgType::MemGlobal, 8, 0, 0, false)];
    let constant = [arg(KernelArgType::Constant, 4, 0, 0, false)];
    let texture = [arg(KernelArgType::Texture, 0, 0, 0, false)];
    // a live argument without a value
    assert_eq!(marshal_launch(&pointer, &[None], &[], &ctx(64), 0).err(), Some(-52));
    // a null value where no pointer is expected
    assert_eq!(
        marshal_launch(&constant, &[Some(KernelArgValue::Null)], &[], &ctx(64), 0).err(),
        Some(-52)
    );
    // values that are not one for each argument
    assert_eq!(marshal_launch(&pointer, &[], &[], &ctx(64), 0).err(), Some(-52));
    assert_eq!(
        marshal_launch(&[], &[Some(KernelArgValue::Null)], &[], &ctx(64), 0).err(),
        Some(-52)
    );
    let mut m = Marshal::new(0);
    assert_eq!(m.add_args(&constant, &[], 64), Err(-52));
    assert_eq!(m.input, Vec::<u8>::new());
    // a buffer or image without a resource on the device
    let unbacked = Some(KernelArgValue::Buffer(BufferRef { resource: None, offset: 0 }));
    assert_eq!(marshal_launch(&pointer, &[unbacked], &[], &ctx(64), 0).err(), Some(-6));
    let unbacked = Some(KernelArgValue::Image(ImageRef { resource: None, ..image(0) }));
    assert_eq!(marshal_launch(&texture, &[unbacked], &[], &ctx(64), 0).err(), Some(-6));
}

#[test]
fn image_shape_must_fit_32_bits() {
    let texture = [arg(KernelArgType::Texture, 0, 0, 0, false)];
    let too_wide = (u32::MAX as u64 + 1) as usize;
    if too_wide == 0 {
        return;
    }
    let wide = ImageRef { res_is_buffer: true, width: too_wide, ..image(1) };
    assert_eq!(
        marshal_launch(&texture, &[Some(KernelArgValue::Image(wide))], &[], &ctx(64), 0).err(),
        Some(-6)
    );
    assert_eq!(wide.app_img_info(), Err(-6));
    assert_eq!(ImageRef { res_is_buffer: false, ..wide }.app_img_info(), Ok(None));
}

fn device() -> Device {
    Device {
        id: 3,
        address_bits: 64,
        max_block_sizes: [1024, 1024, 64],
        max_grid_size: [65535, 65535, 65535],
        printf_buffer_size: 1 << 20,
        svm_supported: false,
        shareable_shaders: true,
    }
}

fn kernel(args: Vec<KernelArg>, internal_args: Vec<InternalKernelArg>, simd_sizes: u32) -> Kernel {
    let info = ComputeStateInfo { max_threads: 1024, preferred_simd_size: 32, simd_sizes, private_memory: 48 };
    let facts = ShaderFacts {
        workgroup_size: [8, 4, 1],
        subgroup_size: 32,
        num_subgroups: 2,
        shared_size: 16,
        has_printf: false,
    };
    let r = SPIRVToNirResult::new(true, String::from("attr"), args, internal_args, &facts, info, None);
    let mut builds = HashMap::new();
    builds.insert(3, r.nir_kernel_build);
    Kernel::new(String::from("k"), r.kernel_info, builds, vec![device()])
}

#[test]
fn kernel_object_getters() {
    let k = kernel(vec![arg(KernelArgType::MemGlobal, 8, 0, 0, false)], vec![], 1 << 5);
    let d = device();
    assert_eq!(k.arg_values(), &vec![None]);
    assert_eq!(k.work_group_size(), [8, 4, 1]);
    assert_eq!(k.subgroup_size(), 32);
    assert_eq!(k.num_subgroups(), 2);
    assert_eq!(k.arg_name(0), &b"x".to_vec());
    assert_eq!(k.arg_type_name(0), &b"t".to_vec());
    assert_eq!(k.priv_mem_size(&d), 48);
    assert_eq!(k.max_threads_per_block(&d), 1024);
    assert_eq!(k.preferred_simd_size(&d), 32);
    assert_eq!(k.local_mem_size(&d), 16);
    assert!(!k.has_svm_devs());
    assert_eq!(k.access_qualifier(0), 0x11A2);
    assert_eq!(k.address_qualifier(0), 0x119B);
    assert_eq!(k.type_qualifier(0), 5);
    assert_eq!(k.kernel_info.attributes_string, "attr");
    assert!(k.build(&d).has_cso);
    assert_eq!(k.clone().values, k.values);
}

#[test]
fn qualifiers() {
    let mut a = arg(KernelArgType::Constant, 4, 0, 0, false);
    let mut seen = Vec::new();
    for (aq, tq, addr) in [
        (0, 0, AddressQualifier::Private),
        (1, 1, AddressQualifier::Constant),
        (2, 2, AddressQualifier::Local),
        (3, 0xf, AddressQualifier::Global),
        (4, 6, AddressQualifier::Global),
    ] {
        a.spirv.access_qualifier = aq;
        a.spirv.type_qualifier = tq;
        a.spirv.address_qualifier = addr;
        let k = kernel(vec![a.clone()], vec![], 0);
        seen.push((k.access_qualifier(0), k.type_qualifier(0), k.address_qualifier(0)));
    }
    assert_eq!(
        seen,
        vec![
            (0x11A3, 0, 0x119E),
            (0x11A0, 1, 0x119D),
            (0x11A1, 2, 0x119C),
            (0x11A2, 7, 0x119B),
            (0x11A3, 6, 0x119B),
        ]
    );
}

#[test]
fn binding_a_value() {
    let mut k = kernel(
        vec![
            arg(KernelArgType::Constant, 4, 0, 0, false),
            arg(KernelArgType::Constant, 4, 4, 0, false),
        ],
        vec![],
        0,
    );
    assert_eq!(k.set_kernel_arg(1, KernelArgValue::Constant(vec![1, 2, 3, 4])), Ok(()));
    assert_eq!(k.values, vec![None, Some(KernelArgValue::Constant(vec![1, 2, 3, 4]))]);
    assert_eq!(k.set_kernel_arg(2, KernelArgValue::Null), Err(-49));
    assert_eq!(k.values.len(), 2);
    assert_eq!(k.set_kernel_arg(1, KernelArgValue::LocalMem(2)), Ok(()));
    assert_eq!(k.values[1], Some(KernelArgValue::LocalMem(2)));
}

#[test]
fn subgroups() {
    let d = device();
    let none = kernel(vec![], vec![], 0);
    assert_eq!(none.subgroup_sizes(&d), Vec::<usize>::new());
    assert_eq!(none.subgroup_size_for_block(&d, &[8, 8]), SubgroupSize::Known(0));
    assert_eq!(none.subgroups_for_block(0, &[8, 8, 1]), 0);
    let one = kernel(vec![], vec![], 1 << 5);
    assert_eq!(one.subgroup_sizes(&d), vec![32]);
    assert_eq!(one.subgroup_size_for_block(&d, &[8, 8]), SubgroupSize::Known(32));
    assert_eq!(one.subgroups_for_block(32, &[8, 9, 1]), 3);
    let many = kernel(vec![], vec![], (1 << 3) | (1 << 4) | (1 << 6));
    assert_eq!(many.subgroup_sizes(&d), vec![64, 16, 8]);
    assert_eq!(many.subgroup_size_for_block(&d, &[8, 9]), SubgroupSize::AskDriver([8, 9, 1]));
    assert_eq!(many.subgroup_size_for_block(&d, &[]), SubgroupSize::AskDriver([1, 1, 1]));
}

#[test]
fn preparing_a_launch() {
    let mut k = kernel(
        vec![arg(KernelArgType::Constant, 4, 0, 0, false)],
        vec![InternalKernelArg { kind: InternalKernelArgType::NumWorkgroups, size: 12, offset: 4 }],
        1 << 5,
    );
    let d = device();
    k.set_kernel_arg(0, KernelArgValue::Constant(vec![5, 0, 0, 0])).unwrap();
    // the caller gives the whole block: the grid is divided by it
    let plan = k.launch(&d, 2, &[8, 4], &[64, 64], &[0, 16], None).unwrap();
    assert_eq!(plan.block, [8, 4, 1]);
    assert_eq!(plan.ctx.grid, [8, 16, 1]);
    assert_eq!(plan.ctx.offsets, [0, 16, 0]);
    assert_eq!(plan.ctx.work_dim, 2);
    assert_eq!(plan.marshal.input, vec![5, 0, 0, 0, 8, 0, 0, 0, 16, 0, 0, 0, 1, 0, 0, 0]);
    // a value bound after the launch was prepared has no effect on it
    k.set_kernel_arg(0, KernelArgValue::Constant(vec![6, 0, 0, 0])).unwrap();
    assert_eq!(plan.marshal.input[0], 5);
    // the caller leaves a dimension of the block open: a shape is suggested
    let plan = k.launch(&d, 2, &[0, 0], &[100, 100], &[], None).unwrap();
    assert_eq!(plan.block, [4, 4, 1]);
    assert_eq!(plan.ctx.grid, [25, 25, 1]);
    let mut grid = [100, 100, 1];
    let mut block = [0, 0, 0];
    k.suggest_local_size(&d, 2, &mut grid, &mut block);
    assert_eq!((grid, block), ([25, 25, 1], [4, 4, 0]));
    let mut grid = [12, 12, 12];
    let mut block = [2u32, 3, 4];
    k.optimize_local_size(&d, &mut grid, &mut block);
    assert_eq!((grid, block), ([6, 4, 3], [2, 3, 4]));
    // an argument without a value
    let unset = kernel(vec![arg(KernelArgType::Constant, 4, 0, 0, false)], vec![], 0);
    assert_eq!(unset.launch(&d, 1, &[1], &[1], &[], None).err(), Some(-52));
}

#[test]
fn marshal_starts_empty() {
    let m = Marshal::new(24);
    assert_eq!(m.input, Vec::<u8>::new());
    assert_eq!(m.variable_local_size, 24);
    assert_eq!(m.workgroup_id_offset_loc, None);
    let b = NirKernelBuild::new(
        false,
        ComputeStateInfo { max_threads: 1, preferred_simd_size: 1, simd_sizes: 1, private_memory: 0 },
        Some(4),
        8,
        true,
        vec![],
    );
    assert!(!b.has_cso);
    assert_eq!(b.constant_buffer, Some(4));
    assert!(b.has_printf);
    let info = KernelInfo {
        args: vec![],
        attributes_string: String::new(),
        work_group_size: [0; 3],
        subgroup_size: 0,
        num_subgroups: 0,
    };
    assert_eq!(info.clone(), info);
}

#[test]
fn workgroup_offsets_lie_inside_the_input() {
    for (bits, len) in [(64u32, 24usize), (32, 12)] {
        let internal = [
            InternalKernelArg { kind: InternalKernelArgType::WorkGroupOffsets, size: len, offset: 16 },
            InternalKernelArg { kind: InternalKernelArgType::WorkDim, size: 1, offset: 16 + len },
        ];
        let m = marshal_launch(&[], &[], &internal, &ctx(bits), 0).unwrap();
        assert_eq!(m.workgroup_id_offset_loc, Some(16));
        assert_eq!(m.input.len(), 16 + len + 1);
        // the place is the last thing in the buffer
        let m = marshal_launch(&[], &[], &internal[..1], &ctx(bits), 0).unwrap();
        let loc = m.workgroup_id_offset_loc.unwrap();
        assert_eq!(loc + len, m.input.len());
        let mut input = m.input;
        write_workgroup_offsets(&mut input, loc, &[1, 2, 3], bits);
        assert_eq!(input.len(), 16 + len);
    }
    let k = kernel(
        vec![],
        vec![InternalKernelArg { kind: InternalKernelArgType::WorkGroupOffsets, size: 24, offset: 0 }],
        0,
    );
    let plan = k.launch(&device(), 1, &[1], &[1], &[], None).unwrap();
    assert_eq!(plan.marshal.workgroup_id_offset_loc, Some(0));
    assert_eq!(plan.marshal.input.len(), 24);
}

#[test]
fn a_printing_kernel_needs_its_buffer() {
    let info = ComputeStateInfo { max_threads: 1, preferred_simd_size: 1, simd_sizes: 1, private_memory: 0 };
    let prints = NirKernelBuild::new(false, info, None, 0, true, vec![]);
    assert_eq!(prints.printf_buffer(Some(9)), Ok(Some(9)));
    assert_eq!(prints.printf_buffer(None), Err(-5));
    let silent = NirKernelBuild::new(false, info, None, 0, false, vec![]);
    assert_eq!(silent.printf_buffer(None), Ok(None));
    assert_eq!(silent.printf_buffer(Some(9)), Ok(None));
}

#[test]
fn values_must_match_the_parameters() {
    let mut k = kernel(vec![arg(KernelArgType::Constant, 4, 0, 0, false)], vec![], 0);
    k.set_kernel_arg(0, KernelArgValue::Constant(vec![1, 2, 3, 4])).unwrap();
    k.values.push(None);
    assert_eq!(k.launch(&device(), 1, &[1], &[1], &[], None).err(), Some(-52));
    k.values.clear();
    assert_eq!(k.launch(&device(), 1, &[1], &[1], &[], None).err(), Some(-52));
}
