//! A kernel object: the argument layout that all its launches share,
//! the values bound to its arguments, and what is known of its build
//! for each device.

use crate::kernel::args::{
    AddressQualifier, arg_views, InternalKernelArg, KernelArg, parse_args, parse_internals,
    ser_args, ser_internals,
};
use crate::kernel::blob::{Blob, BlobReader};
use crate::kernel::launch::{
    args_added, bindings_ordered, images_wf, internals_ok, KernelArgValue, launch_spec,
    LaunchContext, Marshal, marshal_launch, MarshalView, place_inside,
};
use crate::kernel::local_size::{
    CL_OUT_OF_RESOURCES, create_kernel_arr, create_kernel_arr_u32, kernel_arr, kernel_arr_u32,
    product, suggest_local_size_for, suggested,
};
use crate::kernel::math::{div_round_up, div_round_up_spec};
use std::collections::HashMap;
use vstd::prelude::*;

verus! {

broadcast use vstd::std_specs::hash::group_hash_axioms;

/// The status of an argument index past the kernel's parameters.
pub const CL_INVALID_ARG_INDEX: i32 = -49;

pub const CL_KERNEL_ARG_ADDRESS_GLOBAL: u32 = 0x119B;

pub const CL_KERNEL_ARG_ADDRESS_LOCAL: u32 = 0x119C;

pub const CL_KERNEL_ARG_ADDRESS_CONSTANT: u32 = 0x119D;

pub const CL_KERNEL_ARG_ADDRESS_PRIVATE: u32 = 0x119E;

pub const CL_KERNEL_ARG_ACCESS_READ_ONLY: u32 = 0x11A0;

pub const CL_KERNEL_ARG_ACCESS_WRITE_ONLY: u32 = 0x11A1;

pub const CL_KERNEL_ARG_ACCESS_READ_WRITE: u32 = 0x11A2;

pub const CL_KERNEL_ARG_ACCESS_NONE: u32 = 0x11A3;

pub const CL_KERNEL_ARG_TYPE_CONST: u64 = 1;

pub const CL_KERNEL_ARG_TYPE_RESTRICT: u64 = 2;

pub const CL_KERNEL_ARG_TYPE_VOLATILE: u64 = 4;

/// What a launch needs to know of a device.
#[derive(Clone, Copy, Debug, PartialEq, Eq)]
pub struct Device {
    pub id: u32,
    /// 32 or 64.
    pub address_bits: u32,
    /// The most threads that a block can have along each dimension.
    pub max_block_sizes: [usize; 3],
    /// The most workgroups that one dispatch can have along each
    /// dimension.
    pub max_grid_size: [u64; 3],
    pub printf_buffer_size: usize,
    pub svm_supported: bool,
    /// The device can share compiled programs between kernel objects.
    pub shareable_shaders: bool,
}

/// What the driver reports of a compiled kernel.
#[derive(Clone, Copy, Debug, PartialEq, Eq, Structural)]
pub struct ComputeStateInfo {
    pub max_threads: u32,
    pub preferred_simd_size: u32,
    /// One bit for each subgroup size that the device offers: bit `b`
    /// stands for a size of `2^b`.
    pub simd_sizes: u32,
    pub private_memory: u32,
}

/// What a kernel object shares with all others of the same program.
#[derive(Clone, Debug, PartialEq, Eq, Hash)]
pub struct KernelInfo {
    pub args: Vec<KernelArg>,
    pub attributes_string: String,
    pub work_group_size: [usize; 3],
    pub subgroup_size: usize,
    pub num_subgroups: usize,
}

/// The build of a kernel for one device.
#[derive(Clone, Debug, PartialEq, Eq)]
pub struct NirKernelBuild {
    /// The compiled program is kept; else the shader is, and is
    /// compiled for every launch.
    pub has_cso: bool,
    /// The resource of the kernel's constant data, if it has any.
    pub constant_buffer: Option<u64>,
    pub info: ComputeStateInfo,
    /// The local memory that the kernel itself uses.
    pub shared_size: u64,
    /// The kernel may emit formatted output.
    pub has_printf: bool,
    pub internal_args: Vec<InternalKernelArg>,
}

/// The printf buffer of a launch, from what the allocation gave: a
/// kernel that does not print takes none; one that prints takes the
/// buffer that was allocated for it, and a failed allocation is
/// refused as out of resources.
pub open spec fn printf_buffer_spec(has_printf: bool, allocated: Option<u64>) -> Result<
    Option<u64>,
    i32,
> {
    if !has_printf {
        Ok(None)
    } else {
        match allocated {
            Some(buf) => Ok(Some(buf)),
            None => Err(CL_OUT_OF_RESOURCES),
        }
    }
}

impl NirKernelBuild {
    /// The build of a kernel for a device: the compiled program is
    /// kept only where the device can share it.
    pub fn new(
        shareable_shaders: bool,
        info: ComputeStateInfo,
        constant_buffer: Option<u64>,
        shared_size: u64,
        has_printf: bool,
        internal_args: Vec<InternalKernelArg>,
    ) -> (b: NirKernelBuild)
        ensures
            b.has_cso == shareable_shaders,
            b.constant_buffer == constant_buffer,
            b.info == info,
            b.shared_size == shared_size,
            b.has_printf == has_printf,
            b.internal_args == internal_args,
    {
        NirKernelBuild {
            has_cso: shareable_shaders,
            constant_buffer,
            info,
            shared_size,
            has_printf,
            internal_args,
        }
    }

    /// Settles the printf buffer of a launch of this build from what
    /// the allocation gave: a failed allocation for a kernel that
    /// prints is refused as out of resources.
    pub fn printf_buffer(&self, allocated: Option<u64>) -> (r: Result<Option<u64>, i32>)
        ensures
            r == printf_buffer_spec(self.has_printf, allocated),
    {
        if !self.has_printf {
            return Ok(None);
        }
        match allocated {
            Some(buf) => Ok(Some(buf)),
            None => Err(CL_OUT_OF_RESOURCES),
        }
    }
}

/// What lowering a kernel for a device results in.
pub struct SPIRVToNirResult {
    pub kernel_info: KernelInfo,
    pub nir_kernel_build: NirKernelBuild,
}

/// What the shader says of the kernel when lowering is done.
#[derive(Clone, Copy, Debug, PartialEq, Eq)]
pub struct ShaderFacts {
    pub workgroup_size: [u16; 3],
    pub subgroup_size: u8,
    pub num_subgroups: u8,
    pub shared_size: u32,
    pub has_printf: bool,
}

impl SPIRVToNirResult {
    /// Puts the result of lowering together.
    pub fn new(
        shareable_shaders: bool,
        attributes_string: String,
        args: Vec<KernelArg>,
        internal_args: Vec<InternalKernelArg>,
        facts: &ShaderFacts,
        info: ComputeStateInfo,
        constant_buffer: Option<u64>,
    ) -> (r: SPIRVToNirResult)
        ensures
            r.kernel_info.args == args,
            r.kernel_info.attributes_string == attributes_string,
            r.kernel_info.work_group_size@ == seq![
                facts.workgroup_size@[0] as usize,
                facts.workgroup_size@[1] as usize,
                facts.workgroup_size@[2] as usize,
            ],
            r.kernel_info.subgroup_size == facts.subgroup_size,
            r.kernel_info.num_subgroups == facts.num_subgroups,
            r.nir_kernel_build.has_cso == shareable_shaders,
            r.nir_kernel_build.constant_buffer == constant_buffer,
            r.nir_kernel_build.info == info,
            r.nir_kernel_build.shared_size == facts.shared_size,
            r.nir_kernel_build.has_printf == facts.has_printf,
            r.nir_kernel_build.internal_args == internal_args,
    {
        let wgs = facts.workgroup_size;
        let work_group_size: [usize; 3] = [wgs[0] as usize, wgs[1] as usize, wgs[2] as usize];
        assert(work_group_size@ =~= seq![
            facts.workgroup_size@[0] as usize,
            facts.workgroup_size@[1] as usize,
            facts.workgroup_size@[2] as usize,
        ]);
        let kernel_info = KernelInfo {
            args,
            attributes_string,
            work_group_size,
            subgroup_size: facts.subgroup_size as usize,
            num_subgroups: facts.num_subgroups as usize,
        };
        SPIRVToNirResult {
            kernel_info,
            nir_kernel_build: NirKernelBuild::new(
                shareable_shaders,
                info,
                constant_buffer,
                facts.shared_size as u64,
                facts.has_printf,
                internal_args,
            ),
        }
    }

    /// Reads the two argument lists of a cache entry, from where the
    /// shader ends.  An entry that does not hold both lists whole gives
    /// `None`: the kernel is then lowered from its source again.
    pub fn deserialize(reader: &mut BlobReader) -> (r: Option<(Vec<KernelArg>, Vec<InternalKernelArg>)>)
        requires
            old(reader).wf(),
        ensures
            final(reader).wf(),
            final(reader).data == old(reader).data,
            match parse_args(old(reader).data@, old(reader).pos as int) {
                Some((args, p)) => match parse_internals(old(reader).data@, p) {
                    Some((internal_args, q)) => r matches Some(lists) && arg_views(lists.0@) == args
                        && lists.1@ == internal_args && final(reader).pos == q,
                    None => r is None,
                },
                None => r is None,
            },
    {
        let args = KernelArg::deserialize(reader)?;
        let internal_args = InternalKernelArg::deserialize(reader)?;
        Some((args, internal_args))
    }

    /// Appends the two argument lists to a cache entry, after the
    /// shader.
    pub fn serialize(blob: &mut Blob, args: &[KernelArg], internal_args: &[InternalKernelArg])
        ensures
            final(blob)@ == old(blob)@ + ser_args(arg_views(args@)) + ser_internals(
                internal_args@,
            ),
    {
        KernelArg::serialize(args, blob);
        InternalKernelArg::serialize(internal_args, blob);
    }
}

/// How the subgroup size of a block is found.
#[derive(Clone, Copy, Debug, PartialEq, Eq)]
pub enum SubgroupSize {
    /// The size is known.
    Known(usize),
    /// The device offers several sizes: the driver has to be asked for
    /// the one it will use for this block.
    AskDriver([u32; 3]),
}

/// A kernel object.
#[derive(Clone, Debug)]
pub struct Kernel {
    pub name: String,
    /// The value bound to each parameter, if one is.
    pub values: Vec<Option<KernelArgValue>>,
    /// The build of the kernel for each device, by the device's id.
    pub builds: HashMap<u32, NirKernelBuild>,
    pub kernel_info: KernelInfo,
    /// The devices that the kernel's program was built for.
    pub devs: Vec<Device>,
}

/// A launch that is ready to be dispatched.  It holds all that the
/// launch was made from: a value that is bound to a parameter later
/// has no effect on it.
pub struct LaunchPlan {
    /// The input buffer and what the device needs besides it.
    pub marshal: Marshal,
    /// The dimensions, the global offsets and the number of workgroups
    /// of the launch.
    pub ctx: LaunchContext,
    /// The shape of a workgroup.
    pub block: [u32; 3],
}

/// The caller gave the workgroup shape in full.
pub open spec fn block_given(block: Seq<u32>) -> bool {
    block[0] != 0 && block[1] != 0 && block[2] != 0
}

pub open spec fn block_usize(block: Seq<u32>) -> Seq<usize> {
    seq![block[0] as usize, block[1] as usize, block[2] as usize]
}

/// The number of workgroups of a launch: the grid divided by the
/// workgroup shape that the caller gave, or by the suggested one.
pub open spec fn optimized_grid(
    threads: nat,
    dims: Seq<usize>,
    subgroups: nat,
    grid: Seq<usize>,
    block: Seq<u32>,
) -> Seq<usize> {
    if block_given(block) {
        seq![
            grid[0] / (block[0] as usize),
            grid[1] / (block[1] as usize),
            grid[2] / (block[2] as usize),
        ]
    } else {
        suggested(threads, dims, subgroups, 3, grid, block_usize(block)).grid
    }
}

/// The workgroup shape of a launch: what the caller gave, or the
/// suggested one.
pub open spec fn optimized_block(
    threads: nat,
    dims: Seq<usize>,
    subgroups: nat,
    grid: Seq<usize>,
    block: Seq<u32>,
) -> Seq<u32> {
    if block_given(block) {
        block
    } else {
        let b = suggested(threads, dims, subgroups, 3, grid, block_usize(block)).block;
        seq![b[0] as u32, b[1] as u32, b[2] as u32]
    }
}

/// The subgroup sizes that a mask of sizes holds from bit `bit` down,
/// largest first.
pub open spec fn sizes_from(mask: u32, bit: int) -> Seq<usize>
    decreases bit + 1,
{
    if bit < 0 {
        Seq::empty()
    } else if (mask >> (bit as u32)) & 1 == 1 {
        seq![(1usize << (bit as usize))] + sizes_from(mask, bit - 1)
    } else {
        sizes_from(mask, bit - 1)
    }
}

/// The access qualifier of a parameter in the terms of the host API.
pub open spec fn access_qualifier_spec(aq: u32) -> u32 {
    if aq == 3 {
        CL_KERNEL_ARG_ACCESS_READ_WRITE
    } else if aq == 1 {
        CL_KERNEL_ARG_ACCESS_READ_ONLY
    } else if aq == 2 {
        CL_KERNEL_ARG_ACCESS_WRITE_ONLY
    } else {
        CL_KERNEL_ARG_ACCESS_NONE
    }
}

pub open spec fn address_qualifier_spec(q: AddressQualifier) -> u32 {
    match q {
        AddressQualifier::Private => CL_KERNEL_ARG_ADDRESS_PRIVATE,
        AddressQualifier::Constant => CL_KERNEL_ARG_ADDRESS_CONSTANT,
        AddressQualifier::Local => CL_KERNEL_ARG_ADDRESS_LOCAL,
        AddressQualifier::Global => CL_KERNEL_ARG_ADDRESS_GLOBAL,
    }
}

/// The type qualifiers of a parameter in the terms of the host API:
/// const, restrict and volatile, each where the source has it.
pub open spec fn type_qualifier_spec(tq: u32) -> u64 {
    (if tq & 1 != 0 {
        CL_KERNEL_ARG_TYPE_CONST
    } else {
        0
    }) | (if tq & 2 != 0 {
        CL_KERNEL_ARG_TYPE_RESTRICT
    } else {
        0
    }) | (if tq & 4 != 0 {
        CL_KERNEL_ARG_TYPE_VOLATILE
    } else {
        0
    })
}

impl Kernel {
    /// The kernel has a build for the device.
    pub open spec fn built_for(&self, dev: &Device) -> bool {
        self.builds@.contains_key(dev.id)
    }

    /// A kernel object with no value bound to any parameter.
    pub fn new(
        name: String,
        kernel_info: KernelInfo,
        builds: HashMap<u32, NirKernelBuild>,
        devs: Vec<Device>,
    ) -> (k: Kernel)
        ensures
            k.name == name,
            k.kernel_info == kernel_info,
            k.builds == builds,
            k.devs == devs,
            k.values@.len() == kernel_info.args@.len(),
            forall|i: int| 0 <= i < k.values@.len() ==> (#[trigger] k.values@[i]) is None,
    {
        let mut values: Vec<Option<KernelArgValue>> = Vec::new();
        let mut i: usize = 0;
        while i < kernel_info.args.len()
            invariant
                i <= kernel_info.args@.len(),
                values@.len() == i,
                forall|j: int| 0 <= j < i ==> (#[trigger] values@[j]) is None,
            decreases kernel_info.args@.len() - i,
        {
            values.push(None);
            i = i + 1;
        }
        Kernel { name, values, builds, kernel_info, devs }
    }

    /// Suggests a workgroup shape for a grid on a device.
    pub fn suggest_local_size(
        &self,
        d: &Device,
        work_dim: usize,
        grid: &mut [usize; 3],
        block: &mut [usize; 3],
    )
        requires
            self.built_for(d),
            work_dim <= 3,
            self.builds@[d.id].info.max_threads >= 1,
            forall|i: int| 0 <= i < work_dim ==> (#[trigger] d.max_block_sizes@[i]) >= 1,
        ensures
            final(grid)@ == suggested(
                self.builds@[d.id].info.max_threads as nat,
                d.max_block_sizes@,
                self.builds@[d.id].info.preferred_simd_size as nat,
                work_dim as nat,
                old(grid)@,
                old(block)@,
            ).grid,
            final(block)@ == suggested(
                self.builds@[d.id].info.max_threads as nat,
                d.max_block_sizes@,
                self.builds@[d.id].info.preferred_simd_size as nat,
                work_dim as nat,
                old(grid)@,
                old(block)@,
            ).block,
            forall|j: int|
                0 <= j < work_dim ==> (#[trigger] final(block)@[j]) * final(grid)@[j] == old(grid)@[j],
            1 <= product(final(block)@, work_dim as nat) <= self.builds@[d.id].info.max_threads,
            self.builds@[d.id].info.max_threads as nat % product(final(block)@, work_dim as nat)
                == 0,
            forall|j: int|
                0 <= j < work_dim ==> 1 <= (#[trigger] final(block)@[j])
                    <= self.builds@[d.id].info.max_threads,
    {
        let threads = self.max_threads_per_block(d);
        let subgroups = self.preferred_simd_size(d);
        suggest_local_size_for(threads, &d.max_block_sizes, subgroups, work_dim, grid, block);
    }

    /// Settles the workgroup shape of a launch.  A shape that the
    /// caller gave in full is taken as it is, and the grid is divided
    /// by it; else one is suggested.
    pub fn optimize_local_size(&self, d: &Device, grid: &mut [usize; 3], block: &mut [u32; 3])
        requires
            self.built_for(d),
            self.builds@[d.id].info.max_threads >= 1,
            forall|i: int| 0 <= i < 3 ==> (#[trigger] d.max_block_sizes@[i]) >= 1,
        ensures
            final(grid)@ == optimized_grid(
                self.builds@[d.id].info.max_threads as nat,
                d.max_block_sizes@,
                self.builds@[d.id].info.preferred_simd_size as nat,
                old(grid)@,
                old(block)@,
            ),
            final(block)@ == optimized_block(
                self.builds@[d.id].info.max_threads as nat,
                d.max_block_sizes@,
                self.builds@[d.id].info.preferred_simd_size as nat,
                old(grid)@,
                old(block)@,
            ),
            !block_given(old(block)@) ==> (forall|j: int|
                0 <= j < 3 ==> (#[trigger] final(block)@[j]) * final(grid)@[j] == old(grid)@[j])
                && 1 <= final(block)@[0] * final(block)@[1] * final(block)@[2]
                <= self.builds@[d.id].info.max_threads
                && self.builds@[d.id].info.max_threads as int
                % (final(block)@[0] * final(block)@[1] * final(block)@[2]) == 0,
    {
        if block[0] != 0 && block[1] != 0 && block[2] != 0 {
            // we already made sure everything is fine
            grid[0] = grid[0] / block[0] as usize;
            grid[1] = grid[1] / block[1] as usize;
            grid[2] = grid[2] / block[2] as usize;
            assert(grid@ =~= optimized_grid(
                self.builds@[d.id].info.max_threads as nat,
                d.max_block_sizes@,
                self.builds@[d.id].info.preferred_simd_size as nat,
                old(grid)@,
                old(block)@,
            ));
            return ;
        }
        let mut usize_block: [usize; 3] = [block[0] as usize, block[1] as usize, block[2] as usize];
        assert(usize_block@ =~= block_usize(block@));
        self.suggest_local_size(d, 3, grid, &mut usize_block);
        proof {
            let b = usize_block@;
            assert(product(b, 3) == product(b, 2) * b[2]);
            assert(product(b, 2) == product(b, 1) * b[1]);
            assert(product(b, 1) == product(b, 0) * b[0]);
            assert(b[0] <= u32::MAX && b[1] <= u32::MAX && b[2] <= u32::MAX);
            assert(product(b, 3) == b[0] * b[1] * b[2]) by (nonlinear_arith)
                requires
                    product(b, 3) == product(b, 2) * b[2],
                    product(b, 2) == product(b, 1) * b[1],
                    product(b, 1) == 1 * b[0],
            ;
        }
        block[0] = usize_block[0] as u32;
        block[1] = usize_block[1] as u32;
        block[2] = usize_block[2] as u32;
        assert(block@ =~= optimized_block(
            self.builds@[d.id].info.max_threads as nat,
            d.max_block_sizes@,
            self.builds@[d.id].info.preferred_simd_size as nat,
            old(grid)@,
            old(block)@,
        ));
    }

    /// A launch can be prepared: the kernel is built for the device,
    /// the device's limits are not zero, at most three dimensions are
    /// given, images come in the order of their bindings, and the
    /// resources that internal arguments point to are at hand.
    pub open spec fn launch_ready(
        &self,
        dev: &Device,
        block: Seq<usize>,
        grid: Seq<usize>,
        offsets: Seq<usize>,
        printf_buf: Option<u64>,
    ) -> bool {
        &&& self.built_for(dev)
        &&& block.len() <= 3
        &&& grid.len() <= 3
        &&& offsets.len() <= 3
        &&& self.builds@[dev.id].info.max_threads >= 1
        &&& forall|i: int| 0 <= i < 3 ==> (#[trigger] dev.max_block_sizes@[i]) >= 1
        &&& bindings_ordered(Marshal::empty(0), self.kernel_info.args@, self.values@, 0)
        &&& images_wf(self.values@)
        &&& internals_ok(
            self.builds@[dev.id].internal_args@,
            self.builds@[dev.id].constant_buffer,
            printf_buf,
        )
    }

    /// Whether a launch can be prepared.
    pub fn can_launch(
        &self,
        dev: &Device,
        block: &[usize],
        grid: &[usize],
        offsets: &[usize],
        printf_buf: Option<u64>,
    ) -> (r: bool)
        ensures
            r == self.launch_ready(dev, block@, grid@, offsets@, printf_buf),
    {
        let build = match self.builds.get(&dev.id) {
            Some(b) => b,
            None => {
                return false;
            },
        };
        if block.len() > 3 || grid.len() > 3 || offsets.len() > 3 || build.info.max_threads < 1 {
            return false;
        }
        if dev.max_block_sizes[0] < 1 || dev.max_block_sizes[1] < 1 || dev.max_block_sizes[2] < 1 {
            return false;
        }
        crate::kernel::launch::check_bindings_ordered(
            self.kernel_info.args.as_slice(),
            self.values.as_slice(),
        ) && crate::kernel::launch::check_images_wf(self.values.as_slice())
            && crate::kernel::launch::check_internals_ok(
            build.internal_args.as_slice(),
            build.constant_buffer,
            printf_buf,
        )
    }

    /// Prepares a launch of the kernel on a device: settles the
    /// workgroup shape, and marshals the values that are bound to the
    /// parameters now.  A block size that does not fit 32 bits is
    /// refused as out of resources; values that are not one for each
    /// parameter, a live parameter without a value, or one with a null
    /// value where none is allowed, as invalid kernel arguments.  The
    /// place that the plan remembers for the workgroup offsets lies
    /// inside its input buffer.
    pub fn launch(
        &self,
        dev: &Device,
        work_dim: u32,
        block: &[usize],
        grid: &[usize],
        offsets: &[usize],
        printf_buf: Option<u64>,
    ) -> (r: Result<LaunchPlan, i32>)
        requires
            self.launch_ready(dev, block@, grid@, offsets@, printf_buf),
        ensures
            (exists|i: int| 0 <= i < block@.len() && block@[i] > u32::MAX) ==> (r matches Err(e)
                && e == CL_OUT_OF_RESOURCES),
            (forall|i: int| 0 <= i < block@.len() ==> block@[i] <= u32::MAX) ==> match args_added(
                Marshal::empty(self.builds@[dev.id].shared_size),
                self.kernel_info.args@,
                self.values@,
                dev.address_bits,
            ) {
                Err(e) => r matches Err(code) && code == e,
                Ok(_) => r matches Ok(plan) && plan.ctx.address_bits == dev.address_bits
                    && plan.ctx.work_dim == work_dim && plan.ctx.offsets@ == kernel_arr(
                    offsets@,
                    0,
                ) && plan.ctx.grid@ == optimized_grid(
                    self.builds@[dev.id].info.max_threads as nat,
                    dev.max_block_sizes@,
                    self.builds@[dev.id].info.preferred_simd_size as nat,
                    kernel_arr(grid@, 1),
                    kernel_arr_u32(block@, 1),
                ) && plan.block@ == optimized_block(
                    self.builds@[dev.id].info.max_threads as nat,
                    dev.max_block_sizes@,
                    self.builds@[dev.id].info.preferred_simd_size as nat,
                    kernel_arr(grid@, 1),
                    kernel_arr_u32(block@, 1),
                ) && plan.ctx.constant_buffer == self.builds@[dev.id].constant_buffer
                    && plan.ctx.printf_buf == printf_buf && launch_spec(
                    self.kernel_info.args@,
                    self.values@,
                    self.builds@[dev.id].internal_args@,
                    plan.ctx,
                    self.builds@[dev.id].shared_size,
                ) == Ok::<MarshalView, i32>(plan.marshal@),
            },
            r matches Ok(plan) ==> place_inside(plan.marshal@, dev.address_bits),
    {
        let build = self.build(dev);
        assert(bindings_ordered(
            Marshal::empty(build.shared_size),
            self.kernel_info.args@,
            self.values@,
            0,
        ));
        // operations we want to report errors to the clients
        let mut block_arr: [u32; 3] = match create_kernel_arr_u32(block, 1) {
            Ok(b) => b,
            Err(e) => {
                return Err(e);
            },
        };
        let mut grid_arr: [usize; 3] = match create_kernel_arr(grid, 1) {
            Ok(g) => g,
            Err(e) => {
                return Err(e);
            },
        };
        let offsets_arr: [usize; 3] = match create_kernel_arr(offsets, 0) {
            Ok(o) => o,
            Err(e) => {
                return Err(e);
            },
        };
        self.optimize_local_size(dev, &mut grid_arr, &mut block_arr);
        let ctx = LaunchContext {
            address_bits: dev.address_bits,
            work_dim,
            offsets: offsets_arr,
            grid: grid_arr,
            constant_buffer: build.constant_buffer,
            printf_buf,
        };
        match marshal_launch(
            self.kernel_info.args.as_slice(),
            self.values.as_slice(),
            build.internal_args.as_slice(),
            &ctx,
            build.shared_size,
        ) {
            Ok(marshal) => Ok(LaunchPlan { marshal, ctx, block: block_arr }),
            Err(e) => Err(e),
        }
    }

    /// The values bound to the parameters.
    pub fn arg_values(&self) -> (v: &Vec<Option<KernelArgValue>>)
        ensures
            *v == self.values,
    {
        &self.values
    }

    /// Binds a value to a parameter.  An index past the parameters is
    /// refused.
    pub fn set_kernel_arg(&mut self, idx: usize, arg: KernelArgValue) -> (r: Result<(), i32>)
        ensures
            idx < old(self).values@.len() ==> r is Ok && final(self).values@ == old(self).values@.update(idx as int, Some(arg)),
            idx >= old(self).values@.len() ==> r == Err::<(), i32>(CL_INVALID_ARG_INDEX) && final(self).values@ == old(self).values@,
            final(self).kernel_info == old(self).kernel_info,
            final(self).builds == old(self).builds,
            final(self).name == old(self).name,
            final(self).devs == old(self).devs,
    {
        if idx >= self.values.len() {
            return Err(CL_INVALID_ARG_INDEX);
        }
        self.values[idx] = Some(arg);
        Ok(())
    }

    /// The access qualifier of a parameter.
    pub fn access_qualifier(&self, idx: u32) -> (r: u32)
        requires
            idx < self.kernel_info.args@.len(),
        ensures
            r == access_qualifier_spec(self.kernel_info.args@[idx as int].spirv.access_qualifier),
    {
        let aq: u32 = self.kernel_info.args[idx as usize].spirv.access_qualifier;
        if aq == 3 {
            CL_KERNEL_ARG_ACCESS_READ_WRITE
        } else if aq == 1 {
            CL_KERNEL_ARG_ACCESS_READ_ONLY
        } else if aq == 2 {
            CL_KERNEL_ARG_ACCESS_WRITE_ONLY
        } else {
            CL_KERNEL_ARG_ACCESS_NONE
        }
    }

    /// The address qualifier of a parameter.
    pub fn address_qualifier(&self, idx: u32) -> (r: u32)
        requires
            idx < self.kernel_info.args@.len(),
        ensures
            r == address_qualifier_spec(
                self.kernel_info.args@[idx as int].spirv.address_qualifier,
            ),
    {
        match self.kernel_info.args[idx as usize].spirv.address_qualifier {
            AddressQualifier::Private => CL_KERNEL_ARG_ADDRESS_PRIVATE,
            AddressQualifier::Constant => CL_KERNEL_ARG_ADDRESS_CONSTANT,
            AddressQualifier::Local => CL_KERNEL_ARG_ADDRESS_LOCAL,
            AddressQualifier::Global => CL_KERNEL_ARG_ADDRESS_GLOBAL,
        }
    }

    /// The type qualifiers of a parameter.
    pub fn type_qualifier(&self, idx: u32) -> (r: u64)
        requires
            idx < self.kernel_info.args@.len(),
        ensures
            r == type_qualifier_spec(self.kernel_info.args@[idx as int].spirv.type_qualifier),
    {
        let tq: u32 = self.kernel_info.args[idx as usize].spirv.type_qualifier;
        let mut res: u64 = 0;
        if tq & 1 != 0 {
            res = res | CL_KERNEL_ARG_TYPE_CONST;
        }
        if tq & 2 != 0 {
            res = res | CL_KERNEL_ARG_TYPE_RESTRICT;
        }
        if tq & 4 != 0 {
            res = res | CL_KERNEL_ARG_TYPE_VOLATILE;
        }
        proof {
            let a: u64 = if tq & 1 != 0 {
                1
            } else {
                0
            };
            let b: u64 = if tq & 2 != 0 {
                2
            } else {
                0
            };
            let c: u64 = if tq & 4 != 0 {
                4
            } else {
                0
            };
            assert(0u64 | a == a) by (bit_vector);
            assert(a | 0u64 == a) by (bit_vector);
            assert((a | b) | 0u64 == a | b) by (bit_vector);
        }
        res
    }

    pub fn work_group_size(&self) -> (r: [usize; 3])
        ensures
            r == self.kernel_info.work_group_size,
    {
        self.kernel_info.work_group_size
    }

    pub fn num_subgroups(&self) -> (r: usize)
        ensures
            r == self.kernel_info.num_subgroups,
    {
        self.kernel_info.num_subgroups
    }

    pub fn subgroup_size(&self) -> (r: usize)
        ensures
            r == self.kernel_info.subgroup_size,
    {
        self.kernel_info.subgroup_size
    }

    /// The name of a parameter, as UTF-8 bytes.
    pub fn arg_name(&self, idx: u32) -> (r: &Vec<u8>)
        requires
            idx < self.kernel_info.args@.len(),
        ensures
            *r == self.kernel_info.args@[idx as int].spirv.name,
    {
        &self.kernel_info.args[idx as usize].spirv.name
    }

    /// The name of the type of a parameter, as UTF-8 bytes.
    pub fn arg_type_name(&self, idx: u32) -> (r: &Vec<u8>)
        requires
            idx < self.kernel_info.args@.len(),
        ensures
            *r == self.kernel_info.args@[idx as int].spirv.ty_name,
    {
        &self.kernel_info.args[idx as usize].spirv.ty_name
    }

    /// The build of the kernel for a device.
    pub fn build(&self, dev: &Device) -> (b: &NirKernelBuild)
        requires
            self.built_for(dev),
        ensures
            *b == self.builds@[dev.id],
    {
        let b = self.builds.get(&dev.id);
        b.unwrap()
    }

    pub fn priv_mem_size(&self, dev: &Device) -> (r: u64)
        requires
            self.built_for(dev),
        ensures
            r == self.builds@[dev.id].info.private_memory,
    {
        self.build(dev).info.private_memory as u64
    }

    pub fn max_threads_per_block(&self, dev: &Device) -> (r: usize)
        requires
            self.built_for(dev),
        ensures
            r == self.builds@[dev.id].info.max_threads,
    {
        self.build(dev).info.max_threads as usize
    }

    pub fn preferred_simd_size(&self, dev: &Device) -> (r: usize)
        requires
            self.built_for(dev),
        ensures
            r == self.builds@[dev.id].info.preferred_simd_size,
    {
        self.build(dev).info.preferred_simd_size as usize
    }

    /// The local memory that the kernel itself uses; what arguments
    /// reserve is not counted.
    pub fn local_mem_size(&self, dev: &Device) -> (r: u64)
        requires
            self.built_for(dev),
        ensures
            r == self.builds@[dev.id].shared_size,
    {
        self.build(dev).shared_size
    }

    /// Whether a device of the kernel's program supports shared
    /// virtual memory.
    pub fn has_svm_devs(&self) -> (r: bool)
        ensures
            r == exists|i: int| 0 <= i < self.devs@.len() && (#[trigger] self.devs@[i]).svm_supported,
    {
        let mut i: usize = 0;
        while i < self.devs.len()
            invariant
                i <= self.devs@.len(),
                forall|j: int| 0 <= j < i ==> !(#[trigger] self.devs@[j]).svm_supported,
            decreases self.devs@.len() - i,
        {
            if self.devs[i].svm_supported {
                return true;
            }
            i = i + 1;
        }
        false
    }

    /// The subgroup sizes that a device offers for the kernel, largest
    /// first.
    pub fn subgroup_sizes(&self, dev: &Device) -> (r: Vec<usize>)
        requires
            self.built_for(dev),
        ensures
            r@ == sizes_from(self.builds@[dev.id].info.simd_sizes, 31),
    {
        let mask: u32 = self.build(dev).info.simd_sizes;
        let mut res: Vec<usize> = Vec::new();
        let mut bit: u32 = 32;
        while bit > 0
            invariant
                bit <= 32,
                res@ + sizes_from(mask, bit - 1) == sizes_from(mask, 31),
            decreases bit,
        {
            bit = bit - 1;
            let ghost before = res@;
            if (mask >> bit) & 1 == 1 {
                res.push(1usize << (bit as usize));
                assert(res@ + sizes_from(mask, bit - 1) =~= before + sizes_from(mask, bit as int));
            }
        }
        assert(res@ + sizes_from(mask, -1) =~= res@);
        res
    }

    /// The number of subgroups that a block is split into, given the
    /// subgroup size that is used for it; none for a size of zero.
    pub fn subgroups_for_block(&self, subgroup_size: usize, block: &[usize; 3]) -> (r: usize)
        requires
            block@[0] * block@[1] * block@[2] <= usize::MAX,
        ensures
            r == if subgroup_size == 0 {
                0
            } else {
                div_round_up_spec((block@[0] * block@[1] * block@[2]) as nat, subgroup_size as nat)
            },
    {
        if subgroup_size == 0 {
            return 0;
        }
        proof {
            assert(block@[0] * block@[1] <= block@[0] * block@[1] * block@[2] || block@[2] == 0)
                by (nonlinear_arith);
        }
        let threads: usize = if block[2] == 0 {
            0
        } else {
            block[0] * block[1] * block[2]
        };
        div_round_up(threads, subgroup_size)
    }

    /// The subgroup size that is used for a block on a device: none
    /// (zero) if the device offers none, the one it offers if it
    /// offers one, and else what the driver says for the block.
    pub fn subgroup_size_for_block(&self, dev: &Device, block: &[usize]) -> (r: SubgroupSize)
        requires
            self.built_for(dev),
        ensures
            match r {
                SubgroupSize::Known(size) => {
                    let sizes = sizes_from(self.builds@[dev.id].info.simd_sizes, 31);
                    (sizes.len() == 0 && size == 0) || (sizes.len() == 1 && size == sizes[0])
                },
                SubgroupSize::AskDriver(b) => sizes_from(
                    self.builds@[dev.id].info.simd_sizes,
                    31,
                ).len() > 1 && b@ == seq![
                    (if block@.len() > 0 {
                        block@[0]
                    } else {
                        1
                    }) as u32,
                    (if block@.len() > 1 {
                        block@[1]
                    } else {
                        1
                    }) as u32,
                    (if block@.len() > 2 {
                        block@[2]
                    } else {
                        1
                    }) as u32,
                ],
            },
    {
        let subgroup_sizes = self.subgroup_sizes(dev);
        if subgroup_sizes.len() == 0 {
            return SubgroupSize::Known(0);
        }
        if subgroup_sizes.len() == 1 {
            return SubgroupSize::Known(subgroup_sizes[0]);
        }
        let b0: usize = if block.len() > 0 {
            block[0]
        } else {
            1
        };
        let b1: usize = if block.len() > 1 {
            block[1]
        } else {
            1
        };
        let b2: usize = if block.len() > 2 {
            block[2]
        } else {
            1
        };
        let b: [u32; 3] = [
            #[verifier::truncate]
            (b0 as u32),
            #[verifier::truncate]
            (b1 as u32),
            #[verifier::truncate]
            (b2 as u32),
        ];
        assert(b@ =~= seq![b0 as u32, b1 as u32, b2 as u32]);
        SubgroupSize::AskDriver(b)
    }
}

} // verus!
