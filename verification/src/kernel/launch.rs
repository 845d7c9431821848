//! The marshalling of a launch: the values bound to a kernel's
//! arguments are laid out in the input buffer at the offsets that
//! lowering assigned, and what the device needs besides the buffer is
//! collected: the resources behind pointers, image and sampler views,
//! samplers, and the local memory that the arguments reserve.

use crate::kernel::args::{InternalKernelArg, InternalKernelArgType, KernelArg, KernelArgType};
use crate::kernel::blob::{le32, le64};
use crate::kernel::local_size::CL_OUT_OF_RESOURCES;
use crate::kernel::math::{align_spec, align_u64, local_mem_align, local_mem_align_spec};
use crate::kernel::tiling::{offsets_bytes, push_le32, push_le64, push_offsets};
use vstd::prelude::*;

verus! {

/// The status of a launch whose arguments do not fit the kernel.
pub const CL_INVALID_KERNEL_ARGS: i32 = -52;

/// The status of a value that has no resource on the device.
pub const CL_OUT_OF_HOST_MEMORY: i32 = -6;

/// The memory object type of a two-dimensional image.
pub const CL_MEM_OBJECT_IMAGE2D: u32 = 0x10F1;

/// A buffer bound to an argument: its resource on the device, if it
/// has one, and the offset of the buffer inside the resource.
#[derive(Clone, Copy, Debug, PartialEq, Eq)]
pub struct BufferRef {
    pub resource: Option<u64>,
    pub offset: usize,
}

/// An image bound to an argument.
#[derive(Clone, Copy, Debug, PartialEq, Eq)]
pub struct ImageRef {
    pub resource: Option<u64>,
    /// The resource is a buffer: the image was created from one.
    pub res_is_buffer: bool,
    pub mem_type: u32,
    pub row_pitch: usize,
    pub width: usize,
    pub height: usize,
    pub image_elem_size: u8,
    pub pipe_format: u32,
    pub host_access: u16,
    pub image_channel_data_type: u32,
    pub image_channel_order: u32,
}

/// A sampler: its addressing mode, its filter mode, and whether
/// coordinates are normalized.
#[derive(Clone, Copy, Debug, PartialEq, Eq)]
pub struct SamplerDesc {
    pub addressing_mode: u32,
    pub filter_mode: u32,
    pub normalized: bool,
}

/// The shape of an image that lives in a buffer.
#[derive(Clone, Copy, Debug, PartialEq, Eq)]
pub struct AppImgInfo {
    pub row_stride: u32,
    pub width: u32,
    pub height: u32,
}

/// A view of an image for writing, or for reading and writing.
#[derive(Clone, Copy, Debug, PartialEq, Eq)]
pub struct ImageView {
    pub resource: u64,
    pub format: u32,
    pub read_write: bool,
    pub host_access: u16,
    pub app_img_info: Option<AppImgInfo>,
}

/// A view of an image for sampling.
#[derive(Clone, Copy, Debug, PartialEq, Eq)]
pub struct SamplerView {
    pub resource: u64,
    pub format: u32,
    pub app_img_info: Option<AppImgInfo>,
}

/// The value bound to an argument.
#[derive(Clone, Debug, PartialEq, Eq)]
pub enum KernelArgValue {
    /// A null pointer.
    Null,
    Buffer(BufferRef),
    /// The bytes of a value passed by value.
    Constant(Vec<u8>),
    Image(ImageRef),
    /// A reservation of local memory, in bytes.
    LocalMem(usize),
    Sampler(SamplerDesc),
}

/// What marshalling has collected so far, as plain values.
pub struct MarshalView {
    pub input: Seq<u8>,
    pub resource_info: Seq<(u64, usize)>,
    pub samplers: Seq<SamplerDesc>,
    pub iviews: Seq<ImageView>,
    pub sviews: Seq<SamplerView>,
    pub tex_formats: Seq<u16>,
    pub tex_orders: Seq<u16>,
    pub img_formats: Seq<u16>,
    pub img_orders: Seq<u16>,
    pub variable_local_size: u64,
    pub workgroup_id_offset_loc: Option<usize>,
}

/// What marshalling collects.
pub struct Marshal {
    /// The input buffer of the kernel.
    pub input: Vec<u8>,
    /// The resources behind the pointers in the input buffer, each
    /// with the place of its pointer.
    pub resource_info: Vec<(u64, usize)>,
    pub samplers: Vec<SamplerDesc>,
    pub iviews: Vec<ImageView>,
    pub sviews: Vec<SamplerView>,
    /// Channel data types and orders of the sampled images and of the
    /// written images, each by binding.
    pub tex_formats: Vec<u16>,
    pub tex_orders: Vec<u16>,
    pub img_formats: Vec<u16>,
    pub img_orders: Vec<u16>,
    /// The end of the local memory laid out so far.
    pub variable_local_size: u64,
    /// Where in the input buffer the workgroup offsets lie, if the
    /// kernel reads them.
    pub workgroup_id_offset_loc: Option<usize>,
}

impl View for Marshal {
    type V = MarshalView;

    open spec fn view(&self) -> MarshalView {
        MarshalView {
            input: self.input@,
            resource_info: self.resource_info@,
            samplers: self.samplers@,
            iviews: self.iviews@,
            sviews: self.sviews@,
            tex_formats: self.tex_formats@,
            tex_orders: self.tex_orders@,
            img_formats: self.img_formats@,
            img_orders: self.img_orders@,
            variable_local_size: self.variable_local_size,
            workgroup_id_offset_loc: self.workgroup_id_offset_loc,
        }
    }
}

/// What a launch is made with, besides the argument values.
#[derive(Clone, Copy, Debug, PartialEq, Eq)]
pub struct LaunchContext {
    /// 32 or 64.
    pub address_bits: u32,
    pub work_dim: u32,
    /// The global offsets of the launch.
    pub offsets: [usize; 3],
    /// The number of workgroups by dimension.
    pub grid: [usize; 3],
    /// The resource of the kernel's constant data, if it has any.
    pub constant_buffer: Option<u64>,
    /// The resource that formatted output goes to, if the kernel
    /// prints.
    pub printf_buf: Option<u64>,
}

/// `n` zero bytes.
pub open spec fn zeros(n: nat) -> Seq<u8> {
    Seq::new(n, |i: int| 0u8)
}

/// `n` zero entries.
pub open spec fn zeros16(n: nat) -> Seq<u16> {
    Seq::new(n, |i: int| 0u16)
}

/// The buffer cut or zero-filled to `n` bytes.
pub open spec fn resized(s: Seq<u8>, n: nat) -> Seq<u8> {
    if n <= s.len() {
        s.take(n as int)
    } else {
        s + zeros((n - s.len()) as nat)
    }
}

/// The buffer zero-filled to at least `n` bytes.
pub open spec fn grown(s: Seq<u8>, n: nat) -> Seq<u8> {
    if n <= s.len() {
        s
    } else {
        s + zeros((n - s.len()) as nat)
    }
}

/// The bytes of a pointer-sized value: 8 bytes on a device with 64-bit
/// addresses, else the 4 bytes of its low 32 bits.
pub open spec fn ptr_bytes(v: u64, address_bits: u32) -> Seq<u8> {
    if address_bits == 64 {
        le64(v)
    } else {
        le32((v % 0x1_0000_0000) as u32)
    }
}

/// The bytes of a table of 16-bit entries from index `i` on.
pub open spec fn u16s_bytes_from(s: Seq<u16>, i: int) -> Seq<u8>
    decreases s.len() - i,
{
    if 0 <= i < s.len() {
        crate::kernel::blob::le16(s[i]) + u16s_bytes_from(s, i + 1)
    } else {
        Seq::empty()
    }
}

/// The bytes of a table of 16-bit entries.
pub open spec fn u16s_bytes(s: Seq<u16>) -> Seq<u8> {
    u16s_bytes_from(s, 0)
}

pub open spec fn low16_u32(x: u32) -> u16 {
    (x % 0x10000) as u16
}

impl ImageRef {
    /// The image lives in a buffer and is two-dimensional, so its shape
    /// has to be given to the device apart.
    pub open spec fn needs_app_info(self) -> bool {
        self.res_is_buffer && self.mem_type == CL_MEM_OBJECT_IMAGE2D
    }

    /// An image that lives in a buffer has elements of at least a byte.
    pub open spec fn wf(self) -> bool {
        self.needs_app_info() ==> self.image_elem_size > 0
    }

    /// The shape of the image, where it is needed: the row pitch in
    /// elements, the width and the height.  An error if one of them
    /// does not fit 32 bits.
    pub open spec fn app_img_info_spec(self) -> Result<Option<AppImgInfo>, i32> {
        if self.needs_app_info() {
            if self.row_pitch <= u32::MAX && self.width <= u32::MAX && self.height <= u32::MAX {
                Ok(
                    Some(
                        AppImgInfo {
                            row_stride: (self.row_pitch as u32 / self.image_elem_size as u32) as u32,
                            width: self.width as u32,
                            height: self.height as u32,
                        },
                    ),
                )
            } else {
                Err(CL_OUT_OF_HOST_MEMORY)
            }
        } else {
            Ok(None)
        }
    }

    /// The shape of the image, where the device needs it.
    pub fn app_img_info(&self) -> (r: Result<Option<AppImgInfo>, i32>)
        requires
            self.wf(),
        ensures
            r == self.app_img_info_spec(),
    {
        if self.res_is_buffer && self.mem_type == CL_MEM_OBJECT_IMAGE2D {
            if self.row_pitch > u32::MAX as usize || self.width > u32::MAX as usize || self.height
                > u32::MAX as usize {
                return Err(CL_OUT_OF_HOST_MEMORY);
            }
            Ok(
                Some(
                    AppImgInfo {
                        row_stride: self.row_pitch as u32 / self.image_elem_size as u32,
                        width: self.width as u32,
                        height: self.height as u32,
                    },
                ),
            )
        } else {
            Ok(None)
        }
    }
}

/// The kinds whose value lies outside the input buffer.
pub open spec fn kind_is_object(kind: KernelArgType) -> bool {
    kind == KernelArgType::Image || kind == KernelArgType::RWImage || kind
        == KernelArgType::Texture || kind == KernelArgType::Sampler
}

/// What an image bound to an argument of kind `kind` adds: a view for
/// writing and an entry in the tables of the written images, or a
/// view for sampling and an entry in the tables of the sampled ones.
/// The entry goes to the slot of the argument's binding; slots that
/// are skipped hold zero.
pub open spec fn image_step(
    st: MarshalView,
    kind: KernelArgType,
    binding: u32,
    image: ImageRef,
) -> Result<MarshalView, i32> {
    match image.resource {
        None => Err(CL_OUT_OF_HOST_MEMORY),
        Some(res) => match image.app_img_info_spec() {
            Err(e) => Err(e),
            Ok(info) => {
                let format = low16_u32(image.image_channel_data_type);
                let order = low16_u32(image.image_channel_order);
                if kind == KernelArgType::Image || kind == KernelArgType::RWImage {
                    Ok(
                        MarshalView {
                            iviews: st.iviews.push(
                                ImageView {
                                    resource: res,
                                    format: image.pipe_format,
                                    read_write: kind == KernelArgType::RWImage,
                                    host_access: image.host_access,
                                    app_img_info: info,
                                },
                            ),
                            img_formats: (st.img_formats + zeros16(
                                (binding - st.img_formats.len()) as nat,
                            )).push(format),
                            img_orders: (st.img_orders + zeros16(
                                (binding - st.img_orders.len()) as nat,
                            )).push(order),
                            ..st
                        },
                    )
                } else {
                    Ok(
                        MarshalView {
                            sviews: st.sviews.push(
                                SamplerView {
                                    resource: res,
                                    format: image.pipe_format,
                                    app_img_info: info,
                                },
                            ),
                            tex_formats: (st.tex_formats + zeros16(
                                (binding - st.tex_formats.len()) as nat,
                            )).push(format),
                            tex_orders: (st.tex_orders + zeros16(
                                (binding - st.tex_orders.len()) as nat,
                            )).push(order),
                            ..st
                        },
                    )
                }
            },
        },
    }
}

/// What a reservation of `size` bytes of local memory adds: the end of
/// the local memory is aligned for the reservation, the aligned end is
/// written as the reservation's address, and the end moves past it.
/// An error if the local memory outgrows 64 bits.
pub open spec fn local_mem_step(st: MarshalView, size: usize, address_bits: u32) -> Result<
    MarshalView,
    i32,
> {
    let start = align_spec(st.variable_local_size as int, local_mem_align_spec(size) as int);
    if start + size <= u64::MAX {
        Ok(
            MarshalView {
                input: st.input + ptr_bytes(start as u64, address_bits),
                variable_local_size: (start + size) as u64,
                ..st
            },
        )
    } else {
        Err(CL_OUT_OF_RESOURCES)
    }
}

/// What one argument adds.  A dead argument adds nothing.  A live one
/// whose value lies in the input buffer is placed at its own offset:
/// the buffer is cut or zero-filled to the offset first.
#[verifier::opaque]
pub open spec fn arg_step(
    st: MarshalView,
    arg: KernelArg,
    val: Option<KernelArgValue>,
    address_bits: u32,
) -> Result<MarshalView, i32> {
    if arg.dead {
        Ok(st)
    } else {
        let st = if kind_is_object(arg.kind) {
            st
        } else {
            MarshalView { input: resized(st.input, arg.offset as nat), ..st }
        };
        match val {
            None => Err(CL_INVALID_KERNEL_ARGS),
            Some(KernelArgValue::Constant(c)) => Ok(MarshalView { input: st.input + c@, ..st }),
            Some(KernelArgValue::Buffer(buffer)) => match buffer.resource {
                Some(res) => Ok(
                    MarshalView {
                        resource_info: st.resource_info.push((res, st.input.len() as usize)),
                        input: st.input + ptr_bytes(buffer.offset as u64, address_bits),
                        ..st
                    },
                ),
                None => Err(CL_OUT_OF_HOST_MEMORY),
            },
            Some(KernelArgValue::Image(image)) => image_step(st, arg.kind, arg.binding, image),
            Some(KernelArgValue::LocalMem(size)) => local_mem_step(st, size, address_bits),
            Some(KernelArgValue::Sampler(sampler)) => Ok(
                MarshalView { samplers: st.samplers.push(sampler), ..st },
            ),
            Some(KernelArgValue::Null) => if arg.kind == KernelArgType::MemGlobal || arg.kind
                == KernelArgType::MemConstant {
                Ok(MarshalView { input: st.input + ptr_bytes(0, address_bits), ..st })
            } else {
                Err(CL_INVALID_KERNEL_ARGS)
            },
        }
    }
}

/// What the arguments from index `i` on add, each with the value of
/// the same index; the first error ends it.  It is meant for lists of
/// one length: `args_added` refuses the others.
pub open spec fn args_from(
    st: MarshalView,
    args: Seq<KernelArg>,
    vals: Seq<Option<KernelArgValue>>,
    i: int,
    address_bits: u32,
) -> Result<MarshalView, i32>
    decreases args.len() - i,
{
    if 0 <= i < args.len() && i < vals.len() {
        match arg_step(st, args[i], vals[i], address_bits) {
            Ok(next) => args_from(next, args, vals, i + 1, address_bits),
            Err(e) => Err(e),
        }
    } else {
        Ok(st)
    }
}

/// What the arguments of a kernel add, each with the value of the
/// same index.  A list of values that is not as long as the list of
/// arguments is refused as invalid kernel arguments.
pub open spec fn args_added(
    st: MarshalView,
    args: Seq<KernelArg>,
    vals: Seq<Option<KernelArgValue>>,
    address_bits: u32,
) -> Result<MarshalView, i32> {
    if args.len() != vals.len() {
        Err(CL_INVALID_KERNEL_ARGS)
    } else {
        args_from(st, args, vals, 0, address_bits)
    }
}

/// The size of the workgroup offsets in the input buffer: three
/// addresses of the device.
pub open spec fn workgroup_offsets_size(address_bits: u32) -> nat {
    if address_bits == 64 {
        24
    } else {
        12
    }
}

/// The place that is remembered for the workgroup offsets, if there
/// is one, lies inside the input buffer with all its bytes.
pub open spec fn place_inside(st: MarshalView, address_bits: u32) -> bool {
    st.workgroup_id_offset_loc matches Some(loc) ==> loc + workgroup_offsets_size(address_bits)
        <= st.input.len()
}

/// The image tables have room at the bindings of the images still to
/// come: every image from index `i` on has a binding that its table
/// has not reached, and images that share a table come in the order of
/// their bindings.  Lowering assigns bindings in this order.
pub open spec fn bindings_ordered(
    st: MarshalView,
    args: Seq<KernelArg>,
    vals: Seq<Option<KernelArgValue>>,
    i: int,
) -> bool {
    &&& st.img_formats.len() == st.img_orders.len()
    &&& st.tex_formats.len() == st.tex_orders.len()
    &&& forall|j: int|
        i <= j < args.len() && j < vals.len() && is_live_image(#[trigger] args[j], vals[j]) ==> (
        if writes_image(args[j]) {
            st.img_formats.len() <= args[j].binding
        } else {
            st.tex_formats.len() <= args[j].binding
        })
    &&& forall|j: int, k: int|
        i <= j < k < args.len() && k < vals.len() && is_live_image(#[trigger] args[j], vals[j])
            && is_live_image(#[trigger] args[k], vals[k]) && writes_image(args[j])
            == writes_image(args[k]) ==> args[j].binding < args[k].binding
}

/// The argument is live and bound to an image.
pub open spec fn is_live_image(arg: KernelArg, val: Option<KernelArgValue>) -> bool {
    !arg.dead && val matches Some(KernelArgValue::Image(_))
}

/// The argument's image goes to the tables of the written images.
pub open spec fn writes_image(arg: KernelArg) -> bool {
    arg.kind == KernelArgType::Image || arg.kind == KernelArgType::RWImage
}

/// Every image among the values is well-formed.
pub open spec fn images_wf(vals: Seq<Option<KernelArgValue>>) -> bool {
    forall|j: int|
        0 <= j < vals.len() ==> ((#[trigger] vals[j]) matches Some(KernelArgValue::Image(image))
            ==> image.wf())
}

/// What an internal argument adds.  It is placed at its own offset:
/// the buffer is zero-filled to the offset first, and never cut.
pub open spec fn internal_step(st: MarshalView, arg: InternalKernelArg, ctx: LaunchContext) -> MarshalView {
    internal_payload(MarshalView { input: grown(st.input, arg.offset as nat), ..st }, arg.kind, ctx)
}

/// What an internal argument of kind `kind` appends.
#[verifier::opaque]
pub open spec fn internal_payload(st: MarshalView, kind: InternalKernelArgType, ctx: LaunchContext) -> MarshalView {
    match kind {
        InternalKernelArgType::ConstantBuffer => MarshalView {
            resource_info: st.resource_info.push(
                (ctx.constant_buffer.unwrap(), st.input.len() as usize),
            ),
            input: st.input + ptr_bytes(0, ctx.address_bits),
            ..st
        },
        InternalKernelArgType::GlobalWorkOffsets => MarshalView {
            input: st.input + offsets_bytes(ctx.offsets@, ctx.address_bits),
            ..st
        },
        InternalKernelArgType::WorkGroupOffsets => MarshalView {
            workgroup_id_offset_loc: Some(st.input.len() as usize),
            input: st.input + zeros(
                if ctx.address_bits == 64 {
                    24
                } else {
                    12
                },
            ),
            ..st
        },
        InternalKernelArgType::PrintfBuffer => MarshalView {
            resource_info: st.resource_info.push((ctx.printf_buf.unwrap(), st.input.len() as usize)),
            input: st.input + ptr_bytes(0, ctx.address_bits),
            ..st
        },
        InternalKernelArgType::InlineSampler((addressing_mode, filter_mode, normalized)) => MarshalView {
            samplers: st.samplers.push(SamplerDesc { addressing_mode, filter_mode, normalized }),
            ..st
        },
        InternalKernelArgType::FormatArray => MarshalView {
            input: st.input + u16s_bytes(st.tex_formats) + u16s_bytes(st.img_formats),
            ..st
        },
        InternalKernelArgType::OrderArray => MarshalView {
            input: st.input + u16s_bytes(st.tex_orders) + u16s_bytes(st.img_orders),
            ..st
        },
        InternalKernelArgType::WorkDim => MarshalView {
            input: st.input + seq![(ctx.work_dim % 256) as u8],
            ..st
        },
        InternalKernelArgType::NumWorkgroups => MarshalView {
            input: st.input + le32(((ctx.grid[0] as u64) % 0x1_0000_0000) as u32) + le32(
                ((ctx.grid[1] as u64) % 0x1_0000_0000) as u32,
            ) + le32(((ctx.grid[2] as u64) % 0x1_0000_0000) as u32),
            ..st
        },
    }
}

/// What the internal arguments from index `i` on add.
pub open spec fn internals_from(
    st: MarshalView,
    args: Seq<InternalKernelArg>,
    i: int,
    ctx: LaunchContext,
) -> MarshalView
    decreases args.len() - i,
{
    if 0 <= i < args.len() {
        internals_from(internal_step(st, args[i], ctx), args, i + 1, ctx)
    } else {
        st
    }
}

/// The launch has the resources that its internal arguments point to.
pub open spec fn internals_ok(
    args: Seq<InternalKernelArg>,
    constant_buffer: Option<u64>,
    printf_buf: Option<u64>,
) -> bool {
    forall|i: int|
        0 <= i < args.len() ==> ((#[trigger] args[i]).kind
            == InternalKernelArgType::ConstantBuffer ==> constant_buffer is Some) && (
        args[i].kind == InternalKernelArgType::PrintfBuffer ==> printf_buf is Some)
}

/// An argument of the kernel does not touch the place of the
/// workgroup offsets.
pub proof fn lemma_arg_keeps_place(
    st: MarshalView,
    arg: KernelArg,
    val: Option<KernelArgValue>,
    address_bits: u32,
)
    ensures
        arg_step(st, arg, val, address_bits) matches Ok(next) ==> next.workgroup_id_offset_loc
            == st.workgroup_id_offset_loc,
{
    reveal(arg_step);
}

/// An internal argument never shortens the input buffer, and the
/// place of the workgroup offsets stays inside it: the place that was
/// remembered before, or the one that this argument reserves.
pub proof fn lemma_internal_keeps_place(st: MarshalView, arg: InternalKernelArg, ctx: LaunchContext)
    requires
        place_inside(st, ctx.address_bits),
        st.input.len() <= usize::MAX,
    ensures
        place_inside(internal_step(st, arg, ctx), ctx.address_bits),
        internal_step(st, arg, ctx).input.len() >= st.input.len(),
        arg.kind == InternalKernelArgType::WorkGroupOffsets ==> internal_step(
            st,
            arg,
            ctx,
        ).workgroup_id_offset_loc is Some,
{
    reveal(internal_payload);
}

/// A dead argument adds nothing to the launch: no byte is written, and
/// nothing is recorded.
pub proof fn lemma_dead_arg_adds_nothing(
    st: MarshalView,
    arg: KernelArg,
    val: Option<KernelArgValue>,
    address_bits: u32,
)
    requires
        arg.dead,
    ensures
        arg_step(st, arg, val, address_bits) == Ok::<MarshalView, i32>(st),
{
    reveal(arg_step);
}

/// A value passed by value lands at the offset of its argument, if the
/// buffer has not grown past it.
pub proof fn lemma_constant_lands_at_offset(
    st: MarshalView,
    arg: KernelArg,
    c: Vec<u8>,
    address_bits: u32,
)
    requires
        !arg.dead,
        !kind_is_object(arg.kind),
        st.input.len() <= arg.offset,
    ensures
        arg_step(st, arg, Some(KernelArgValue::Constant(c)), address_bits) matches Ok(next)
            && next.input.len() == arg.offset + c@.len() && next.input.subrange(
            arg.offset as int,
            arg.offset + c@.len(),
        ) == c@ && next.input.subrange(0, st.input.len() as int) == st.input,
{
    reveal(arg_step);
    let next = arg_step(st, arg, Some(KernelArgValue::Constant(c)), address_bits).unwrap();
    assert(next.input.subrange(arg.offset as int, arg.offset + c@.len()) =~= c@);
    assert(next.input.subrange(0, st.input.len() as int) =~= st.input);
}

/// The arguments after a dead one add the same whether the dead one is
/// in the list or not.
pub proof fn lemma_after_dead_arg(
    st: MarshalView,
    args: Seq<KernelArg>,
    vals: Seq<Option<KernelArgValue>>,
    k: int,
    i: int,
    address_bits: u32,
)
    requires
        0 <= k < i <= args.len(),
        args.len() == vals.len(),
    ensures
        args_from(st, args, vals, i, address_bits) == args_from(
            st,
            args.remove(k),
            vals.remove(k),
            i - 1,
            address_bits,
        ),
    decreases args.len() - i,
{
    if i < args.len() {
        assert(args.remove(k)[i - 1] == args[i]);
        assert(vals.remove(k)[i - 1] == vals[i]);
        match arg_step(st, args[i], vals[i], address_bits) {
            Ok(next) => {
                lemma_after_dead_arg(next, args, vals, k, i + 1, address_bits);
            },
            Err(e) => {},
        }
    }
}

/// A dead argument can be taken out of the list, with its value,
/// without any effect on what the launch is made of: the other
/// arguments are marshalled as they were.
pub proof fn lemma_dead_arg_removed(
    st: MarshalView,
    args: Seq<KernelArg>,
    vals: Seq<Option<KernelArgValue>>,
    k: int,
    i: int,
    address_bits: u32,
)
    requires
        0 <= i <= k < args.len(),
        args.len() == vals.len(),
        args[k].dead,
    ensures
        args_from(st, args, vals, i, address_bits) == args_from(
            st,
            args.remove(k),
            vals.remove(k),
            i,
            address_bits,
        ),
    decreases k - i,
{
    if i == k {
        reveal(arg_step);
        lemma_after_dead_arg(st, args, vals, k, k + 1, address_bits);
    } else {
        assert(args.remove(k)[i] == args[i]);
        assert(vals.remove(k)[i] == vals[i]);
        match arg_step(st, args[i], vals[i], address_bits) {
            Ok(next) => {
                lemma_dead_arg_removed(next, args, vals, k, i + 1, address_bits);
            },
            Err(e) => {},
        }
    }
}

/// Appends bytes as they are.
pub fn push_bytes(out: &mut Vec<u8>, bytes: &[u8])
    ensures
        final(out)@ == old(out)@ + bytes@,
{
    let mut i: usize = 0;
    while i < bytes.len()
        invariant
            i <= bytes@.len(),
            out@ == old(out)@ + bytes@.subrange(0, i as int),
        decreases bytes@.len() - i,
    {
        out.push(bytes[i]);
        assert(out@ =~= old(out)@ + bytes@.subrange(0, i + 1));
        i = i + 1;
    }
    assert(bytes@.subrange(0, i as int) =~= bytes@);
}

/// Zero-fills the buffer to at least `n` bytes.
pub fn grow_zero(out: &mut Vec<u8>, n: usize)
    ensures
        final(out)@ == grown(old(out)@, n as nat),
{
    let ghost start = out@;
    while out.len() < n
        invariant
            start == old(out)@,
            out@.len() >= start.len(),
            out@.len() <= n || out@.len() == start.len(),
            out@ == start + zeros((out@.len() - start.len()) as nat),
        decreases n - out@.len(),
    {
        out.push(0);
        assert(out@ =~= start + zeros((out@.len() - start.len()) as nat));
    }
    assert(out@ =~= grown(old(out)@, n as nat));
}

/// Cuts or zero-fills the buffer to `n` bytes.
pub fn resize_zero(out: &mut Vec<u8>, n: usize)
    ensures
        final(out)@ == resized(old(out)@, n as nat),
{
    if n <= out.len() {
        out.truncate(n);
        assert(out@ =~= old(out)@.take(n as int));
    } else {
        grow_zero(out, n);
    }
}

/// Appends a pointer-sized value.
pub fn push_ptr(out: &mut Vec<u8>, v: u64, address_bits: u32)
    ensures
        final(out)@ == old(out)@ + ptr_bytes(v, address_bits),
{
    if address_bits == 64 {
        push_le64(out, v);
    } else {
        push_le32(out, (v % 0x1_0000_0000) as u32);
    }
}

/// Appends a table of 16-bit entries.
pub fn push_u16s(out: &mut Vec<u8>, table: &Vec<u16>)
    ensures
        final(out)@ == old(out)@ + u16s_bytes(table@),
{
    let mut i: usize = 0;
    while i < table.len()
        invariant
            i <= table@.len(),
            out@ + u16s_bytes_from(table@, i as int) == old(out)@ + u16s_bytes(table@),
        decreases table@.len() - i,
    {
        let ghost before = out@;
        let v: u16 = table[i];
        out.push((v % 256) as u8);
        out.push((v / 256) as u8);
        assert(out@ + u16s_bytes_from(table@, i + 1) =~= before + u16s_bytes_from(table@, i as int));
        i = i + 1;
    }
    assert(out@ =~= out@ + u16s_bytes_from(table@, i as int));
}

/// Puts `val` into the slot `binding` of a table that has not reached
/// it; slots that are skipped hold zero.
pub fn set_table_slot(table: &mut Vec<u16>, binding: usize, val: u16)
    requires
        old(table)@.len() <= binding,
    ensures
        final(table)@ == (old(table)@ + zeros16((binding - old(table)@.len()) as nat)).push(val),
{
    let ghost start = table@;
    while table.len() < binding
        invariant
            start == old(table)@,
            start.len() <= table@.len() <= binding,
            table@ == start + zeros16((table@.len() - start.len()) as nat),
        decreases binding - table@.len(),
    {
        table.push(0);
        assert(table@ =~= start + zeros16((table@.len() - start.len()) as nat));
    }
    table.push(val);
}

impl Marshal {
    /// Nothing collected yet; the local memory that arguments reserve
    /// starts where the kernel's own ends.
    pub fn new(static_local_size: u64) -> (m: Marshal)
        ensures
            m@ == Self::empty(static_local_size),
    {
        Marshal {
            input: Vec::new(),
            resource_info: Vec::new(),
            samplers: Vec::new(),
            iviews: Vec::new(),
            sviews: Vec::new(),
            tex_formats: Vec::new(),
            tex_orders: Vec::new(),
            img_formats: Vec::new(),
            img_orders: Vec::new(),
            variable_local_size: static_local_size,
            workgroup_id_offset_loc: None,
        }
    }

    pub open spec fn empty(static_local_size: u64) -> MarshalView {
        MarshalView {
            input: Seq::empty(),
            resource_info: Seq::empty(),
            samplers: Seq::empty(),
            iviews: Seq::empty(),
            sviews: Seq::empty(),
            tex_formats: Seq::empty(),
            tex_orders: Seq::empty(),
            img_formats: Seq::empty(),
            img_orders: Seq::empty(),
            variable_local_size: static_local_size,
            workgroup_id_offset_loc: None,
        }
    }

    /// Records a pointer into the resource `res`: the resource is
    /// bound apart from the input buffer, which holds only the offset
    /// into it.
    pub fn add_global(&mut self, res: u64, offset: usize, address_bits: u32)
        ensures
            final(self)@ == (MarshalView {
                resource_info: old(self)@.resource_info.push(
                    (res, old(self)@.input.len() as usize),
                ),
                input: old(self)@.input + ptr_bytes(offset as u64, address_bits),
                ..old(self)@
            }),
    {
        self.resource_info.push((res, self.input.len()));
        push_ptr(&mut self.input, offset as u64, address_bits);
    }

    /// Adds an image bound to an argument.
    pub fn add_image(&mut self, kind: KernelArgType, binding: u32, image: &ImageRef) -> (r: Result<
        (),
        i32,
    >)
        requires
            image.wf(),
            old(self)@.img_formats.len() == old(self)@.img_orders.len(),
            old(self)@.tex_formats.len() == old(self)@.tex_orders.len(),
            if kind == KernelArgType::Image || kind == KernelArgType::RWImage {
                old(self)@.img_formats.len() <= binding
            } else {
                old(self)@.tex_formats.len() <= binding
            },
        ensures
            match image_step(old(self)@, kind, binding, *image) {
                Ok(next) => r is Ok && final(self)@ == next,
                Err(e) => r == Err::<(), i32>(e) && final(self)@ == old(self)@,
            },
    {
        let res: u64 = match image.resource {
            Some(res) => res,
            None => {
                return Err(CL_OUT_OF_HOST_MEMORY);
            },
        };
        // If resource is a buffer, the image was created from a buffer. Use strides and
        // dimensions of the image then.
        let app_img_info = image.app_img_info()?;
        let format: u16 = (image.image_channel_data_type % 0x10000) as u16;
        let order: u16 = (image.image_channel_order % 0x10000) as u16;
        let slot: usize = binding as usize;
        match kind {
            KernelArgType::Image | KernelArgType::RWImage => {
                self.iviews.push(
                    ImageView {
                        resource: res,
                        format: image.pipe_format,
                        read_write: matches!(kind, KernelArgType::RWImage),
                        host_access: image.host_access,
                        app_img_info,
                    },
                );
                set_table_slot(&mut self.img_formats, slot, format);
                set_table_slot(&mut self.img_orders, slot, order);
            },
            _ => {
                self.sviews.push(
                    SamplerView { resource: res, format: image.pipe_format, app_img_info },
                );
                set_table_slot(&mut self.tex_formats, slot, format);
                set_table_slot(&mut self.tex_orders, slot, order);
            },
        }
        Ok(())
    }

    /// Adds a reservation of local memory.
    pub fn add_local_mem(&mut self, size: usize, address_bits: u32) -> (r: Result<(), i32>)
        ensures
            match local_mem_step(old(self)@, size, address_bits) {
                Ok(next) => r is Ok && final(self)@ == next,
                Err(e) => r == Err::<(), i32>(e) && final(self)@ == old(self)@,
            },
            final(self)@.variable_local_size >= old(self)@.variable_local_size,
    {
        let start: u64 = match align_u64(self.variable_local_size, local_mem_align(size)) {
            Some(start) => start,
            None => {
                return Err(CL_OUT_OF_RESOURCES);
            },
        };
        let end: u64 = match start.checked_add(size as u64) {
            Some(end) => end,
            None => {
                return Err(CL_OUT_OF_RESOURCES);
            },
        };
        push_ptr(&mut self.input, start, address_bits);
        self.variable_local_size = end;
        Ok(())
    }

    /// Adds one argument with its value.
    pub fn add_arg(&mut self, arg: &KernelArg, val: &Option<KernelArgValue>, address_bits: u32) -> (r:
        Result<(), i32>)
        requires
            old(self)@.img_formats.len() == old(self)@.img_orders.len(),
            old(self)@.tex_formats.len() == old(self)@.tex_orders.len(),
            is_live_image(*arg, *val) ==> (val matches Some(KernelArgValue::Image(image))
                && image.wf()) && (if writes_image(*arg) {
                old(self)@.img_formats.len() <= arg.binding
            } else {
                old(self)@.tex_formats.len() <= arg.binding
            }),
        ensures
            match arg_step(old(self)@, *arg, *val, address_bits) {
                Ok(next) => r is Ok && final(self)@ == next,
                Err(e) => r == Err::<(), i32>(e),
            },
            final(self)@.variable_local_size >= old(self)@.variable_local_size,
            final(self)@.img_formats.len() == final(self)@.img_orders.len(),
            final(self)@.tex_formats.len() == final(self)@.tex_orders.len(),
    {
        proof {
            reveal(arg_step);
        }
        if arg.dead {
            return Ok(());
        }
        if !matches!(
            arg.kind,
            KernelArgType::Image | KernelArgType::RWImage | KernelArgType::Texture
                | KernelArgType::Sampler
        ) {
            resize_zero(&mut self.input, arg.offset);
        }
        match val {
            None => Err(CL_INVALID_KERNEL_ARGS),
            Some(KernelArgValue::Constant(c)) => {
                push_bytes(&mut self.input, c.as_slice());
                Ok(())
            },
            Some(KernelArgValue::Buffer(buffer)) => {
                match buffer.resource {
                    Some(res) => {
                        self.add_global(res, buffer.offset, address_bits);
                        Ok(())
                    },
                    None => Err(CL_OUT_OF_HOST_MEMORY),
                }
            },
            Some(KernelArgValue::Image(image)) => self.add_image(arg.kind, arg.binding, image),
            Some(KernelArgValue::LocalMem(size)) => self.add_local_mem(*size, address_bits),
            Some(KernelArgValue::Sampler(sampler)) => {
                self.samplers.push(*sampler);
                Ok(())
            },
            Some(KernelArgValue::Null) => {
                if matches!(arg.kind, KernelArgType::MemGlobal | KernelArgType::MemConstant) {
                    push_ptr(&mut self.input, 0, address_bits);
                    Ok(())
                } else {
                    Err(CL_INVALID_KERNEL_ARGS)
                }
            },
        }
    }

    /// Adds the arguments of a kernel, each with the value of the same
    /// index, in the order of the list.  A list of values of another
    /// length is refused, and nothing is added.
    pub fn add_args(
        &mut self,
        args: &[KernelArg],
        vals: &[Option<KernelArgValue>],
        address_bits: u32,
    ) -> (r: Result<(), i32>)
        requires
            bindings_ordered(old(self)@, args@, vals@, 0),
            images_wf(vals@),
        ensures
            match args_added(old(self)@, args@, vals@, address_bits) {
                Ok(next) => r is Ok && final(self)@ == next,
                Err(e) => r == Err::<(), i32>(e),
            },
            args@.len() != vals@.len() ==> final(self)@ == old(self)@,
            final(self)@.variable_local_size >= old(self)@.variable_local_size,
            r is Ok ==> final(self)@.workgroup_id_offset_loc == old(self)@.workgroup_id_offset_loc,
    {
        if args.len() != vals.len() {
            return Err(CL_INVALID_KERNEL_ARGS);
        }
        let mut i: usize = 0;
        while i < args.len()
            invariant
                i <= args@.len(),
                args@.len() == vals@.len(),
                self@.workgroup_id_offset_loc == old(self)@.workgroup_id_offset_loc,
                images_wf(vals@),
                bindings_ordered(self@, args@, vals@, i as int),
                args_from(old(self)@, args@, vals@, 0, address_bits) == args_from(
                    self@,
                    args@,
                    vals@,
                    i as int,
                    address_bits,
                ),
                self@.variable_local_size >= old(self)@.variable_local_size,
            decreases args@.len() - i,
        {
            let ghost before = self@;
            proof {
                assert(is_live_image(args@[i as int], vals@[i as int]) ==> (if writes_image(
                    args@[i as int],
                ) {
                    before.img_formats.len() <= args@[i as int].binding
                } else {
                    before.tex_formats.len() <= args@[i as int].binding
                }));
            }
            match self.add_arg(&args[i], &vals[i], address_bits) {
                Ok(()) => {},
                Err(e) => {
                    return Err(e);
                },
            }
            proof {
                lemma_bindings_step(before, args@, vals@, i as int, address_bits);
                lemma_arg_keeps_place(before, args@[i as int], vals@[i as int], address_bits);
            }
            i = i + 1;
        }
        Ok(())
    }

    /// Reserves the place of the workgroup offsets and remembers it;
    /// the offsets are written before each dispatch.
    pub fn add_workgroup_offsets(&mut self, address_bits: u32)
        ensures
            final(self)@ == (MarshalView {
                workgroup_id_offset_loc: Some(old(self)@.input.len() as usize),
                input: old(self)@.input + zeros(
                    if address_bits == 64 {
                        24
                    } else {
                        12
                    },
                ),
                ..old(self)@
            }),
    {
        self.workgroup_id_offset_loc = Some(self.input.len());
        let n: usize = if address_bits == 64 {
            24
        } else {
            12
        };
        let ghost before = self.input@;
        let mut k: usize = 0;
        while k < n
            invariant
                k <= n,
                self.input@ == before + zeros(k as nat),
                self@ == (MarshalView {
                    workgroup_id_offset_loc: Some(before.len() as usize),
                    input: self.input@,
                    ..old(self)@
                }),
            decreases n - k,
        {
            self.input.push(0);
            assert(self.input@ =~= before + zeros((k + 1) as nat));
            k = k + 1;
        }
        assert(before + zeros(0) =~= before);
    }

    /// Appends the tables of the sampled and of the written images:
    /// the channel data types, or the channel orders.
    pub fn add_tables(&mut self, orders: bool)
        ensures
            final(self)@ == (MarshalView {
                input: if orders {
                    old(self)@.input + u16s_bytes(old(self)@.tex_orders) + u16s_bytes(
                        old(self)@.img_orders,
                    )
                } else {
                    old(self)@.input + u16s_bytes(old(self)@.tex_formats) + u16s_bytes(
                        old(self)@.img_formats,
                    )
                },
                ..old(self)@
            }),
    {
        if orders {
            push_u16s(&mut self.input, &self.tex_orders);
            push_u16s(&mut self.input, &self.img_orders);
        } else {
            push_u16s(&mut self.input, &self.tex_formats);
            push_u16s(&mut self.input, &self.img_formats);
        }
    }

    /// Appends what the kernel reads of the launch itself: the global
    /// offsets, the number of dimensions, or the number of workgroups.
    pub fn add_launch_value(&mut self, kind: InternalKernelArgType, ctx: &LaunchContext)
        requires
            kind == InternalKernelArgType::GlobalWorkOffsets || kind
                == InternalKernelArgType::WorkDim || kind == InternalKernelArgType::NumWorkgroups,
        ensures
            final(self)@ == internal_payload(old(self)@, kind, *ctx),
    {
        proof {
            reveal(internal_payload);
        }
        match kind {
            InternalKernelArgType::GlobalWorkOffsets => {
                push_offsets(&mut self.input, &ctx.offsets, ctx.address_bits);
            },
            InternalKernelArgType::WorkDim => {
                self.input.push((ctx.work_dim % 256) as u8);
                assert(self.input@ =~= old(self).input@ + seq![(ctx.work_dim % 256) as u8]);
            },
            _ => {
                push_le32(&mut self.input, ((ctx.grid[0] as u64) % 0x1_0000_0000) as u32);
                push_le32(&mut self.input, ((ctx.grid[1] as u64) % 0x1_0000_0000) as u32);
                push_le32(&mut self.input, ((ctx.grid[2] as u64) % 0x1_0000_0000) as u32);
            },
        }
    }

    /// Adds one internal argument.
    pub fn add_internal_arg(&mut self, arg: &InternalKernelArg, ctx: &LaunchContext)
        requires
            arg.kind == InternalKernelArgType::ConstantBuffer ==> ctx.constant_buffer is Some,
            arg.kind == InternalKernelArgType::PrintfBuffer ==> ctx.printf_buf is Some,
        ensures
            final(self)@ == internal_step(old(self)@, *arg, *ctx),
    {
        proof {
            reveal(internal_payload);
        }
        if arg.offset > self.input.len() {
            grow_zero(&mut self.input, arg.offset);
        }
        match arg.kind {
            InternalKernelArgType::ConstantBuffer => {
                let res: u64 = ctx.constant_buffer.unwrap();
                self.add_global(res, 0, ctx.address_bits);
            },
            InternalKernelArgType::WorkGroupOffsets => self.add_workgroup_offsets(ctx.address_bits),
            InternalKernelArgType::PrintfBuffer => {
                let res: u64 = ctx.printf_buf.unwrap();
                self.add_global(res, 0, ctx.address_bits);
            },
            InternalKernelArgType::InlineSampler((addressing_mode, filter_mode, normalized)) => {
                self.samplers.push(SamplerDesc { addressing_mode, filter_mode, normalized });
            },
            InternalKernelArgType::FormatArray => self.add_tables(false),
            InternalKernelArgType::OrderArray => self.add_tables(true),
            InternalKernelArgType::GlobalWorkOffsets => self.add_launch_value(arg.kind, ctx),
            InternalKernelArgType::WorkDim => self.add_launch_value(arg.kind, ctx),
            InternalKernelArgType::NumWorkgroups => self.add_launch_value(arg.kind, ctx),
        }
    }

    /// Adds the internal arguments of a kernel, in the order of the
    /// list.
    pub fn add_internal_args(&mut self, args: &[InternalKernelArg], ctx: &LaunchContext)
        requires
            internals_ok(args@, ctx.constant_buffer, ctx.printf_buf),
        ensures
            final(self)@ == internals_from(old(self)@, args@, 0, *ctx),
            place_inside(old(self)@, ctx.address_bits) ==> place_inside(
                final(self)@,
                ctx.address_bits,
            ),
    {
        let mut i: usize = 0;
        while i < args.len()
            invariant
                i <= args@.len(),
                place_inside(old(self)@, ctx.address_bits) ==> place_inside(self@, ctx.address_bits),
                internals_ok(args@, ctx.constant_buffer, ctx.printf_buf),
                internals_from(old(self)@, args@, 0, *ctx) == internals_from(
                    self@,
                    args@,
                    i as int,
                    *ctx,
                ),
            decreases args@.len() - i,
        {
            proof {
                if place_inside(self@, ctx.address_bits) {
                    assert(self@.input.len() == self.input.len());
                    lemma_internal_keeps_place(self@, args@[i as int], *ctx);
                }
            }
            self.add_internal_arg(&args[i], ctx);
            i = i + 1;
        }
    }
}

/// The image tables keep room for the images still to come as one
/// more argument is added.
pub proof fn lemma_bindings_step(
    st: MarshalView,
    args: Seq<KernelArg>,
    vals: Seq<Option<KernelArgValue>>,
    i: int,
    address_bits: u32,
)
    requires
        0 <= i < args.len(),
        i < vals.len(),
        bindings_ordered(st, args, vals, i),
        arg_step(st, args[i], vals[i], address_bits) is Ok,
    ensures
        bindings_ordered(arg_step(st, args[i], vals[i], address_bits).unwrap(), args, vals, i + 1),
{
    reveal(arg_step);
    let next = arg_step(st, args[i], vals[i], address_bits).unwrap();
    assert forall|j: int|
        i + 1 <= j < args.len() && j < vals.len() && is_live_image(
            #[trigger] args[j],
            vals[j],
        ) implies (if writes_image(args[j]) {
        next.img_formats.len() <= args[j].binding
    } else {
        next.tex_formats.len() <= args[j].binding
    }) by {
        if is_live_image(args[i], vals[i]) && writes_image(args[i]) == writes_image(args[j]) {
            assert(args[i].binding < args[j].binding);
        }
    }
}

/// What a launch is made of: the arguments are marshalled in order
/// into an empty buffer, the local memory they reserve is counted from
/// the end of the kernel's own, and the internal arguments follow.
/// Values that are not one for each argument are refused.
pub open spec fn launch_spec(
    args: Seq<KernelArg>,
    vals: Seq<Option<KernelArgValue>>,
    internal_args: Seq<InternalKernelArg>,
    ctx: LaunchContext,
    static_local_size: u64,
) -> Result<MarshalView, i32> {
    match args_added(Marshal::empty(static_local_size), args, vals, ctx.address_bits) {
        Ok(st) => Ok(
            internals_from(
                MarshalView {
                    variable_local_size: (st.variable_local_size - static_local_size) as u64,
                    ..st
                },
                internal_args,
                0,
                ctx,
            ),
        ),
        Err(e) => Err(e),
    }
}

/// Marshals a launch: the input buffer, and what the device needs
/// besides it.
pub fn marshal_launch(
    args: &[KernelArg],
    vals: &[Option<KernelArgValue>],
    internal_args: &[InternalKernelArg],
    ctx: &LaunchContext,
    static_local_size: u64,
) -> (r: Result<Marshal, i32>)
    requires
        bindings_ordered(Marshal::empty(static_local_size), args@, vals@, 0),
        images_wf(vals@),
        internals_ok(internal_args@, ctx.constant_buffer, ctx.printf_buf),
    ensures
        match launch_spec(args@, vals@, internal_args@, *ctx, static_local_size) {
            Ok(st) => r matches Ok(m) && m@ == st,
            Err(e) => r matches Err(code) && code == e,
        },
        args@.len() != vals@.len() ==> r == Err::<Marshal, i32>(CL_INVALID_KERNEL_ARGS),
        r matches Ok(m) ==> place_inside(m@, ctx.address_bits),
{
    let mut m = Marshal::new(static_local_size);
    match m.add_args(args, vals, ctx.address_bits) {
        Ok(()) => {},
        Err(e) => {
            return Err(e);
        },
    }
    // subtract the shader local_size as we only request something on top of that.
    m.variable_local_size = m.variable_local_size - static_local_size;
    m.add_internal_args(internal_args, ctx);
    Ok(m)
}

/// Whether every image among the values is well-formed.
pub fn check_images_wf(vals: &[Option<KernelArgValue>]) -> (r: bool)
    ensures
        r == images_wf(vals@),
{
    let mut i: usize = 0;
    while i < vals.len()
        invariant
            i <= vals@.len(),
            forall|j: int|
                0 <= j < i ==> ((#[trigger] vals@[j]) matches Some(KernelArgValue::Image(image))
                    ==> image.wf()),
        decreases vals@.len() - i,
    {
        match &vals[i] {
            Some(KernelArgValue::Image(image)) => {
                if image.res_is_buffer && image.mem_type == CL_MEM_OBJECT_IMAGE2D
                    && image.image_elem_size == 0 {
                    return false;
                }
            },
            _ => {},
        }
        i = i + 1;
    }
    true
}

/// Whether a launch has the resources that its internal arguments
/// point to.
pub fn check_internals_ok(
    args: &[InternalKernelArg],
    constant_buffer: Option<u64>,
    printf_buf: Option<u64>,
) -> (r: bool)
    ensures
        r == internals_ok(args@, constant_buffer, printf_buf),
{
    let mut i: usize = 0;
    while i < args.len()
        invariant
            i <= args@.len(),
            forall|j: int|
                0 <= j < i ==> ((#[trigger] args@[j]).kind
                    == InternalKernelArgType::ConstantBuffer ==> constant_buffer is Some) && (
                args@[j].kind == InternalKernelArgType::PrintfBuffer ==> printf_buf is Some),
        decreases args@.len() - i,
    {
        match args[i].kind {
            InternalKernelArgType::ConstantBuffer => {
                if constant_buffer.is_none() {
                    return false;
                }
            },
            InternalKernelArgType::PrintfBuffer => {
                if printf_buf.is_none() {
                    return false;
                }
            },
            _ => {},
        }
        i = i + 1;
    }
    true
}

/// Whether the images among the arguments come in the order of their
/// bindings, by table, so that the tables of a fresh launch have room
/// for each.
pub fn check_bindings_ordered(args: &[KernelArg], vals: &[Option<KernelArgValue>]) -> (r: bool)
    ensures
        r == bindings_ordered(Marshal::empty(0), args@, vals@, 0),
{
    let n: usize = if args.len() < vals.len() {
        args.len()
    } else {
        vals.len()
    };
    // one past the last binding seen, by table
    let mut img_next: u64 = 0;
    let mut tex_next: u64 = 0;
    let mut i: usize = 0;
    while i < n
        invariant
            i <= n,
            n <= args@.len(),
            n <= vals@.len(),
            n == args@.len() || n == vals@.len(),
            img_next <= u32::MAX + 1,
            tex_next <= u32::MAX + 1,
            img_next > 0 ==> exists|j: int|
                0 <= j < i && is_live_image(#[trigger] args@[j], vals@[j]) && writes_image(
                    args@[j],
                ) && args@[j].binding + 1 == img_next,
            tex_next > 0 ==> exists|j: int|
                0 <= j < i && is_live_image(#[trigger] args@[j], vals@[j]) && !writes_image(
                    args@[j],
                ) && args@[j].binding + 1 == tex_next,
            forall|j: int|
                0 <= j < i && is_live_image(#[trigger] args@[j], vals@[j]) ==> (if writes_image(
                    args@[j],
                ) {
                    args@[j].binding < img_next
                } else {
                    args@[j].binding < tex_next
                }),
            forall|j: int, k: int|
                0 <= j < k < i && is_live_image(#[trigger] args@[j], vals@[j]) && is_live_image(
                    #[trigger] args@[k],
                    vals@[k],
                ) && writes_image(args@[j]) == writes_image(args@[k]) ==> args@[j].binding
                    < args@[k].binding,
        decreases n - i,
    {
        let arg = &args[i];
        let live_image: bool = !arg.dead && matches!(vals[i], Some(KernelArgValue::Image(_)));
        if live_image {
            let writes: bool = matches!(arg.kind, KernelArgType::Image | KernelArgType::RWImage);
            let next: u64 = if writes {
                img_next
            } else {
                tex_next
            };
            if (arg.binding as u64) < next {
                proof {
                    lemma_unordered(args@, vals@, i as int, next);
                }
                return false;
            }
            if writes {
                img_next = arg.binding as u64 + 1;
            } else {
                tex_next = arg.binding as u64 + 1;
            }
        }
        i = i + 1;
    }
    true
}

/// An image whose binding is not past that of an earlier image of its
/// table breaks the order.
proof fn lemma_unordered(
    args: Seq<KernelArg>,
    vals: Seq<Option<KernelArgValue>>,
    i: int,
    next: u64,
)
    requires
        0 <= i < args.len(),
        i < vals.len(),
        is_live_image(args[i], vals[i]),
        args[i].binding < next,
        next > 0 ==> exists|j: int|
            0 <= j < i && is_live_image(#[trigger] args[j], vals[j]) && writes_image(args[j])
                == writes_image(args[i]) && args[j].binding + 1 == next,
    ensures
        !bindings_ordered(Marshal::empty(0), args, vals, 0),
{
    let j = choose|j: int|
        0 <= j < i && is_live_image(#[trigger] args[j], vals[j]) && writes_image(args[j])
            == writes_image(args[i]) && args[j].binding + 1 == next;
    if bindings_ordered(Marshal::empty(0), args, vals, 0) {
        assert(args[j].binding < args[i].binding);
    }
}

} // verus!
