//! The layout of the input buffer of a launch, as a whole: where the
//! arguments come in the order of their offsets, what an argument
//! writes stays as it was written, and what lies between two arguments
//! is zero.

use crate::kernel::args::{InternalKernelArg, KernelArg};
use crate::kernel::launch::{
    arg_step, args_added, args_from, grown, internal_payload, internal_step, internals_from,
    kind_is_object, KernelArgValue, launch_spec, LaunchContext, lemma_constant_lands_at_offset,
    Marshal, MarshalView, zeros,
};
use vstd::prelude::*;

verus! {

/// What the arguments from index `i` up to index `k` add, each with
/// the value of the same index; the first error ends it.
pub open spec fn args_upto(
    st: MarshalView,
    args: Seq<KernelArg>,
    vals: Seq<Option<KernelArgValue>>,
    i: int,
    k: int,
    address_bits: u32,
) -> Result<MarshalView, i32>
    decreases k - i,
{
    if 0 <= i < k {
        match arg_step(st, args[i], vals[i], address_bits) {
            Ok(next) => args_upto(next, args, vals, i + 1, k, address_bits),
            Err(e) => Err(e),
        }
    } else {
        Ok(st)
    }
}

/// The argument writes into the input buffer at its own offset.
pub open spec fn writes_at_offset(arg: KernelArg) -> bool {
    !arg.dead && !kind_is_object(arg.kind)
}

/// The arguments from index `i` on come in the order of their offsets
/// and do not overlap: when its turn comes, the offset of each
/// argument that writes into the buffer is not before the end of what
/// the buffer holds.
pub open spec fn in_order(
    st: MarshalView,
    args: Seq<KernelArg>,
    vals: Seq<Option<KernelArgValue>>,
    i: int,
    address_bits: u32,
) -> bool
    decreases args.len() - i,
{
    if 0 <= i < args.len() && i < vals.len() {
        &&& writes_at_offset(args[i]) ==> st.input.len() <= args[i].offset
        &&& match arg_step(st, args[i], vals[i], address_bits) {
            Ok(next) => in_order(next, args, vals, i + 1, address_bits),
            Err(_) => true,
        }
    } else {
        true
    }
}

/// `head` is what `whole` begins with.
pub open spec fn begins_with(whole: Seq<u8>, head: Seq<u8>) -> bool {
    head.len() <= whole.len() && whole.subrange(0, head.len() as int) == head
}

/// What one argument does to the buffer, if its offset is not before
/// the buffer's end: what the buffer held stays; an argument that
/// writes at its offset leaves zeros between the old end and the
/// offset, and its bytes begin at the offset.
pub proof fn lemma_step_layout(
    st: MarshalView,
    arg: KernelArg,
    val: Option<KernelArgValue>,
    address_bits: u32,
)
    requires
        writes_at_offset(arg) ==> st.input.len() <= arg.offset,
        arg_step(st, arg, val, address_bits) is Ok,
    ensures
        begins_with(arg_step(st, arg, val, address_bits).unwrap().input, st.input),
        writes_at_offset(arg) ==> arg.offset <= arg_step(
            st,
            arg,
            val,
            address_bits,
        ).unwrap().input.len() && arg_step(st, arg, val, address_bits).unwrap().input.subrange(
            st.input.len() as int,
            arg.offset as int,
        ) == zeros((arg.offset - st.input.len()) as nat),
{
    reveal(arg_step);
    let next = arg_step(st, arg, val, address_bits).unwrap();
    assert(next.input.subrange(0, st.input.len() as int) =~= st.input);
    if writes_at_offset(arg) {
        assert(next.input.subrange(st.input.len() as int, arg.offset as int) =~= zeros(
            (arg.offset - st.input.len()) as nat,
        ));
    }
}

/// The arguments from `i` on add what those up to `k` add, and then
/// those from `k` on.
pub proof fn lemma_args_split(
    st: MarshalView,
    args: Seq<KernelArg>,
    vals: Seq<Option<KernelArgValue>>,
    i: int,
    k: int,
    address_bits: u32,
)
    requires
        0 <= i <= k <= args.len(),
        args.len() == vals.len(),
    ensures
        args_from(st, args, vals, i, address_bits) == (match args_upto(
            st,
            args,
            vals,
            i,
            k,
            address_bits,
        ) {
            Ok(mid) => args_from(mid, args, vals, k, address_bits),
            Err(e) => Err(e),
        }),
        in_order(st, args, vals, i, address_bits) ==> (args_upto(st, args, vals, i, k, address_bits)
            matches Ok(mid) ==> in_order(mid, args, vals, k, address_bits)),
    decreases k - i,
{
    if i < k {
        match arg_step(st, args[i], vals[i], address_bits) {
            Ok(next) => {
                lemma_args_split(next, args, vals, i + 1, k, address_bits);
            },
            Err(_) => {},
        }
    }
}

/// Where the arguments come in the order of their offsets, what the
/// buffer holds is never touched again: the buffer at the end begins
/// with the buffer at any earlier time.
pub proof fn lemma_args_keep_prefix(
    st: MarshalView,
    args: Seq<KernelArg>,
    vals: Seq<Option<KernelArgValue>>,
    i: int,
    address_bits: u32,
)
    requires
        0 <= i <= args.len(),
        args.len() == vals.len(),
        in_order(st, args, vals, i, address_bits),
        args_from(st, args, vals, i, address_bits) is Ok,
    ensures
        begins_with(args_from(st, args, vals, i, address_bits).unwrap().input, st.input),
    decreases args.len() - i,
{
    if i < args.len() {
        let next = arg_step(st, args[i], vals[i], address_bits).unwrap();
        lemma_step_layout(st, args[i], vals[i], address_bits);
        lemma_args_keep_prefix(next, args, vals, i + 1, address_bits);
        let fin = args_from(st, args, vals, i, address_bits).unwrap();
        assert(fin.input.subrange(0, st.input.len() as int) =~= next.input.subrange(
            0,
            st.input.len() as int,
        )) by {
            assert(fin.input.subrange(0, next.input.len() as int) == next.input);
            assert forall|p: int| 0 <= p < st.input.len() implies fin.input[p] == next.input[p] by {
                assert(fin.input.subrange(0, next.input.len() as int)[p] == fin.input[p]);
            }
        }
    } else {
        assert(st.input.subrange(0, st.input.len() as int) =~= st.input);
    }
}

/// The layout of the arguments in the input buffer.  Where the
/// arguments come in the order of their offsets and marshalling
/// succeeds, the buffer at the end holds, for every argument `k`: what
/// the buffer held before the argument, then zeros up to the offset of
/// an argument that writes at its offset, then what the argument
/// wrote, all as they were when the argument was added.  So the bytes
/// of an argument lie at its offset, and the bytes that no argument
/// wrote are zero.
pub proof fn lemma_argument_stays(
    st: MarshalView,
    args: Seq<KernelArg>,
    vals: Seq<Option<KernelArgValue>>,
    k: int,
    address_bits: u32,
)
    requires
        0 <= k < args.len(),
        args.len() == vals.len(),
        in_order(st, args, vals, 0, address_bits),
        args_from(st, args, vals, 0, address_bits) is Ok,
    ensures
        args_upto(st, args, vals, 0, k, address_bits) matches Ok(before) && arg_step(
            before,
            args[k],
            vals[k],
            address_bits,
        ) matches Ok(after) && begins_with(after.input, before.input) && begins_with(
            args_from(st, args, vals, 0, address_bits).unwrap().input,
            after.input,
        ) && (writes_at_offset(args[k]) ==> before.input.len() <= args[k].offset
            <= after.input.len() && after.input.subrange(
            before.input.len() as int,
            args[k].offset as int,
        ) == zeros((args[k].offset - before.input.len()) as nat)),
{
    lemma_args_split(st, args, vals, 0, k, address_bits);
    let before = args_upto(st, args, vals, 0, k, address_bits).unwrap();
    let after = arg_step(before, args[k], vals[k], address_bits).unwrap();
    lemma_step_layout(before, args[k], vals[k], address_bits);
    lemma_args_keep_prefix(after, args, vals, k + 1, address_bits);
}

/// A value passed by value lies at the offset of its argument in the
/// buffer that the arguments leave, where they come in the order of
/// their offsets.
pub proof fn lemma_constant_stays(
    st: MarshalView,
    args: Seq<KernelArg>,
    vals: Seq<Option<KernelArgValue>>,
    k: int,
    c: Vec<u8>,
    address_bits: u32,
)
    requires
        0 <= k < args.len(),
        args.len() == vals.len(),
        writes_at_offset(args[k]),
        vals[k] == Some(KernelArgValue::Constant(c)),
        in_order(st, args, vals, 0, address_bits),
        args_from(st, args, vals, 0, address_bits) is Ok,
    ensures
        args[k].offset + c@.len() <= args_from(st, args, vals, 0, address_bits).unwrap().input.len(),
        args_from(st, args, vals, 0, address_bits).unwrap().input.subrange(
            args[k].offset as int,
            args[k].offset + c@.len(),
        ) == c@,
{
    lemma_argument_stays(st, args, vals, k, address_bits);
    let before = args_upto(st, args, vals, 0, k, address_bits).unwrap();
    let after = arg_step(before, args[k], vals[k], address_bits).unwrap();
    let fin = args_from(st, args, vals, 0, address_bits).unwrap();
    lemma_constant_lands_at_offset(before, args[k], c, address_bits);
    let lo = args[k].offset as int;
    let hi = args[k].offset + c@.len();
    assert(fin.input.subrange(lo, hi) =~= after.input.subrange(lo, hi)) by {
        assert forall|p: int| lo <= p < hi implies fin.input[p] == after.input[p] by {
            assert(fin.input.subrange(0, after.input.len() as int)[p] == fin.input[p]);
        }
    }
}

/// An internal argument leaves what the buffer held, whatever its
/// offset: between the old end and a later offset it leaves zeros.
pub proof fn lemma_internal_step_layout(st: MarshalView, arg: InternalKernelArg, ctx: LaunchContext)
    ensures
        begins_with(internal_step(st, arg, ctx).input, grown(st.input, arg.offset as nat)),
        begins_with(grown(st.input, arg.offset as nat), st.input),
        begins_with(internal_step(st, arg, ctx).input, st.input),
        st.input.len() <= arg.offset ==> grown(st.input, arg.offset as nat).subrange(
            st.input.len() as int,
            arg.offset as int,
        ) == zeros((arg.offset - st.input.len()) as nat),
{
    reveal(internal_payload);
    let filled = grown(st.input, arg.offset as nat);
    let next = internal_step(st, arg, ctx);
    assert(next.input.subrange(0, filled.len() as int) =~= filled);
    assert(filled.subrange(0, st.input.len() as int) =~= st.input);
    assert(next.input.subrange(0, st.input.len() as int) =~= st.input);
    if st.input.len() <= arg.offset {
        assert(filled.subrange(st.input.len() as int, arg.offset as int) =~= zeros(
            (arg.offset - st.input.len()) as nat,
        ));
    }
}

/// The internal arguments never touch what the buffer holds: the
/// buffer at the end begins with the buffer at the start.
pub proof fn lemma_internals_keep_prefix(
    st: MarshalView,
    args: Seq<InternalKernelArg>,
    i: int,
    ctx: LaunchContext,
)
    requires
        0 <= i <= args.len(),
    ensures
        begins_with(internals_from(st, args, i, ctx).input, st.input),
    decreases args.len() - i,
{
    if i < args.len() {
        let next = internal_step(st, args[i], ctx);
        lemma_internal_step_layout(st, args[i], ctx);
        lemma_internals_keep_prefix(next, args, i + 1, ctx);
        let fin = internals_from(st, args, i, ctx);
        assert(fin.input.subrange(0, st.input.len() as int) =~= st.input) by {
            assert forall|p: int| 0 <= p < st.input.len() implies fin.input[p] == st.input[p] by {
                assert(fin.input.subrange(0, next.input.len() as int)[p] == fin.input[p]);
                assert(next.input.subrange(0, st.input.len() as int)[p] == next.input[p]);
            }
        }
    } else {
        assert(st.input.subrange(0, st.input.len() as int) =~= st.input);
    }
}

/// The input buffer of a launch begins with what the arguments of the
/// kernel wrote: the internal arguments come after them and leave them
/// as they are.
pub proof fn lemma_launch_keeps_arguments(
    args: Seq<KernelArg>,
    vals: Seq<Option<KernelArgValue>>,
    internal_args: Seq<InternalKernelArg>,
    ctx: LaunchContext,
    static_local_size: u64,
)
    requires
        launch_spec(args, vals, internal_args, ctx, static_local_size) is Ok,
    ensures
        args_added(Marshal::empty(static_local_size), args, vals, ctx.address_bits) matches Ok(mid)
            && begins_with(
            launch_spec(args, vals, internal_args, ctx, static_local_size).unwrap().input,
            mid.input,
        ),
{
    let mid = args_added(Marshal::empty(static_local_size), args, vals, ctx.address_bits).unwrap();
    lemma_internals_keep_prefix(
        MarshalView {
            variable_local_size: (mid.variable_local_size - static_local_size) as u64,
            ..mid
        },
        internal_args,
        0,
        ctx,
    );
}

} // verus!
