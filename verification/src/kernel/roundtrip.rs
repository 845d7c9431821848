//! Laws of the cache format: what was written is read back, and a
//! buffer that was cut short or holds an unknown kind is refused.

use crate::kernel::args::{
    InternalKernelArg, InternalKernelArgType, KernelArgView, low16, parse_arg, parse_args,
    parse_args_n, parse_internal, parse_internals, parse_internals_n, parse_spirv, ser_arg,
    ser_args, ser_args_from, ser_internal, ser_internal_kind, ser_internals, ser_internals_from,
    ser_spirv, SpirvArgView,
};
use crate::kernel::blob::{
    flag_byte, holds_at, le16, le32, lemma_holds_at_concat, lemma_parse_bytes, lemma_parse_u16,
    lemma_parse_u32, lemma_parse_u8, parse_bytes, parse_u16, parse_u32,
};
use vstd::prelude::*;

verus! {

/// The names of the description are short enough for their lengths to
/// be stored.
pub open spec fn spirv_wf(a: SpirvArgView) -> bool {
    a.name.len() < 0x10000 && a.ty_name.len() < 0x10000
}

/// Everything that is stored in 16 bits fits 16 bits.
pub open spec fn arg_wf(a: KernelArgView) -> bool {
    spirv_wf(a.spirv) && a.size < 0x10000 && a.offset < 0x10000 && a.binding < 0x10000
}

/// The list is short enough for its count to be stored, and every
/// entry can be stored.
pub open spec fn args_wf(args: Seq<KernelArgView>) -> bool {
    args.len() < 0x10000 && forall|i: int| 0 <= i < args.len() ==> arg_wf(#[trigger] args[i])
}

/// Size and offset fit 16 bits.
pub open spec fn internal_wf(a: InternalKernelArg) -> bool {
    a.size < 0x10000 && a.offset < 0x10000
}

pub open spec fn internals_wf(args: Seq<InternalKernelArg>) -> bool {
    args.len() < 0x10000 && forall|i: int| 0 <= i < args.len() ==> internal_wf(#[trigger] args[i])
}

/// A buffer holds at its start what it starts with.
pub proof fn lemma_holds_at_start(a: Seq<u8>, rest: Seq<u8>)
    ensures
        holds_at(a + rest, 0, a),
{
    assert((a + rest).subrange(0, a.len() as int) =~= a);
}

/// A description that a buffer holds at `pos` is read back from there.
pub proof fn lemma_spirv_round_trip(s: Seq<u8>, pos: int, a: SpirvArgView)
    requires
        holds_at(s, pos, ser_spirv(a)),
        spirv_wf(a),
    ensures
        parse_spirv(s, pos) == Some((a, pos + ser_spirv(a).len())),
{
    reveal(ser_spirv);
    reveal(parse_spirv);
    let f1 = le32(a.access_qualifier);
    let f2 = le32(a.type_qualifier);
    let f3 = le16(low16(a.name.len() as int));
    let f4 = le16(low16(a.ty_name.len() as int));
    let f7 = seq![a.address_qualifier.tag()];
    let r6 = a.ty_name + f7;
    let r5 = a.name + r6;
    let r4 = f4 + r5;
    let r3 = f3 + r4;
    let r2 = f2 + r3;
    assert(ser_spirv(a) == f1 + r2);
    lemma_holds_at_concat(s, pos, f1, r2);
    lemma_parse_u32(s, pos, a.access_qualifier);
    lemma_holds_at_concat(s, pos + 4, f2, r3);
    lemma_parse_u32(s, pos + 4, a.type_qualifier);
    lemma_holds_at_concat(s, pos + 8, f3, r4);
    lemma_parse_u16(s, pos + 8, low16(a.name.len() as int));
    lemma_holds_at_concat(s, pos + 10, f4, r5);
    lemma_parse_u16(s, pos + 10, low16(a.ty_name.len() as int));
    lemma_holds_at_concat(s, pos + 12, a.name, r6);
    lemma_parse_bytes(s, pos + 12, a.name);
    lemma_holds_at_concat(s, pos + 12 + a.name.len(), a.ty_name, f7);
    lemma_parse_bytes(s, pos + 12 + a.name.len(), a.ty_name);
    lemma_parse_u8(s, pos + 12 + a.name.len() + a.ty_name.len(), a.address_qualifier.tag());
}

/// A parameter that a buffer holds at `pos` is read back from there.
pub proof fn lemma_arg_round_trip(s: Seq<u8>, pos: int, a: KernelArgView)
    requires
        holds_at(s, pos, ser_arg(a)),
        arg_wf(a),
    ensures
        parse_arg(s, pos) == Some((a, pos + ser_arg(a).len())),
{
    reveal(ser_arg);
    reveal(parse_arg);
    let f0 = ser_spirv(a.spirv);
    let f1 = le16(low16(a.size as int));
    let f2 = le16(low16(a.offset as int));
    let f3 = le16(low16(a.binding as int));
    let f4 = seq![flag_byte(a.dead)];
    let f5 = seq![a.kind.tag()];
    let r4 = f4 + f5;
    let r3 = f3 + r4;
    let r2 = f2 + r3;
    let r1 = f1 + r2;
    assert(ser_arg(a) == f0 + r1);
    lemma_holds_at_concat(s, pos, f0, r1);
    lemma_spirv_round_trip(s, pos, a.spirv);
    let p1 = pos + f0.len();
    lemma_holds_at_concat(s, p1, f1, r2);
    lemma_parse_u16(s, p1, low16(a.size as int));
    lemma_holds_at_concat(s, p1 + 2, f2, r3);
    lemma_parse_u16(s, p1 + 2, low16(a.offset as int));
    lemma_holds_at_concat(s, p1 + 4, f3, r4);
    lemma_parse_u16(s, p1 + 4, low16(a.binding as int));
    lemma_holds_at_concat(s, p1 + 6, f4, f5);
    lemma_parse_u8(s, p1 + 6, flag_byte(a.dead));
    lemma_parse_u8(s, p1 + 7, a.kind.tag());
    let parsed = parse_arg(s, pos);
    assert(parsed is Some);
    assert(parsed.unwrap().0.spirv == a.spirv);
    assert(parsed.unwrap().0.kind == a.kind);
}

/// The parameters from index `i` on, held by a buffer at `pos`, are
/// read back from there.
pub proof fn lemma_args_from_round_trip(s: Seq<u8>, pos: int, args: Seq<KernelArgView>, i: int)
    requires
        0 <= i <= args.len(),
        forall|j: int| 0 <= j < args.len() ==> arg_wf(#[trigger] args[j]),
        holds_at(s, pos, ser_args_from(args, i)),
    ensures
        parse_args_n(s, pos, (args.len() - i) as nat) == Some(
            (args.skip(i), pos + ser_args_from(args, i).len()),
        ),
    decreases args.len() - i,
{
    if i < args.len() {
        let head = ser_arg(args[i]);
        let tail = ser_args_from(args, i + 1);
        lemma_holds_at_concat(s, pos, head, tail);
        lemma_arg_round_trip(s, pos, args[i]);
        lemma_args_from_round_trip(s, pos + head.len(), args, i + 1);
        assert(seq![args[i]] + args.skip(i + 1) =~= args.skip(i));
    } else {
        assert(args.skip(i) =~= Seq::empty());
    }
}

/// A list of parameters that is written and read back is the same
/// list, field for field, whatever follows it in the buffer.
pub proof fn lemma_kernel_args_round_trip(args: Seq<KernelArgView>, rest: Seq<u8>)
    requires
        args_wf(args),
    ensures
        parse_args(ser_args(args) + rest, 0) == Some((args, ser_args(args).len() as int)),
{
    let s = ser_args(args) + rest;
    let count = le16(low16(args.len() as int));
    let entries = ser_args_from(args, 0);
    lemma_holds_at_start(ser_args(args), rest);
    lemma_holds_at_concat(s, 0, count, entries);
    lemma_parse_u16(s, 0, low16(args.len() as int));
    lemma_args_from_round_trip(s, 2, args, 0);
    assert(args.skip(0) =~= args);
}

/// An internal argument that a buffer holds at `pos` is read back from
/// there.
pub proof fn lemma_internal_round_trip(s: Seq<u8>, pos: int, a: InternalKernelArg)
    requires
        holds_at(s, pos, ser_internal(a)),
        internal_wf(a),
    ensures
        parse_internal(s, pos) == Some((a, pos + ser_internal(a).len())),
{
    reveal(ser_internal);
    reveal(parse_internal);
    let f1 = le16(low16(a.size as int));
    let f2 = le16(low16(a.offset as int));
    let f3 = ser_internal_kind(a.kind);
    let r2 = f2 + f3;
    assert(ser_internal(a) == f1 + r2);
    lemma_holds_at_concat(s, pos, f1, r2);
    lemma_parse_u16(s, pos, low16(a.size as int));
    lemma_holds_at_concat(s, pos + 2, f2, f3);
    lemma_parse_u16(s, pos + 2, low16(a.offset as int));
    match a.kind {
        InternalKernelArgType::InlineSampler((addr_mode, filter_mode, norm)) => {
            let g1 = seq![3u8];
            let g2 = seq![flag_byte(norm)];
            let g3 = le32(addr_mode);
            let g4 = le32(filter_mode);
            lemma_holds_at_concat(s, pos + 4, g1, g2 + (g3 + g4));
            lemma_parse_u8(s, pos + 4, 3);
            lemma_holds_at_concat(s, pos + 5, g2, g3 + g4);
            lemma_parse_u8(s, pos + 5, flag_byte(norm));
            lemma_holds_at_concat(s, pos + 6, g3, g4);
            lemma_parse_u32(s, pos + 6, addr_mode);
            lemma_parse_u32(s, pos + 10, filter_mode);
        },
        _ => {
            lemma_parse_u8(s, pos + 4, a.kind.tag());
        },
    }
}

/// The internal arguments from index `i` on, held by a buffer at
/// `pos`, are read back from there.
pub proof fn lemma_internals_from_round_trip(
    s: Seq<u8>,
    pos: int,
    args: Seq<InternalKernelArg>,
    i: int,
)
    requires
        0 <= i <= args.len(),
        forall|j: int| 0 <= j < args.len() ==> internal_wf(#[trigger] args[j]),
        holds_at(s, pos, ser_internals_from(args, i)),
    ensures
        parse_internals_n(s, pos, (args.len() - i) as nat) == Some(
            (args.skip(i), pos + ser_internals_from(args, i).len()),
        ),
    decreases args.len() - i,
{
    if i < args.len() {
        let head = ser_internal(args[i]);
        let tail = ser_internals_from(args, i + 1);
        lemma_holds_at_concat(s, pos, head, tail);
        lemma_internal_round_trip(s, pos, args[i]);
        lemma_internals_from_round_trip(s, pos + head.len(), args, i + 1);
        assert(seq![args[i]] + args.skip(i + 1) =~= args.skip(i));
    } else {
        assert(args.skip(i) =~= Seq::empty());
    }
}

/// A list of internal arguments that is written and read back is the
/// same list, field for field, whatever follows it in the buffer.
pub proof fn lemma_internal_args_round_trip(args: Seq<InternalKernelArg>, rest: Seq<u8>)
    requires
        internals_wf(args),
    ensures
        parse_internals(ser_internals(args) + rest, 0) == Some(
            (args, ser_internals(args).len() as int),
        ),
{
    let s = ser_internals(args) + rest;
    let count = le16(low16(args.len() as int));
    let entries = ser_internals_from(args, 0);
    lemma_holds_at_start(ser_internals(args), rest);
    lemma_holds_at_concat(s, 0, count, entries);
    lemma_parse_u16(s, 0, low16(args.len() as int));
    lemma_internals_from_round_trip(s, 2, args, 0);
    assert(args.skip(0) =~= args);
}

/// A user argument whose kind byte is none of the eight known kinds is
/// refused: the kind byte lies 7 bytes past the description.
pub proof fn lemma_unknown_kind_refused(s: Seq<u8>, pos: int)
    requires
        parse_spirv(s, pos) is Some,
        parse_spirv(s, pos).unwrap().1 + 8 <= s.len(),
        s[parse_spirv(s, pos).unwrap().1 + 7] > 7,
    ensures
        parse_arg(s, pos) is None,
{
    reveal(parse_arg);
}

/// An internal argument whose kind byte is none of the nine known
/// kinds is refused: the kind byte lies 4 bytes past its start.
pub proof fn lemma_unknown_internal_kind_refused(s: Seq<u8>, pos: int)
    requires
        0 <= pos,
        pos + 5 <= s.len(),
        s[pos + 4] > 8,
    ensures
        parse_internal(s, pos) is None,
{
    reveal(parse_internal);
}

/// A list with an entry that is refused is refused as a whole.
pub proof fn lemma_refused_entry_refuses_list(s: Seq<u8>, pos: int, n: nat, k: nat)
    requires
        k < n,
        parse_args_n(s, pos, k) matches Some((_, p)) && parse_arg(s, p) is None,
    ensures
        parse_args_n(s, pos, n) is None,
    decreases n,
{
    if k == 0 {
    } else {
        match parse_arg(s, pos) {
            Some((a, p1)) => {
                lemma_refused_entry_refuses_list(s, p1, (n - 1) as nat, (k - 1) as nat);
            },
            None => {},
        }
    }
}

/// `t` starts with all of `s`.
pub open spec fn extends(t: Seq<u8>, s: Seq<u8>) -> bool {
    s.len() <= t.len() && forall|i: int| 0 <= i < s.len() ==> s[i] == t[i]
}

/// Bytes that a buffer yields are yielded by every buffer that extends
/// it.
pub proof fn lemma_extend_bytes(s: Seq<u8>, t: Seq<u8>, pos: int, n: int)
    requires
        parse_bytes(s, pos, n) is Some,
        extends(t, s),
    ensures
        parse_bytes(t, pos, n) == parse_bytes(s, pos, n),
{
    assert(s.subrange(pos, pos + n) =~= t.subrange(pos, pos + n));
}

/// A description that a buffer yields ends inside the buffer, and is
/// yielded by every buffer that extends it.
pub proof fn lemma_extend_spirv(s: Seq<u8>, t: Seq<u8>, pos: int)
    requires
        parse_spirv(s, pos) is Some,
        extends(t, s),
    ensures
        parse_spirv(t, pos) == parse_spirv(s, pos),
        pos <= parse_spirv(s, pos).unwrap().1 <= s.len(),
{
    reveal(parse_spirv);
    let p2 = parse_u32(s, parse_u32(s, pos).unwrap().1).unwrap().1;
    let (name_len, p3) = parse_u16(s, p2).unwrap();
    let (ty_len, p4) = parse_u16(s, p3).unwrap();
    lemma_extend_bytes(s, t, p4, name_len as int);
    let p5 = parse_bytes(s, p4, name_len as int).unwrap().1;
    lemma_extend_bytes(s, t, p5, ty_len as int);
}

/// A parameter that a buffer yields ends inside the buffer, and is
/// yielded by every buffer that extends it.
pub proof fn lemma_extend_arg(s: Seq<u8>, t: Seq<u8>, pos: int)
    requires
        parse_arg(s, pos) is Some,
        extends(t, s),
    ensures
        parse_arg(t, pos) == parse_arg(s, pos),
        pos <= parse_arg(s, pos).unwrap().1 <= s.len(),
{
    reveal(parse_arg);
    lemma_extend_spirv(s, t, pos);
}

/// A run of parameters that a buffer yields ends inside the buffer,
/// and is yielded by every buffer that extends it.
pub proof fn lemma_extend_args_n(s: Seq<u8>, t: Seq<u8>, pos: int, n: nat)
    requires
        0 <= pos <= s.len(),
        parse_args_n(s, pos, n) is Some,
        extends(t, s),
    ensures
        parse_args_n(t, pos, n) == parse_args_n(s, pos, n),
        pos <= parse_args_n(s, pos, n).unwrap().1 <= s.len(),
    decreases n,
{
    if n > 0 {
        lemma_extend_arg(s, t, pos);
        lemma_extend_args_n(s, t, parse_arg(s, pos).unwrap().1, (n - 1) as nat);
    }
}

/// A list of parameters that was cut short is refused: no proper
/// prefix of what was written reads back as a list.
pub proof fn lemma_truncated_args_refused(args: Seq<KernelArgView>, n: int)
    requires
        args_wf(args),
        0 <= n < ser_args(args).len(),
    ensures
        parse_args(ser_args(args).take(n), 0) is None,
{
    let s = ser_args(args);
    let t = s.take(n);
    if parse_args(t, 0) is Some {
        let (count, p) = parse_u16(t, 0).unwrap();
        assert(extends(s, t));
        lemma_extend_args_n(t, s, p, count as nat);
        assert(parse_u16(s, 0) == parse_u16(t, 0));
        assert(parse_args(s, 0) == parse_args(t, 0));
        lemma_kernel_args_round_trip(args, Seq::empty());
        assert(s + Seq::<u8>::empty() =~= s);
    }
}

/// An internal argument that a buffer yields ends inside the buffer,
/// and is yielded by every buffer that extends it.
pub proof fn lemma_extend_internal(s: Seq<u8>, t: Seq<u8>, pos: int)
    requires
        parse_internal(s, pos) is Some,
        extends(t, s),
    ensures
        parse_internal(t, pos) == parse_internal(s, pos),
        pos <= parse_internal(s, pos).unwrap().1 <= s.len(),
{
    reveal(parse_internal);
}

/// A run of internal arguments that a buffer yields ends inside the
/// buffer, and is yielded by every buffer that extends it.
pub proof fn lemma_extend_internals_n(s: Seq<u8>, t: Seq<u8>, pos: int, n: nat)
    requires
        0 <= pos <= s.len(),
        parse_internals_n(s, pos, n) is Some,
        extends(t, s),
    ensures
        parse_internals_n(t, pos, n) == parse_internals_n(s, pos, n),
        pos <= parse_internals_n(s, pos, n).unwrap().1 <= s.len(),
    decreases n,
{
    if n > 0 {
        lemma_extend_internal(s, t, pos);
        lemma_extend_internals_n(s, t, parse_internal(s, pos).unwrap().1, (n - 1) as nat);
    }
}

/// A list of internal arguments that was cut short is refused.
pub proof fn lemma_truncated_internals_refused(args: Seq<InternalKernelArg>, n: int)
    requires
        internals_wf(args),
        0 <= n < ser_internals(args).len(),
    ensures
        parse_internals(ser_internals(args).take(n), 0) is None,
{
    let s = ser_internals(args);
    let t = s.take(n);
    if parse_internals(t, 0) is Some {
        let (count, p) = parse_u16(t, 0).unwrap();
        assert(extends(s, t));
        lemma_extend_internals_n(t, s, p, count as nat);
        assert(parse_u16(s, 0) == parse_u16(t, 0));
        assert(parse_internals(s, 0) == parse_internals(t, 0));
        lemma_internal_args_round_trip(args, Seq::empty());
        assert(s + Seq::<u8>::empty() =~= s);
    }
}

} // verus!
