//! The decisions of kernel lowering: how each parameter is classified,
//! which arguments the compiler adds and in what order, and how the
//! final offsets and bindings reach the argument lists.
//!
//! The shader itself is transformed elsewhere; lowering sees of it the
//! list of its uniform and image variables and a few facts on what the
//! kernel body reads.

use crate::kernel::args::{
    AddressQualifier, InternalKernelArg, InternalKernelArgType, KernelArg, KernelArgType,
    SPIRVKernelArg,
};
use vstd::prelude::*;

verus! {

/// The access flags of an image variable that is only read.
pub const ACCESS_NON_WRITEABLE: u32 = 16;

/// The access flags of an image variable that is only written.
pub const ACCESS_NON_READABLE: u32 = 8;

pub const CL_ADDRESS_NONE: u32 = 0x1130;

pub const CL_ADDRESS_CLAMP_TO_EDGE: u32 = 0x1131;

pub const CL_ADDRESS_CLAMP: u32 = 0x1132;

pub const CL_ADDRESS_REPEAT: u32 = 0x1133;

pub const CL_ADDRESS_MIRRORED_REPEAT: u32 = 0x1134;

pub const CL_FILTER_NEAREST: u32 = 0x1140;

pub const CL_FILTER_LINEAR: u32 = 0x1141;

/// A sampler that the kernel's source defines, as the shader holds it.
#[derive(Clone, Copy, Debug, PartialEq, Eq)]
pub struct InlineSampler {
    /// 0 none, 1 clamp to edge, 2 clamp, 3 repeat, 4 mirrored repeat.
    pub addressing_mode: u32,
    /// 0 nearest, 1 linear.
    pub filter_mode: u32,
    pub normalized_coordinates: u32,
}

/// What lowering sees of a uniform or image variable of the shader.
#[derive(Clone, Copy, Debug, PartialEq, Eq)]
pub struct NirVariable {
    /// The stable number of the variable: that of the parameter it
    /// stands for, or one past the parameters for an added variable.
    pub location: i32,
    /// The byte offset that the driver's layout gave the variable.
    pub driver_location: u32,
    pub binding: u32,
    pub is_sampler: bool,
    pub is_image: bool,
    pub is_texture: bool,
    pub access: u32,
    /// The size of the variable's type as a kernel argument.
    pub cl_size: u32,
    /// The sampler that the variable holds, if the source defines it.
    pub inline_sampler: Option<InlineSampler>,
}

/// The index of the variable that stands for location `loc`: the last
/// one among the first `n`, if there is any.
pub open spec fn var_at(vars: Seq<NirVariable>, loc: int, n: int) -> Option<int>
    decreases n,
{
    if n <= 0 {
        None
    } else if vars[n - 1].location == loc {
        Some(n - 1)
    } else {
        var_at(vars, loc, n - 1)
    }
}

/// What `var_at` finds is a variable of that location, and none after
/// it is.
pub proof fn lemma_var_at(vars: Seq<NirVariable>, loc: int, n: int)
    requires
        0 <= n <= vars.len(),
    ensures
        match var_at(vars, loc, n) {
            Some(k) => 0 <= k < n && vars[k].location == loc && forall|j: int|
                k < j < n ==> vars[j].location != loc,
            None => forall|j: int| 0 <= j < n ==> vars[j].location != loc,
        },
    decreases n,
{
    if n > 0 && vars[n - 1].location != loc {
        lemma_var_at(vars, loc, n - 1);
    }
}

/// A variable of another location has no part in what is found for a
/// location.
pub proof fn lemma_var_at_ignores_others(vars: Seq<NirVariable>, loc: int, j: int, n: int)
    requires
        0 <= j < n <= vars.len(),
        vars[j].location != loc,
    ensures
        match (var_at(vars, loc, n), var_at(vars.remove(j), loc, n - 1)) {
            (Some(k), Some(m)) => vars[k] == vars.remove(j)[m],
            (None, None) => true,
            _ => false,
        },
    decreases n,
{
    let rest = vars.remove(j);
    if j == n - 1 {
        assert forall|i: int| 0 <= i < n - 1 implies vars[i] == rest[i] by {}
        lemma_var_at_prefix(vars, rest, loc, n - 1);
        lemma_var_at(vars, loc, n - 1);
        assert(var_at(vars, loc, n) == var_at(vars, loc, n - 1));
        match var_at(vars, loc, n - 1) {
            Some(k) => {
                assert(rest[k] == vars[k]);
            },
            None => {},
        }
    } else {
        assert(rest[n - 2] == vars[n - 1]);
        if vars[n - 1].location != loc {
            lemma_var_at_ignores_others(vars, loc, j, n - 1);
            assert(var_at(vars, loc, n) == var_at(vars, loc, n - 1));
            assert(var_at(rest, loc, n - 1) == var_at(rest, loc, n - 2));
        } else {
            assert(var_at(vars, loc, n) == Some(n - 1));
            assert(var_at(rest, loc, n - 1) == Some(n - 2));
        }
    }
}

/// What is found among the first `n` variables depends on them alone.
pub proof fn lemma_var_at_prefix(a: Seq<NirVariable>, b: Seq<NirVariable>, loc: int, n: int)
    requires
        0 <= n <= a.len(),
        n <= b.len(),
        forall|i: int| 0 <= i < n ==> a[i] == b[i],
    ensures
        var_at(a, loc, n) == var_at(b, loc, n),
    decreases n,
{
    if n > 0 {
        lemma_var_at_prefix(a, b, loc, n - 1);
    }
}

/// Finds the variable that stands for a location.
pub fn find_var(vars: &[NirVariable], loc: i32) -> (r: Option<usize>)
    ensures
        match var_at(vars@, loc as int, vars@.len() as int) {
            Some(k) => r == Some(k as usize),
            None => r is None,
        },
{
    let mut n: usize = vars.len();
    while n > 0
        invariant
            n <= vars@.len(),
            var_at(vars@, loc as int, vars@.len() as int) == var_at(vars@, loc as int, n as int),
        decreases n,
    {
        if vars[n - 1].location == loc {
            return Some(n - 1);
        }
        n = n - 1;
    }
    None
}

/// The kind of a parameter: by the address space that the source
/// declares, and for private and global parameters by what the
/// variable is.  A global image is classified by its access flags: one
/// that is only read is sampled, one that is only written is an image,
/// any other is read and written.
pub open spec fn classify(address_qualifier: AddressQualifier, var: NirVariable) -> KernelArgType {
    match address_qualifier {
        AddressQualifier::Private => if var.is_sampler {
            KernelArgType::Sampler
        } else {
            KernelArgType::Constant
        },
        AddressQualifier::Constant => KernelArgType::MemConstant,
        AddressQualifier::Local => KernelArgType::MemLocal,
        AddressQualifier::Global => if var.is_image {
            if var.access == ACCESS_NON_WRITEABLE {
                KernelArgType::Texture
            } else if var.access == ACCESS_NON_READABLE {
                KernelArgType::Image
            } else {
                KernelArgType::RWImage
            }
        } else {
            KernelArgType::MemGlobal
        },
    }
}

/// Every one of the first `n` parameters has a variable.
pub open spec fn params_have_vars(vars: Seq<NirVariable>, n: int) -> bool {
    forall|i: int| 0 <= i < n ==> (#[trigger] var_at(vars, i, vars.len() as int)) is Some
}

/// Whether every one of the first `n` parameters has a variable.
pub fn check_params_have_vars(vars: &[NirVariable], n: usize) -> (r: bool)
    requires
        n <= i32::MAX,
    ensures
        r == params_have_vars(vars@, n as int),
{
    let mut i: usize = 0;
    while i < n
        invariant
            i <= n <= i32::MAX,
            forall|j: int| 0 <= j < i ==> (#[trigger] var_at(vars@, j, vars@.len() as int)) is Some,
        decreases n - i,
    {
        if find_var(vars, i as i32).is_none() {
            assert(var_at(vars@, i as int, vars@.len() as int) is None);
            return false;
        }
        i = i + 1;
    }
    true
}

/// Whether every variable stands for a parameter or for one of `n`
/// arguments in all.
pub fn check_locations(vars: &[NirVariable], n: usize) -> (r: bool)
    ensures
        r == forall|j: int| 0 <= j < vars@.len() ==> 0 <= (#[trigger] vars@[j]).location < n,
{
    let mut i: usize = 0;
    while i < vars.len()
        invariant
            i <= vars@.len(),
            forall|j: int| 0 <= j < i ==> 0 <= (#[trigger] vars@[j]).location < n,
        decreases vars@.len() - i,
    {
        let loc: i32 = vars[i].location;
        if loc < 0 || loc as u64 >= n as u64 {
            return false;
        }
        i = i + 1;
    }
    true
}

/// Copies a byte vector.
fn copy_bytes(v: &Vec<u8>) -> (r: Vec<u8>)
    ensures
        r@ == v@,
{
    let mut r: Vec<u8> = Vec::new();
    let mut i: usize = 0;
    while i < v.len()
        invariant
            i <= v@.len(),
            r@ == v@.subrange(0, i as int),
        decreases v@.len() - i,
    {
        r.push(v[i]);
        assert(r@ =~= v@.subrange(0, i + 1));
        i = i + 1;
    }
    assert(v@.subrange(0, i as int) =~= v@);
    r
}

impl KernelArg {
    /// The argument that parameter `i` starts lowering as: its kind
    /// and size from the variable, no offset or binding yet, and dead
    /// until a variable claims it.
    pub open spec fn initial(s: SPIRVKernelArg, var: NirVariable) -> crate::kernel::args::KernelArgView {
        crate::kernel::args::KernelArgView {
            spirv: s@,
            kind: classify(s.address_qualifier, var),
            size: var.cl_size as usize,
            offset: 0,
            binding: 0,
            dead: true,
        }
    }

    /// Classifies the parameters of a kernel.  The variable of a
    /// parameter is the one whose location is the parameter's index.
    pub fn from_spirv_nir(spirv: &[SPIRVKernelArg], vars: &[NirVariable]) -> (res: Vec<KernelArg>)
        requires
            spirv@.len() <= i32::MAX,
            params_have_vars(vars@, spirv@.len() as int),
        ensures
            res@.len() == spirv@.len(),
            forall|i: int|
                0 <= i < spirv@.len() ==> (#[trigger] res@[i])@ == Self::initial(
                    spirv@[i],
                    vars@[var_at(vars@, i, vars@.len() as int).unwrap()],
                ),
    {
        let mut res: Vec<KernelArg> = Vec::new();
        let mut i: usize = 0;
        while i < spirv.len()
            invariant
                i <= spirv@.len() <= i32::MAX,
                params_have_vars(vars@, spirv@.len() as int),
                res@.len() == i,
                forall|j: int|
                    0 <= j < i ==> (#[trigger] res@[j])@ == Self::initial(
                        spirv@[j],
                        vars@[var_at(vars@, j, vars@.len() as int).unwrap()],
                    ),
            decreases spirv@.len() - i,
        {
            let s = &spirv[i];
            proof {
                assert(var_at(vars@, i as int, vars@.len() as int) is Some);
                lemma_var_at(vars@, i as int, vars@.len() as int);
            }
            let k: usize = match find_var(vars, i as i32) {
                Some(k) => k,
                None => 0,
            };
            let nir = &vars[k];
            let kind = match s.address_qualifier {
                AddressQualifier::Private => {
                    if nir.is_sampler {
                        KernelArgType::Sampler
                    } else {
                        KernelArgType::Constant
                    }
                },
                AddressQualifier::Constant => KernelArgType::MemConstant,
                AddressQualifier::Local => KernelArgType::MemLocal,
                AddressQualifier::Global => {
                    if nir.is_image {
                        if nir.access == ACCESS_NON_WRITEABLE {
                            KernelArgType::Texture
                        } else if nir.access == ACCESS_NON_READABLE {
                            KernelArgType::Image
                        } else {
                            KernelArgType::RWImage
                        }
                    } else {
                        KernelArgType::MemGlobal
                    }
                },
            };
            res.push(
                KernelArg {
                    spirv: SPIRVKernelArg {
                        name: copy_bytes(&s.name),
                        ty_name: copy_bytes(&s.ty_name),
                        access_qualifier: s.access_qualifier,
                        address_qualifier: s.address_qualifier,
                        type_qualifier: s.type_qualifier,
                    },
                    size: nir.cl_size as usize,
                    // we'll update it later in the 2nd pass
                    kind,
                    offset: 0,
                    binding: 0,
                    dead: true,
                },
            );
            i = i + 1;
        }
        res
    }

    /// The argument after it got the location of its variable, if it
    /// has one: the variable's offset and binding, and alive.  An
    /// argument without a variable stays as it is.
    pub open spec fn located(self, vars: Seq<NirVariable>, i: int) -> KernelArg {
        match var_at(vars, i, vars.len() as int) {
            Some(k) => KernelArg {
                offset: vars[k].driver_location as usize,
                binding: vars[k].binding,
                dead: false,
                ..self
            },
            None => self,
        }
    }

    /// Hands the final locations of the shader's variables to the
    /// arguments: a variable whose location is the index of a
    /// parameter gives it its offset and binding and marks it alive; a
    /// variable past the parameters gives its offset to the internal
    /// argument it stands for.  An argument that no variable is left
    /// for stays dead, with no offset and no binding.
    pub fn assign_locations(
        args: &mut Vec<KernelArg>,
        internal_args: &mut Vec<InternalKernelArg>,
        vars: &[NirVariable],
    )
        requires
            forall|j: int|
                0 <= j < vars@.len() ==> 0 <= (#[trigger] vars@[j]).location < old(args)@.len()
                    + old(internal_args)@.len(),
        ensures
            final(args)@.len() == old(args)@.len(),
            final(internal_args)@.len() == old(internal_args)@.len(),
            forall|i: int|
                0 <= i < old(args)@.len() ==> (#[trigger] final(args)@[i]) == old(args)@[i].located(
                    vars@,
                    i,
                ),
            forall|i: int|
                0 <= i < old(internal_args)@.len() ==> (#[trigger] final(internal_args)@[i])
                    == internal_located(
                    old(internal_args)@[i],
                    vars@,
                    old(args)@.len() + i,
                    vars@.len() as int,
                ),
    {
        let n_args: usize = args.len();
        let mut v: usize = 0;
        while v < vars.len()
            invariant
                v <= vars@.len(),
                n_args == old(args)@.len(),
                args@.len() == old(args)@.len(),
                internal_args@.len() == old(internal_args)@.len(),
                forall|j: int|
                    0 <= j < vars@.len() ==> 0 <= (#[trigger] vars@[j]).location < old(args)@.len()
                        + old(internal_args)@.len(),
                forall|i: int|
                    0 <= i < args@.len() ==> (#[trigger] args@[i]) == located_upto(
                        old(args)@[i],
                        vars@,
                        i,
                        v as int,
                    ),
                forall|i: int|
                    0 <= i < internal_args@.len() ==> (#[trigger] internal_args@[i])
                        == internal_located(
                        old(internal_args)@[i],
                        vars@,
                        old(args)@.len() + i,
                        v as int,
                    ),
            decreases vars@.len() - v,
        {
            let var = &vars[v];
            let loc: usize = var.location as usize;
            if loc < n_args {
                args[loc].offset = var.driver_location as usize;
                args[loc].binding = var.binding;
                args[loc].dead = false;
            } else {
                internal_args[loc - n_args].offset = var.driver_location as usize;
            }
            v = v + 1;
        }
    }
}

/// The offset and binding of an argument do not depend on whether
/// another argument is dead or alive: a variable of another location
/// can be taken away without any effect on them.
pub proof fn lemma_located_ignores_others(arg: KernelArg, vars: Seq<NirVariable>, j: int, i: int)
    requires
        0 <= j < vars.len(),
        vars[j].location != i,
    ensures
        arg.located(vars.remove(j), i) == arg.located(vars, i),
{
    lemma_var_at_ignores_others(vars, i, j, vars.len() as int);
}

/// The argument after the first `n` variables were seen.
pub open spec fn located_upto(arg: KernelArg, vars: Seq<NirVariable>, i: int, n: int) -> KernelArg {
    match var_at(vars, i, n) {
        Some(k) => KernelArg {
            offset: vars[k].driver_location as usize,
            binding: vars[k].binding,
            dead: false,
            ..arg
        },
        None => arg,
    }
}

/// The internal argument of location `loc` after the first `n`
/// variables were seen: it has the offset of its variable, if it has
/// one.
pub open spec fn internal_located(
    arg: InternalKernelArg,
    vars: Seq<NirVariable>,
    loc: int,
    n: int,
) -> InternalKernelArg {
    match var_at(vars, loc, n) {
        Some(k) => InternalKernelArg { offset: vars[k].driver_location as usize, ..arg },
        None => arg,
    }
}

/// The driver laid the variables out in the order of their locations:
/// of two variables, the one with the lower location has the lower
/// offset.
pub open spec fn laid_out_in_order(vars: Seq<NirVariable>) -> bool {
    forall|a: int, b: int|
        0 <= a < vars.len() && 0 <= b < vars.len() && (#[trigger] vars[a]).location
            < (#[trigger] vars[b]).location ==> vars[a].driver_location < vars[b].driver_location
}

/// Where the driver lays the variables out in the order of their
/// locations, the offsets of the arguments follow the order of the
/// arguments: a parameter that has a variable lies before every later
/// parameter that has one, and before every internal argument that
/// has one; and the internal arguments lie in their own order.
pub proof fn lemma_offsets_follow_order(
    args: Seq<KernelArg>,
    internal_args: Seq<InternalKernelArg>,
    vars: Seq<NirVariable>,
)
    requires
        laid_out_in_order(vars),
    ensures
        forall|i: int, j: int|
            0 <= i < j < args.len() && var_at(vars, i, vars.len() as int) is Some && var_at(
                vars,
                j,
                vars.len() as int,
            ) is Some ==> (#[trigger] args[i].located(vars, i)).offset < (#[trigger] args[j].located(
                vars,
                j,
            )).offset,
        forall|i: int, j: int|
            0 <= i < args.len() && 0 <= j < internal_args.len() && var_at(
                vars,
                i,
                vars.len() as int,
            ) is Some && var_at(vars, args.len() + j, vars.len() as int) is Some
                ==> (#[trigger] args[i].located(vars, i)).offset < (#[trigger] internal_located(
                internal_args[j],
                vars,
                args.len() + j,
                vars.len() as int,
            )).offset,
        forall|i: int, j: int|
            0 <= i < j < internal_args.len() && var_at(vars, args.len() + i, vars.len() as int)
                is Some && var_at(vars, args.len() + j, vars.len() as int) is Some
                ==> (#[trigger] internal_located(
                internal_args[i],
                vars,
                args.len() + i,
                vars.len() as int,
            )).offset < (#[trigger] internal_located(
                internal_args[j],
                vars,
                args.len() + j,
                vars.len() as int,
            )).offset,
{
    let n = vars.len() as int;
    assert forall|x: int, y: int|
        x < y && var_at(vars, x, n) is Some && var_at(vars, y, n) is Some implies vars[var_at(
            vars,
            x,
            n,
        ).unwrap()].driver_location < vars[var_at(vars, y, n).unwrap()].driver_location by {
        lemma_var_at(vars, x, n);
        lemma_var_at(vars, y, n);
        let a = var_at(vars, x, n).unwrap();
        let b = var_at(vars, y, n).unwrap();
        assert(vars[a].location < vars[b].location);
    }
}

/// Whether a variable may be removed when nothing refers to it.
/// Images, textures and samplers always stay: the host may ask for
/// their binding.
pub fn can_remove_var(var: &NirVariable) -> (r: bool)
    ensures
        r == (!var.is_image && !var.is_texture && !var.is_sampler),
{
    !var.is_image && !var.is_texture && !var.is_sampler
}

/// Whether a kernel reserves local memory at launch: it has a live
/// parameter in local memory.
pub fn has_variable_shared_mem(args: &[KernelArg]) -> (r: bool)
    ensures
        r == exists|i: int|
            0 <= i < args@.len() && (#[trigger] args@[i]).kind == KernelArgType::MemLocal
                && !args@[i].dead,
{
    let mut i: usize = 0;
    while i < args.len()
        invariant
            i <= args@.len(),
            forall|j: int|
                0 <= j < i ==> !((#[trigger] args@[j]).kind == KernelArgType::MemLocal
                    && !args@[j].dead),
        decreases args@.len() - i,
    {
        if matches!(args[i].kind, KernelArgType::MemLocal) && !args[i].dead {
            return true;
        }
        i = i + 1;
    }
    false
}

/// A sampler of the shader in the terms of the host API: the
/// addressing mode, the filter mode, and whether coordinates are
/// normalized.
pub open spec fn nir_to_cl_spec(s: InlineSampler) -> (u32, u32, bool) {
    (
        match s.addressing_mode {
            0 => CL_ADDRESS_NONE,
            1 => CL_ADDRESS_CLAMP_TO_EDGE,
            2 => CL_ADDRESS_CLAMP,
            3 => CL_ADDRESS_REPEAT,
            _ => CL_ADDRESS_MIRRORED_REPEAT,
        },
        if s.filter_mode == 0 {
            CL_FILTER_NEAREST
        } else {
            CL_FILTER_LINEAR
        },
        s.normalized_coordinates != 0,
    )
}

/// The modes of the sampler are ones that the shader language has.
pub open spec fn sampler_known(s: InlineSampler) -> bool {
    s.addressing_mode <= 4 && s.filter_mode <= 1
}

/// Expresses a sampler of the shader in the terms of the host API.
pub fn nir_to_cl(s: &InlineSampler) -> (r: (u32, u32, bool))
    requires
        sampler_known(*s),
    ensures
        r == nir_to_cl_spec(*s),
{
    let addr_mode: u32 = match s.addressing_mode {
        0 => CL_ADDRESS_NONE,
        1 => CL_ADDRESS_CLAMP_TO_EDGE,
        2 => CL_ADDRESS_CLAMP,
        3 => CL_ADDRESS_REPEAT,
        _ => CL_ADDRESS_MIRRORED_REPEAT,
    };
    let filter: u32 = if s.filter_mode == 0 {
        CL_FILTER_NEAREST
    } else {
        CL_FILTER_LINEAR
    };
    (addr_mode, filter, s.normalized_coordinates != 0)
}

/// The variable holds a sampler that the source defines.
pub open spec fn is_inline_sampler(v: NirVariable) -> bool {
    v.is_sampler && v.inline_sampler is Some
}

/// The location that the walk over the first `n` variables has
/// reached: that of the last variable seen, where an inline sampler
/// counts as one past what was reached before it.
pub open spec fn last_loc(vars: Seq<NirVariable>, n: int) -> int
    decreases n,
{
    if n <= 0 {
        -1
    } else if is_inline_sampler(vars[n - 1]) {
        last_loc(vars, n - 1) + 1
    } else {
        vars[n - 1].location as int
    }
}

/// The internal arguments of the inline samplers among the first `n`
/// variables, in the order of the variables.
pub open spec fn inline_sampler_args(vars: Seq<NirVariable>, n: int) -> Seq<InternalKernelArg>
    decreases n,
{
    if n <= 0 {
        Seq::empty()
    } else if is_inline_sampler(vars[n - 1]) {
        inline_sampler_args(vars, n - 1).push(
            InternalKernelArg {
                kind: InternalKernelArgType::InlineSampler(
                    nir_to_cl_spec(vars[n - 1].inline_sampler.unwrap()),
                ),
                offset: 0,
                size: 0,
            },
        )
    } else {
        inline_sampler_args(vars, n - 1)
    }
}

/// The walk never runs out of locations.
pub open spec fn locations_fit(vars: Seq<NirVariable>) -> bool {
    forall|n: int| 0 <= n <= vars.len() ==> #[trigger] last_loc(vars, n) < i32::MAX
}

/// Whether the inline samplers of the variables can be given
/// locations: the walk never runs out of locations, and the modes of
/// every inline sampler are known.
pub fn check_inline_samplers(vars: &[NirVariable]) -> (r: bool)
    ensures
        r == (locations_fit(vars@) && forall|j: int|
            0 <= j < vars@.len() && is_inline_sampler(#[trigger] vars@[j]) ==> sampler_known(
                vars@[j].inline_sampler.unwrap(),
            )),
{
    let mut last: i32 = -1;
    let mut i: usize = 0;
    while i < vars.len()
        invariant
            i <= vars@.len(),
            last == last_loc(vars@, i as int),
            forall|n: int| 0 <= n <= i ==> #[trigger] last_loc(vars@, n) < i32::MAX,
            forall|j: int|
                0 <= j < i && is_inline_sampler(#[trigger] vars@[j]) ==> sampler_known(
                    vars@[j].inline_sampler.unwrap(),
                ),
        decreases vars@.len() - i,
    {
        let v = &vars[i];
        match v.inline_sampler {
            Some(s) => {
                if v.is_sampler {
                    if s.addressing_mode > 4 || s.filter_mode > 1 {
                        assert(is_inline_sampler(vars@[i as int]));
                        return false;
                    }
                    last = last + 1;
                } else {
                    last = v.location;
                }
            },
            None => {
                last = v.location;
            },
        }
        if last == i32::MAX {
            assert(!(last_loc(vars@, i + 1) < i32::MAX));
            return false;
        }
        i = i + 1;
    }
    true
}

/// Gives every sampler that the source defines a location of its own,
/// one past the location before it, and an internal argument.  This is
/// done before unused variables are removed, since the removal must
/// not disturb the numbering.
pub fn assign_inline_sampler_locations(vars: &mut Vec<NirVariable>) -> (internal_args: Vec<
    InternalKernelArg,
>)
    requires
        locations_fit(old(vars)@),
        forall|j: int|
            0 <= j < old(vars)@.len() && is_inline_sampler(#[trigger] old(vars)@[j])
                ==> sampler_known(old(vars)@[j].inline_sampler.unwrap()),
    ensures
        final(vars)@.len() == old(vars)@.len(),
        internal_args@ == inline_sampler_args(old(vars)@, old(vars)@.len() as int),
        forall|j: int|
            0 <= j < old(vars)@.len() ==> (#[trigger] final(vars)@[j]) == (if is_inline_sampler(
                old(vars)@[j],
            ) {
                NirVariable { location: last_loc(old(vars)@, j + 1) as i32, ..old(vars)@[j] }
            } else {
                old(vars)@[j]
            }),
{
    let mut internal_args: Vec<InternalKernelArg> = Vec::new();
    let mut last: i32 = -1;
    let mut i: usize = 0;
    while i < vars.len()
        invariant
            i <= vars@.len(),
            vars@.len() == old(vars)@.len(),
            locations_fit(old(vars)@),
            forall|j: int|
                0 <= j < old(vars)@.len() && is_inline_sampler(#[trigger] old(vars)@[j])
                    ==> sampler_known(old(vars)@[j].inline_sampler.unwrap()),
            last == last_loc(old(vars)@, i as int),
            internal_args@ == inline_sampler_args(old(vars)@, i as int),
            forall|j: int| i <= j < vars@.len() ==> (#[trigger] vars@[j]) == old(vars)@[j],
            forall|j: int|
                0 <= j < i ==> (#[trigger] vars@[j]) == (if is_inline_sampler(old(vars)@[j]) {
                    NirVariable { location: last_loc(old(vars)@, j + 1) as i32, ..old(vars)@[j] }
                } else {
                    old(vars)@[j]
                }),
        decreases vars@.len() - i,
    {
        proof {
            assert(last_loc(old(vars)@, i as int) < i32::MAX);
            assert(last_loc(old(vars)@, i + 1) < i32::MAX);
            assert(vars@[i as int] == old(vars)@[i as int]);
        }
        let v: NirVariable = vars[i];
        match v.inline_sampler {
            Some(s) => {
                if v.is_sampler {
                    last = last + 1;
                    vars[i].location = last;
                    internal_args.push(
                        InternalKernelArg {
                            kind: InternalKernelArgType::InlineSampler(nir_to_cl(&s)),
                            offset: 0,
                            size: 0,
                        },
                    );
                } else {
                    last = v.location;
                }
            },
            None => {
                last = v.location;
            },
        }
        i = i + 1;
    }
    internal_args
}

/// What the kernel body reads of the launch, and what the shader
/// holds, as far as internal arguments depend on it.
#[derive(Clone, Copy, Debug, PartialEq, Eq, Structural)]
pub struct ShaderUsage {
    pub reads_base_global_invocation_id: bool,
    pub reads_base_workgroup_id: bool,
    pub reads_num_workgroups: bool,
    pub has_constant: bool,
    pub has_printf: bool,
    pub num_images: u32,
    pub num_textures: u32,
    pub reads_work_dim: bool,
}

/// The type of a uniform variable that lowering adds.
#[derive(Clone, Copy, Debug, PartialEq, Eq, Structural)]
pub enum UniformType {
    /// Three integers of the device's address width.
    AddressVec3,
    /// Three 32-bit integers.
    UintVec3,
    /// One integer of the device's address width.
    Address,
    /// An array of that many 16-bit integers.
    Int16Array(u32),
    /// One byte.
    Uint8,
}

/// A uniform variable that lowering adds to the shader for an internal
/// argument.
#[derive(Clone, Copy, Debug, PartialEq, Eq)]
pub struct AddedUniform {
    pub kind: InternalKernelArgType,
    pub ty: UniformType,
    pub location: usize,
}

/// A format in which the shader addresses memory.
#[derive(Clone, Copy, Debug, PartialEq, Eq, Structural)]
pub enum NirAddressFormat {
    Global32,
    Global64,
    Offset32,
    Offset32As64,
}

/// How the shader addresses memory on a device.
#[derive(Clone, Copy, Debug, PartialEq, Eq, Structural)]
pub struct AddressConfig {
    /// The width of a pointer in bits, 32 or 64.
    pub ptr_bits: u32,
    pub global_address_format: NirAddressFormat,
    pub shared_address_format: NirAddressFormat,
}

/// The addressing of a device: 64-bit global pointers and 32-bit
/// shared offsets widened to 64 bits on a device with 64-bit
/// addresses, else 32 bits for both.
pub fn address_config(address_bits: u32) -> (c: AddressConfig)
    ensures
        c == if address_bits == 64 {
            AddressConfig {
                ptr_bits: 64,
                global_address_format: NirAddressFormat::Global64,
                shared_address_format: NirAddressFormat::Offset32As64,
            }
        } else {
            AddressConfig {
                ptr_bits: 32,
                global_address_format: NirAddressFormat::Global32,
                shared_address_format: NirAddressFormat::Offset32,
            }
        },
{
    if address_bits == 64 {
        AddressConfig {
            ptr_bits: 64,
            global_address_format: NirAddressFormat::Global64,
            shared_address_format: NirAddressFormat::Offset32As64,
        }
    } else {
        AddressConfig {
            ptr_bits: 32,
            global_address_format: NirAddressFormat::Global32,
            shared_address_format: NirAddressFormat::Offset32,
        }
    }
}

/// The place of a kind in the order in which internal arguments are
/// added.  The order is part of the cached layout and is never
/// changed.
pub open spec fn kind_rank(kind: InternalKernelArgType) -> int {
    match kind {
        InternalKernelArgType::InlineSampler(_) => 0,
        InternalKernelArgType::GlobalWorkOffsets => 1,
        InternalKernelArgType::WorkGroupOffsets => 2,
        InternalKernelArgType::NumWorkgroups => 3,
        InternalKernelArgType::ConstantBuffer => 4,
        InternalKernelArgType::PrintfBuffer => 5,
        InternalKernelArgType::FormatArray => 6,
        InternalKernelArgType::OrderArray => 7,
        InternalKernelArgType::WorkDim => 8,
    }
}

/// The size of three addresses of the device.
pub open spec fn address_vec3_size(address_bits: u32) -> usize {
    (3 * (address_bits / 8)) as usize
}

/// The number of images and textures of the shader.
pub open spec fn image_count(usage: ShaderUsage) -> int {
    usage.num_images + usage.num_textures
}

/// The uniform type of an internal argument that has a variable.
pub open spec fn uniform_type(kind: InternalKernelArgType, usage: ShaderUsage) -> UniformType {
    match kind {
        InternalKernelArgType::GlobalWorkOffsets => UniformType::AddressVec3,
        InternalKernelArgType::WorkGroupOffsets => UniformType::AddressVec3,
        InternalKernelArgType::NumWorkgroups => UniformType::UintVec3,
        InternalKernelArgType::WorkDim => UniformType::Uint8,
        InternalKernelArgType::FormatArray => UniformType::Int16Array(image_count(usage) as u32),
        InternalKernelArgType::OrderArray => UniformType::Int16Array(image_count(usage) as u32),
        _ => UniformType::Address,
    }
}

/// The size of an internal argument that lowering adds.
pub open spec fn internal_size(
    kind: InternalKernelArgType,
    usage: ShaderUsage,
    address_bits: u32,
) -> usize {
    match kind {
        InternalKernelArgType::GlobalWorkOffsets => address_vec3_size(address_bits),
        InternalKernelArgType::WorkGroupOffsets => address_vec3_size(address_bits),
        InternalKernelArgType::NumWorkgroups => 12,
        InternalKernelArgType::WorkDim => 1,
        InternalKernelArgType::FormatArray => (2 * image_count(usage)) as usize,
        InternalKernelArgType::OrderArray => (2 * image_count(usage)) as usize,
        InternalKernelArgType::InlineSampler(_) => 0,
        _ => (address_bits / 8) as usize,
    }
}

/// Whether the kernel needs the internal argument of a rank.
pub open spec fn rank_needed(rank: int, usage: ShaderUsage) -> bool {
    if rank == 1 {
        usage.reads_base_global_invocation_id
    } else if rank == 2 {
        usage.reads_base_workgroup_id
    } else if rank == 3 {
        usage.reads_num_workgroups
    } else if rank == 4 {
        usage.has_constant
    } else if rank == 5 {
        usage.has_printf
    } else if rank == 6 || rank == 7 {
        usage.num_images > 0 || usage.num_textures > 0
    } else if rank == 8 {
        usage.reads_work_dim
    } else {
        false
    }
}

/// The kind of a rank from 1 to 8.
pub open spec fn kind_of_rank(rank: int) -> InternalKernelArgType {
    if rank == 1 {
        InternalKernelArgType::GlobalWorkOffsets
    } else if rank == 2 {
        InternalKernelArgType::WorkGroupOffsets
    } else if rank == 3 {
        InternalKernelArgType::NumWorkgroups
    } else if rank == 4 {
        InternalKernelArgType::ConstantBuffer
    } else if rank == 5 {
        InternalKernelArgType::PrintfBuffer
    } else if rank == 6 {
        InternalKernelArgType::FormatArray
    } else if rank == 7 {
        InternalKernelArgType::OrderArray
    } else {
        InternalKernelArgType::WorkDim
    }
}

/// The internal arguments that are on the list after the kinds up to
/// rank `rank` were considered: to those at hand, one is added for
/// every kind that the kernel needs, in the order of the ranks, each
/// with its size and no offset yet.
pub open spec fn planned(
    start: Seq<InternalKernelArg>,
    usage: ShaderUsage,
    address_bits: u32,
    rank: int,
) -> Seq<InternalKernelArg>
    decreases rank,
{
    if rank <= 0 {
        start
    } else {
        let before = planned(start, usage, address_bits, rank - 1);
        if rank_needed(rank, usage) {
            before.push(
                InternalKernelArg {
                    kind: kind_of_rank(rank),
                    offset: 0,
                    size: internal_size(kind_of_rank(rank), usage, address_bits),
                },
            )
        } else {
            before
        }
    }
}

/// The uniform variables that are added along with the internal
/// arguments up to rank `rank`: one for each, at the location that
/// follows the parameters by the argument's place on the list.
pub open spec fn planned_uniforms(
    n_args: int,
    start: Seq<InternalKernelArg>,
    usage: ShaderUsage,
    address_bits: u32,
    rank: int,
) -> Seq<AddedUniform>
    decreases rank,
{
    if rank <= 0 {
        Seq::empty()
    } else {
        let before = planned_uniforms(n_args, start, usage, address_bits, rank - 1);
        if rank_needed(rank, usage) {
            before.push(
                AddedUniform {
                    kind: kind_of_rank(rank),
                    ty: uniform_type(kind_of_rank(rank), usage),
                    location: (n_args + planned(start, usage, address_bits, rank).len() - 1) as usize,
                },
            )
        } else {
            before
        }
    }
}

/// The list only grows as kinds are considered, and what was on it
/// stays in place.
pub proof fn lemma_planned_extends(
    start: Seq<InternalKernelArg>,
    usage: ShaderUsage,
    address_bits: u32,
    rank: int,
)
    requires
        0 <= rank <= 8,
    ensures
        start.len() <= planned(start, usage, address_bits, rank).len() <= start.len() + rank,
        forall|i: int|
            0 <= i < start.len() ==> planned(start, usage, address_bits, rank)[i] == start[i],
        forall|i: int|
            start.len() <= i < planned(start, usage, address_bits, rank).len() ==> 1 <= kind_rank(
                #[trigger] planned(start, usage, address_bits, rank)[i].kind,
            ) <= rank,
        forall|i: int, j: int|
            start.len() <= i < j < planned(start, usage, address_bits, rank).len() ==> kind_rank(
                #[trigger] planned(start, usage, address_bits, rank)[i].kind,
            ) < kind_rank(#[trigger] planned(start, usage, address_bits, rank)[j].kind),
    decreases rank,
{
    if rank > 0 {
        lemma_planned_extends(start, usage, address_bits, rank - 1);
    }
}

/// Every internal argument that is added has a uniform variable, and
/// the variables take the locations that follow the parameters and the
/// arguments at hand, one after the other: internal arguments sort
/// after user arguments, in the order in which they were added.
pub proof fn lemma_uniform_locations(
    n_args: int,
    start: Seq<InternalKernelArg>,
    usage: ShaderUsage,
    address_bits: u32,
    rank: int,
)
    requires
        0 <= rank <= 8,
        0 <= n_args,
        n_args + start.len() + 8 <= usize::MAX,
    ensures
        planned_uniforms(n_args, start, usage, address_bits, rank).len() + start.len() == planned(
            start,
            usage,
            address_bits,
            rank,
        ).len(),
        forall|k: int|
            0 <= k < planned_uniforms(n_args, start, usage, address_bits, rank).len() ==> {
                let u = #[trigger] planned_uniforms(n_args, start, usage, address_bits, rank)[k];
                u.location == n_args + start.len() + k && u.kind == planned(
                    start,
                    usage,
                    address_bits,
                    rank,
                )[start.len() + k].kind
            },
    decreases rank,
{
    if rank > 0 {
        lemma_uniform_locations(n_args, start, usage, address_bits, rank - 1);
        lemma_planned_extends(start, usage, address_bits, rank - 1);
    }
}

/// The order of internal arguments is fixed: inline samplers come
/// first, and the kinds that the compiler adds for what the kernel
/// reads follow in the order of their ranks, each at most once.  Every
/// added variable has a location past the parameters, so internal
/// arguments sort after user arguments.
pub proof fn lemma_internal_order(
    n_args: int,
    start: Seq<InternalKernelArg>,
    usage: ShaderUsage,
    address_bits: u32,
)
    requires
        n_args >= 0,
        forall|i: int| 0 <= i < start.len() ==> kind_rank((#[trigger] start[i]).kind) == 0,
    ensures
        forall|i: int, j: int|
            0 <= i < j < planned(start, usage, address_bits, 8).len() ==> kind_rank(
                #[trigger] planned(start, usage, address_bits, 8)[i].kind,
            ) <= kind_rank(#[trigger] planned(start, usage, address_bits, 8)[j].kind),
        forall|i: int, j: int|
            start.len() <= i < j < planned(start, usage, address_bits, 8).len() ==> kind_rank(
                #[trigger] planned(start, usage, address_bits, 8)[i].kind,
            ) < kind_rank(#[trigger] planned(start, usage, address_bits, 8)[j].kind),
{
    lemma_planned_extends(start, usage, address_bits, 8);
    let p = planned(start, usage, address_bits, 8);
    assert forall|i: int, j: int| 0 <= i < j < p.len() implies kind_rank(
        #[trigger] p[i].kind,
    ) <= kind_rank(#[trigger] p[j].kind) by {
        if i < start.len() {
            assert(p[i] == start[i]);
            if j < start.len() {
                assert(p[j] == start[j]);
            }
        }
    }
}

/// The state that the lowering of intrinsics reads: the location of
/// the uniform variable of each value, where the kernel reads one.  A
/// location of 0 stands for none: a kernel never has a variable there
/// that lowering added.
#[derive(Clone, Copy, Debug, PartialEq, Eq, Structural)]
pub struct LowerState {
    pub base_global_invoc_id_loc: usize,
    pub base_workgroup_id_loc: usize,
    pub num_workgroups_loc: usize,
    pub const_buf_loc: usize,
    pub printf_buf_loc: usize,
    pub format_arr_loc: usize,
    pub order_arr_loc: usize,
    pub work_dim_loc: usize,
}

/// The location of the variable added for `kind`, or 0.
pub open spec fn loc_of(uniforms: Seq<AddedUniform>, kind: InternalKernelArgType, n: int) -> usize
    decreases n,
{
    if n <= 0 {
        0
    } else if uniforms[n - 1].kind == kind {
        uniforms[n - 1].location
    } else {
        loc_of(uniforms, kind, n - 1)
    }
}

/// Adds to the list the internal arguments that the kernel needs, in
/// the fixed order: global work offsets, workgroup offsets, number of
/// workgroups, constant buffer, printf buffer, image formats and image
/// orders, work dimension.  Returns the uniform variables to add to
/// the shader, one for each argument added, in the same order.
pub fn add_internal_args(
    n_args: usize,
    internal_args: &mut Vec<InternalKernelArg>,
    usage: &ShaderUsage,
    address_bits: u32,
) -> (uniforms: Vec<AddedUniform>)
    requires
        n_args + old(internal_args)@.len() + 8 <= usize::MAX,
        2 * (usage.num_images + usage.num_textures) <= u32::MAX,
    ensures
        final(internal_args)@ == planned(old(internal_args)@, *usage, address_bits, 8),
        uniforms@ == planned_uniforms(
            n_args as int,
            old(internal_args)@,
            *usage,
            address_bits,
            8,
        ),
{
    let ghost start = internal_args@;
    let mut uniforms: Vec<AddedUniform> = Vec::new();
    let count: u32 = usage.num_images + usage.num_textures;
    let ptr3: usize = 3 * ((address_bits / 8) as usize);
    let ptr: usize = (address_bits / 8) as usize;
    let mut rank: u8 = 1;
    while rank <= 8
        invariant
            1 <= rank <= 9,
            start == old(internal_args)@,
            n_args + start.len() + 8 <= usize::MAX,
            count == usage.num_images + usage.num_textures,
            2 * count <= u32::MAX,
            ptr3 == address_vec3_size(address_bits),
            ptr == (address_bits / 8) as usize,
            internal_args@ == planned(start, *usage, address_bits, rank - 1),
            uniforms@ == planned_uniforms(n_args as int, start, *usage, address_bits, rank - 1),
        decreases 9 - rank,
    {
        proof {
            lemma_planned_extends(start, *usage, address_bits, rank - 1);
        }
        let (needed, kind, size, ty): (bool, InternalKernelArgType, usize, UniformType) =
            match rank {
            1 => (
                usage.reads_base_global_invocation_id,
                InternalKernelArgType::GlobalWorkOffsets,
                ptr3,
                UniformType::AddressVec3,
            ),
            2 => (
                usage.reads_base_workgroup_id,
                InternalKernelArgType::WorkGroupOffsets,
                ptr3,
                UniformType::AddressVec3,
            ),
            3 => (
                usage.reads_num_workgroups,
                InternalKernelArgType::NumWorkgroups,
                12,
                UniformType::UintVec3,
            ),
            4 => (usage.has_constant, InternalKernelArgType::ConstantBuffer, ptr, UniformType::Address),
            5 => (usage.has_printf, InternalKernelArgType::PrintfBuffer, ptr, UniformType::Address),
            6 => (
                count > 0,
                InternalKernelArgType::FormatArray,
                (2 * count) as usize,
                UniformType::Int16Array(count),
            ),
            7 => (
                count > 0,
                InternalKernelArgType::OrderArray,
                (2 * count) as usize,
                UniformType::Int16Array(count),
            ),
            _ => (usage.reads_work_dim, InternalKernelArgType::WorkDim, 1, UniformType::Uint8),
        };
        if needed {
            internal_args.push(InternalKernelArg { kind, offset: 0, size });
            uniforms.push(
                AddedUniform { kind, ty, location: n_args + internal_args.len() - 1 },
            );
        }
        rank = rank + 1;
    }
    uniforms
}

/// The locations that the lowering of intrinsics reads, from the
/// variables that were added.
pub fn lower_state(uniforms: &[AddedUniform]) -> (st: LowerState)
    ensures
        st.base_global_invoc_id_loc == loc_of(
            uniforms@,
            InternalKernelArgType::GlobalWorkOffsets,
            uniforms@.len() as int,
        ),
        st.base_workgroup_id_loc == loc_of(
            uniforms@,
            InternalKernelArgType::WorkGroupOffsets,
            uniforms@.len() as int,
        ),
        st.num_workgroups_loc == loc_of(
            uniforms@,
            InternalKernelArgType::NumWorkgroups,
            uniforms@.len() as int,
        ),
        st.const_buf_loc == loc_of(
            uniforms@,
            InternalKernelArgType::ConstantBuffer,
            uniforms@.len() as int,
        ),
        st.printf_buf_loc == loc_of(
            uniforms@,
            InternalKernelArgType::PrintfBuffer,
            uniforms@.len() as int,
        ),
        st.format_arr_loc == loc_of(
            uniforms@,
            InternalKernelArgType::FormatArray,
            uniforms@.len() as int,
        ),
        st.order_arr_loc == loc_of(
            uniforms@,
            InternalKernelArgType::OrderArray,
            uniforms@.len() as int,
        ),
        st.work_dim_loc == loc_of(
            uniforms@,
            InternalKernelArgType::WorkDim,
            uniforms@.len() as int,
        ),
{
    let mut st = LowerState {
        base_global_invoc_id_loc: 0,
        base_workgroup_id_loc: 0,
        num_workgroups_loc: 0,
        const_buf_loc: 0,
        printf_buf_loc: 0,
        format_arr_loc: 0,
        order_arr_loc: 0,
        work_dim_loc: 0,
    };
    let mut i: usize = 0;
    while i < uniforms.len()
        invariant
            i <= uniforms@.len(),
            st.base_global_invoc_id_loc == loc_of(
                uniforms@,
                InternalKernelArgType::GlobalWorkOffsets,
                i as int,
            ),
            st.base_workgroup_id_loc == loc_of(
                uniforms@,
                InternalKernelArgType::WorkGroupOffsets,
                i as int,
            ),
            st.num_workgroups_loc == loc_of(
                uniforms@,
                InternalKernelArgType::NumWorkgroups,
                i as int,
            ),
            st.const_buf_loc == loc_of(uniforms@, InternalKernelArgType::ConstantBuffer, i as int),
            st.printf_buf_loc == loc_of(uniforms@, InternalKernelArgType::PrintfBuffer, i as int),
            st.format_arr_loc == loc_of(uniforms@, InternalKernelArgType::FormatArray, i as int),
            st.order_arr_loc == loc_of(uniforms@, InternalKernelArgType::OrderArray, i as int),
            st.work_dim_loc == loc_of(uniforms@, InternalKernelArgType::WorkDim, i as int),
        decreases uniforms@.len() - i,
    {
        let u = &uniforms[i];
        match u.kind {
            InternalKernelArgType::GlobalWorkOffsets => {
                st.base_global_invoc_id_loc = u.location;
            },
            InternalKernelArgType::WorkGroupOffsets => {
                st.base_workgroup_id_loc = u.location;
            },
            InternalKernelArgType::NumWorkgroups => {
                st.num_workgroups_loc = u.location;
            },
            InternalKernelArgType::ConstantBuffer => {
                st.const_buf_loc = u.location;
            },
            InternalKernelArgType::PrintfBuffer => {
                st.printf_buf_loc = u.location;
            },
            InternalKernelArgType::FormatArray => {
                st.format_arr_loc = u.location;
            },
            InternalKernelArgType::OrderArray => {
                st.order_arr_loc = u.location;
            },
            InternalKernelArgType::WorkDim => {
                st.work_dim_loc = u.location;
            },
            InternalKernelArgType::InlineSampler(_) => {},
        }
        i = i + 1;
    }
    st
}

} // verus!
