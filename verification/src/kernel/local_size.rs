//! The choice of a workgroup shape where the caller leaves it open.
//!
//! The choice is a greedy heuristic, not an optimal packing: dimension
//! by dimension, the block takes the greatest common divisor of the
//! threads that are left and the grid, so that it always divides the
//! grid, and its volume always divides the device's limit.

use crate::kernel::math::{
    gcd, gcd_spec, lemma_divides_trans, lemma_divisor_le, lemma_gcd_divides, lemma_gcd_le_first,
};
use vstd::prelude::*;

verus! {

/// The status that says a value does not fit what the device takes.
pub const CL_OUT_OF_RESOURCES: i32 = -5;

/// Where the heuristic stands: the threads that the block may still
/// take, the threads that it has, and grid and block by dimension.
pub struct Shape {
    pub threads: nat,
    pub total: nat,
    pub grid: Seq<usize>,
    pub block: Seq<usize>,
}

/// The block of one dimension: the gcd of the threads that are left
/// and the grid; where that exceeds the device's limit `cap` for the
/// dimension, its gcd with the limit.  It divides both the threads
/// and the grid.
pub open spec fn dim_block(threads: nat, cap: nat, grid: nat) -> nat {
    let g = gcd_spec(threads, grid);
    if g <= cap {
        g
    } else {
        gcd_spec(g, cap)
    }
}

/// The shape after the first `k` dimensions are assigned greedily: the
/// block of a dimension is `dim_block` of the threads left and its
/// grid; the grid is divided by the block, and so are the threads
/// that are left.
pub open spec fn greedy(threads: nat, dims: Seq<usize>, grid: Seq<usize>, block: Seq<usize>, k: nat) -> Shape
    decreases k,
{
    if k == 0 {
        Shape { threads, total: 1, grid, block }
    } else {
        let p = greedy(threads, dims, grid, block, (k - 1) as nat);
        let b = dim_block(p.threads, dims[k - 1] as nat, p.grid[k - 1] as nat);
        Shape {
            threads: p.threads / b,
            total: p.total * b,
            grid: p.grid.update(k - 1, (p.grid[k - 1] as nat / b) as usize),
            block: p.block.update(k - 1, b as usize),
        }
    }
}

/// The whole grid of dimension `i` can join the block: with it the
/// block stays below the threads that are left, and it divides them.
pub open spec fn can_fold(s: Shape, i: int) -> bool {
    &&& s.grid[i] * s.total < s.threads
    &&& s.grid[i] > 0
    &&& s.threads % (s.grid[i] as nat) == 0
}

/// The shape after the first dimension from `i` on that can be folded
/// is folded into the block; the shape itself if there is none.
pub open spec fn fold_one(s: Shape, i: nat, work_dim: nat) -> Shape
    decreases work_dim - i,
{
    if i >= work_dim {
        s
    } else if can_fold(s, i as int) {
        Shape {
            threads: s.threads,
            total: s.total,
            grid: s.grid.update(i as int, 1),
            block: s.block.update(i as int, (s.block[i as int] * s.grid[i as int]) as usize),
        }
    } else {
        fold_one(s, i + 1, work_dim)
    }
}

/// The suggested shape: the greedy one, with one dimension folded into
/// the block if threads are left and the block does not fill a
/// subgroup.
pub open spec fn suggested(
    threads: nat,
    dims: Seq<usize>,
    subgroups: nat,
    work_dim: nat,
    grid: Seq<usize>,
    block: Seq<usize>,
) -> Shape {
    let g = greedy(threads, dims, grid, block, work_dim);
    if g.threads != 1 && g.total < subgroups {
        fold_one(g, 0, work_dim)
    } else {
        g
    }
}

/// The product of the first `k` entries.
pub open spec fn product(s: Seq<usize>, k: nat) -> nat
    decreases k,
{
    if k == 0 {
        1
    } else {
        product(s, (k - 1) as nat) * (s[k - 1] as nat)
    }
}

/// What holds of a shape that the heuristic passes through, `k`
/// dimensions in: block times grid is the requested grid, and the
/// block's threads times the threads left are the limit.
pub open spec fn shape_ok(s: Shape, threads: nat, grid: Seq<usize>, block: Seq<usize>, k: nat) -> bool {
    &&& s.grid.len() == grid.len()
    &&& s.block.len() == block.len()
    &&& s.threads >= 1
    &&& s.total >= 1
    &&& s.total * s.threads == threads
    &&& s.total == product(s.block, k)
    &&& forall|i: int|
        0 <= i < k ==> (#[trigger] s.block[i]) * s.grid[i] == grid[i] && 1 <= s.block[i] <= s.total
    &&& forall|i: int| k <= i < grid.len() ==> s.grid[i] == grid[i]
    &&& forall|i: int| k <= i < block.len() ==> s.block[i] == block[i]
}

/// What the heuristic owes: in the first `work_dim` dimensions block
/// times grid is the requested grid, the other dimensions are as they
/// were, and the block's volume divides the device's limit.
pub open spec fn shape_sound(s: Shape, threads: nat, grid: Seq<usize>, block: Seq<usize>, work_dim: nat) -> bool {
    &&& s.grid.len() == grid.len()
    &&& s.block.len() == block.len()
    &&& forall|j: int| 0 <= j < work_dim ==> (#[trigger] s.block[j]) * s.grid[j] == grid[j]
    &&& forall|j: int| 0 <= j < work_dim ==> 1 <= (#[trigger] s.block[j]) <= threads
    &&& forall|j: int| work_dim <= j < grid.len() ==> s.grid[j] == grid[j] && s.block[j] == block[j]
    &&& 1 <= product(s.block, work_dim) <= threads
    &&& threads % product(s.block, work_dim) == 0
}

/// The product of a prefix does not change when a later entry does.
pub proof fn lemma_product_update_later(s: Seq<usize>, k: nat, i: int, v: usize)
    requires
        k <= i < s.len(),
    ensures
        product(s.update(i, v), k) == product(s, k),
    decreases k,
{
    if k > 0 {
        lemma_product_update_later(s, (k - 1) as nat, i, v);
    }
}

/// The product of a prefix after one of its entries is scaled.
pub proof fn lemma_product_update_scaled(s: Seq<usize>, k: nat, i: int, m: nat)
    requires
        0 <= i < k <= s.len(),
        s[i] * m <= usize::MAX,
    ensures
        product(s.update(i, (s[i] * m) as usize), k) == product(s, k) * m,
    decreases k,
{
    let t = s.update(i, (s[i] * m) as usize);
    if i == k - 1 {
        lemma_product_update_later(s, (k - 1) as nat, i, (s[i] * m) as usize);
        assert(product(s, (k - 1) as nat) * (s[i] * m) == product(s, (k - 1) as nat) * s[i] as nat
            * m) by (nonlinear_arith);
    } else {
        lemma_product_update_scaled(s, (k - 1) as nat, i, m);
        assert(product(s, (k - 1) as nat) * m * (s[k - 1] as nat) == product(s, (k - 1) as nat) * (
        s[k - 1] as nat) * m) by (nonlinear_arith);
    }
}

/// The block of a dimension divides the threads that are left and the
/// grid, and keeps to the device's limit for the dimension.
pub proof fn lemma_dim_block(threads: nat, cap: nat, grid: nat)
    requires
        threads >= 1,
        cap >= 1,
    ensures
        1 <= dim_block(threads, cap, grid) <= threads,
        dim_block(threads, cap, grid) <= cap,
        threads % dim_block(threads, cap, grid) == 0,
        grid % dim_block(threads, cap, grid) == 0,
{
    let g = gcd_spec(threads, grid);
    lemma_gcd_divides(threads, grid);
    lemma_gcd_le_first(threads, grid);
    if g > cap {
        let b = gcd_spec(g, cap);
        lemma_gcd_divides(g, cap);
        lemma_gcd_le_first(g, cap);
        lemma_divisor_le(b, cap);
        lemma_divides_trans(b, g, threads);
        lemma_divides_trans(b, g, grid);
    }
}

/// A limit that is a block's volume times the threads left is a
/// multiple of the volume.
pub proof fn lemma_volume_divides(total: nat, left: nat, threads: nat)
    requires
        total >= 1,
        left >= 1,
        total * left == threads,
    ensures
        total <= threads,
        threads % total == 0,
{
    vstd::arithmetic::div_mod::lemma_mod_multiples_basic(left as int, total as int);
    assert(left * total == total * left) by (nonlinear_arith);
    assert(total <= total * left) by (nonlinear_arith)
        requires
            total >= 1,
            left >= 1,
    ;
}

/// Every greedy step keeps the shape sound.
pub proof fn lemma_greedy_ok(threads: nat, dims: Seq<usize>, grid: Seq<usize>, block: Seq<usize>, k: nat)
    requires
        threads >= 1,
        threads <= usize::MAX,
        k <= grid.len(),
        grid.len() == block.len(),
        k <= dims.len(),
        forall|i: int| 0 <= i < k ==> dims[i] >= 1,
    ensures
        shape_ok(greedy(threads, dims, grid, block, k), threads, grid, block, k),
        forall|i: int|
            0 <= i < k ==> (#[trigger] greedy(threads, dims, grid, block, k).block[i]) <= dims[i],
    decreases k,
{
    if k > 0 {
        let p = greedy(threads, dims, grid, block, (k - 1) as nat);
        lemma_greedy_ok(threads, dims, grid, block, (k - 1) as nat);
        let g = p.grid[k - 1] as nat;
        let b = dim_block(p.threads, dims[k - 1] as nat, g);
        lemma_dim_block(p.threads, dims[k - 1] as nat, g);
        let s = greedy(threads, dims, grid, block, k);
        vstd::arithmetic::div_mod::lemma_fundamental_div_mod(g as int, b as int);
        vstd::arithmetic::div_mod::lemma_fundamental_div_mod(p.threads as int, b as int);
        let q = p.threads / b;
        assert(q >= 1) by (nonlinear_arith)
            requires
                p.threads == b * q,
                p.threads >= 1,
                b >= 1,
                q >= 0,
        ;
        assert((p.total * b) * q == threads) by (nonlinear_arith)
            requires
                p.total * p.threads == threads,
                p.threads == b * q,
        ;
        assert(p.total * b >= 1) by (nonlinear_arith)
            requires
                p.total >= 1,
                b >= 1,
        ;
        assert(b * (g / b) == g);
        assert(b <= usize::MAX);
        lemma_product_update_later(p.block, (k - 1) as nat, k - 1, b as usize);
        assert(s.total == product(s.block, k));
        assert(p.total * b >= b && p.total * b >= p.total) by (nonlinear_arith)
            requires
                p.total >= 1,
                b >= 1,
        ;
        assert forall|i: int| 0 <= i < k implies (#[trigger] s.block[i]) * s.grid[i] == grid[i]
            && 1 <= s.block[i] <= s.total by {
            if i == k - 1 {
            } else {
                assert(p.block[i] * p.grid[i] == grid[i]);
            }
        }
        assert forall|i: int| 0 <= i < k implies (#[trigger] s.block[i]) <= dims[i] by {
            if i == k - 1 {
            } else {
                assert(p.block[i] <= dims[i]);
            }
        }
    }
}

/// A shape that the greedy steps reach owes nothing more.
pub proof fn lemma_ok_is_sound(s: Shape, threads: nat, grid: Seq<usize>, block: Seq<usize>, work_dim: nat)
    requires
        shape_ok(s, threads, grid, block, work_dim),
        work_dim <= grid.len(),
        grid.len() == block.len(),
    ensures
        shape_sound(s, threads, grid, block, work_dim),
{
    lemma_volume_divides(s.total, s.threads, threads);
    assert forall|j: int| 0 <= j < work_dim implies 1 <= (#[trigger] s.block[j]) <= threads by {
        assert(s.block[j] * s.grid[j] == grid[j] && 1 <= s.block[j] <= s.total);
    }
}

/// Folding a dimension keeps block times grid, and the block's volume
/// still divides the limit.
pub proof fn lemma_fold_ok(s: Shape, threads: nat, grid: Seq<usize>, block: Seq<usize>, i: nat, work_dim: nat)
    requires
        shape_ok(s, threads, grid, block, work_dim),
        work_dim <= grid.len(),
        grid.len() == block.len(),
        threads <= usize::MAX,
    ensures
        shape_sound(fold_one(s, i, work_dim), threads, grid, block, work_dim),
    decreases work_dim - i,
{
    lemma_ok_is_sound(s, threads, grid, block, work_dim);
    if i >= work_dim {
    } else if can_fold(s, i as int) {
        let f = fold_one(s, i, work_dim);
        let g = s.grid[i as int] as nat;
        assert(s.block[i as int] * s.grid[i as int] == grid[i as int] && 1 <= s.block[i as int]
            <= s.total);
        lemma_product_update_scaled(s.block, work_dim, i as int, g);
        // the threads left are the folded grid times a rest
        vstd::arithmetic::div_mod::lemma_fundamental_div_mod(s.threads as int, g as int);
        let rest = s.threads / g;
        assert(rest >= 1) by (nonlinear_arith)
            requires
                s.threads == g * rest,
                s.threads >= 1,
                g >= 1,
                rest >= 0,
        ;
        assert((s.total * g) * rest == threads) by (nonlinear_arith)
            requires
                s.total * s.threads == threads,
                s.threads == g * rest,
        ;
        assert(s.total * g >= 1) by (nonlinear_arith)
            requires
                s.total >= 1,
                g >= 1,
        ;
        lemma_volume_divides(s.total * g, rest, threads);
        assert(product(f.block, work_dim) == s.total * g);
        assert forall|j: int| 0 <= j < work_dim implies (#[trigger] f.block[j]) * f.grid[j]
            == grid[j] by {
            if j == i {
            } else {
                assert(s.block[j] * s.grid[j] == grid[j]);
            }
        }
        assert(s.block[i as int] * g <= s.total * g) by (nonlinear_arith)
            requires
                s.block[i as int] <= s.total,
                g >= 0,
        ;
        assert(s.block[i as int] * g >= 1) by (nonlinear_arith)
            requires
                s.block[i as int] >= 1,
                g >= 1,
        ;
        assert forall|j: int| 0 <= j < work_dim implies 1 <= (#[trigger] f.block[j]) <= threads by {
            if j == i {
            } else {
                assert(s.block[j] * s.grid[j] == grid[j] && 1 <= s.block[j] <= s.total);
            }
        }
    } else {
        lemma_fold_ok(s, threads, grid, block, i + 1, work_dim);
    }
}

/// The law of the heuristic: in every dimension the suggested block
/// times the remaining grid is the requested grid, so the block divides
/// it; and the block's volume divides the device's limit, so it does
/// not exceed it.
pub proof fn lemma_suggested_ok(
    threads: nat,
    dims: Seq<usize>,
    subgroups: nat,
    work_dim: nat,
    grid: Seq<usize>,
    block: Seq<usize>,
)
    requires
        threads >= 1,
        threads <= usize::MAX,
        work_dim <= grid.len(),
        grid.len() == block.len(),
        work_dim <= dims.len(),
        forall|i: int| 0 <= i < work_dim ==> dims[i] >= 1,
    ensures
        shape_sound(
            suggested(threads, dims, subgroups, work_dim, grid, block),
            threads,
            grid,
            block,
            work_dim,
        ),
{
    let g = greedy(threads, dims, grid, block, work_dim);
    lemma_greedy_ok(threads, dims, grid, block, work_dim);
    lemma_fold_ok(g, threads, grid, block, 0, work_dim);
    lemma_ok_is_sound(g, threads, grid, block, work_dim);
}

/// Suggests a workgroup shape for a grid: on return `block` holds the
/// shape and `grid` the number of workgroups, in the first `work_dim`
/// dimensions.  Each block divides its grid, and the block's volume
/// divides `max_threads`.
pub fn suggest_local_size_for(
    max_threads: usize,
    dim_threads: &[usize; 3],
    subgroups: usize,
    work_dim: usize,
    grid: &mut [usize; 3],
    block: &mut [usize; 3],
)
    requires
        work_dim <= 3,
        max_threads >= 1,
        forall|i: int| 0 <= i < work_dim ==> dim_threads@[i] >= 1,
    ensures
        final(grid)@ == suggested(
            max_threads as nat,
            dim_threads@,
            subgroups as nat,
            work_dim as nat,
            old(grid)@,
            old(block)@,
        ).grid,
        final(block)@ == suggested(
            max_threads as nat,
            dim_threads@,
            subgroups as nat,
            work_dim as nat,
            old(grid)@,
            old(block)@,
        ).block,
        forall|j: int|
            0 <= j < work_dim ==> (#[trigger] final(block)@[j]) * final(grid)@[j] == old(grid)@[j],
        forall|j: int| 0 <= j < work_dim ==> 1 <= (#[trigger] final(block)@[j]) <= max_threads,
        1 <= product(final(block)@, work_dim as nat) <= max_threads,
        max_threads as nat % product(final(block)@, work_dim as nat) == 0,
{
    let ghost grid0 = grid@;
    let ghost block0 = block@;
    let mut threads: usize = max_threads;
    let mut total_threads: usize = 1;
    let mut i: usize = 0;
    while i < work_dim
        invariant
            i <= work_dim <= 3,
            max_threads >= 1,
            forall|j: int| 0 <= j < work_dim ==> dim_threads@[j] >= 1,
            greedy(max_threads as nat, dim_threads@, grid0, block0, i as nat) == (Shape {
                threads: threads as nat,
                total: total_threads as nat,
                grid: grid@,
                block: block@,
            }),
            grid0.len() == 3,
            block0.len() == 3,
        decreases work_dim - i,
    {
        proof {
            lemma_greedy_ok(max_threads as nat, dim_threads@, grid0, block0, i as nat);
            lemma_greedy_ok(max_threads as nat, dim_threads@, grid0, block0, (i + 1) as nat);
            lemma_dim_block(threads as nat, dim_threads@[i as int] as nat, grid@[i as int] as nat);
        }
        let mut b: usize = gcd(threads, grid[i]);
        if b > dim_threads[i] {
            b = gcd(b, dim_threads[i]);
        }
        proof {
            let next = greedy(max_threads as nat, dim_threads@, grid0, block0, (i + 1) as nat);
            assert(next.total == total_threads * b);
            lemma_volume_divides(next.total, next.threads, max_threads as nat);
        }
        block[i] = b;
        grid[i] = grid[i] / b;
        // update limits
        threads = threads / b;
        total_threads = total_threads * b;
        i = i + 1;
    }
    let ghost sug = suggested(
        max_threads as nat,
        dim_threads@,
        subgroups as nat,
        work_dim as nat,
        grid0,
        block0,
    );
    proof {
        lemma_greedy_ok(max_threads as nat, dim_threads@, grid0, block0, work_dim as nat);
        lemma_suggested_ok(
            max_threads as nat,
            dim_threads@,
            subgroups as nat,
            work_dim as nat,
            grid0,
            block0,
        );
    }
    // if we didn't fill the subgroup we can do a bit better if we have threads remaining
    if threads != 1 && total_threads < subgroups {
        let ghost shape = Shape {
            threads: threads as nat,
            total: total_threads as nat,
            grid: grid@,
            block: block@,
        };
        let mut i: usize = 0;
        while i < work_dim
            invariant
                i <= work_dim <= 3,
                shape == (Shape {
                    threads: threads as nat,
                    total: total_threads as nat,
                    grid: grid@,
                    block: block@,
                }),
                shape_ok(shape, max_threads as nat, grid0, block0, work_dim as nat),
                grid0.len() == 3,
                block0.len() == 3,
                grid0 == old(grid)@,
                block0 == old(block)@,
                sug == suggested(
                    max_threads as nat,
                    dim_threads@,
                    subgroups as nat,
                    work_dim as nat,
                    grid0,
                    block0,
                ),
                sug == fold_one(shape, i as nat, work_dim as nat),
                shape_sound(sug, max_threads as nat, grid0, block0, work_dim as nat),
            decreases work_dim - i,
        {
            let g: usize = grid[i];
            let fits: bool = match g.checked_mul(total_threads) {
                Some(p) => p < threads,
                None => false,
            };
            if fits && g > 0 && threads % g == 0 {
                proof {
                    assert(block@[i as int] * grid@[i as int] == grid0[i as int]);
                }
                block[i] = block[i] * g;
                grid[i] = 1;
                // only once: the volume has to go on dividing the limit
                return ;
            }
            i = i + 1;
        }
    }
}

/// The values of a launch by dimension, as the device takes them: the
/// given ones, and `val` where none is given.
pub open spec fn kernel_arr_u32(vals: Seq<usize>, val: u32) -> Seq<u32> {
    Seq::new(
        3,
        |i: int|
            if i < vals.len() {
                vals[i] as u32
            } else {
                val
            },
    )
}

pub open spec fn kernel_arr(vals: Seq<usize>, val: usize) -> Seq<usize> {
    Seq::new(
        3,
        |i: int|
            if i < vals.len() {
                vals[i]
            } else {
                val
            },
    )
}

/// Spreads up to three values over three dimensions as 32-bit values,
/// filling with `val`.  A value that does not fit 32 bits is refused
/// as out of resources.
pub fn create_kernel_arr_u32(vals: &[usize], val: u32) -> (r: Result<[u32; 3], i32>)
    requires
        vals@.len() <= 3,
    ensures
        match r {
            Ok(res) => res@ == kernel_arr_u32(vals@, val) && forall|i: int|
                0 <= i < vals@.len() ==> vals@[i] <= u32::MAX,
            Err(e) => e == CL_OUT_OF_RESOURCES && exists|i: int|
                0 <= i < vals@.len() && vals@[i] > u32::MAX,
        },
{
    let mut res: [u32; 3] = [val, val, val];
    let mut i: usize = 0;
    while i < vals.len()
        invariant
            i <= vals@.len() <= 3,
            forall|j: int| 0 <= j < i ==> vals@[j] <= u32::MAX && res@[j] as int == vals@[j] as int,
            forall|j: int| i <= j < 3 ==> res@[j] == val,
        decreases vals@.len() - i,
    {
        let v: usize = vals[i];
        if v > u32::MAX as usize {
            return Err(CL_OUT_OF_RESOURCES);
        }
        res[i] = v as u32;
        i = i + 1;
    }
    assert(res@ =~= kernel_arr_u32(vals@, val));
    Ok(res)
}

/// Spreads up to three values over three dimensions, filling with
/// `val`.
pub fn create_kernel_arr(vals: &[usize], val: usize) -> (r: Result<[usize; 3], i32>)
    requires
        vals@.len() <= 3,
    ensures
        r matches Ok(res) && res@ == kernel_arr(vals@, val),
{
    let mut res: [usize; 3] = [val, val, val];
    let mut i: usize = 0;
    while i < vals.len()
        invariant
            i <= vals@.len() <= 3,
            forall|j: int| 0 <= j < i ==> res@[j] == vals@[j],
            forall|j: int| i <= j < 3 ==> res@[j] == val,
        decreases vals@.len() - i,
    {
        res[i] = vals[i];
        i = i + 1;
    }
    assert(res@ =~= kernel_arr(vals@, val));
    Ok(res)
}

} // verus!
