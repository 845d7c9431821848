//! The split of a grid that exceeds what one dispatch can take into
//! tiles that each fit.
//!
//! Along every axis the grid is cut into runs of the hardware maximum,
//! the last one shorter if the maximum does not divide the grid.  A
//! tile is named by its index along each axis; the workgroup ids that
//! a kernel sees inside it are offset by the tile's origin.

use crate::kernel::blob::{le32, le64};
use crate::kernel::math::{div_round_up, div_round_up_spec, lemma_div_round_up};
use vstd::prelude::*;

verus! {

/// One dispatch of a tiled launch: where its workgroups start in the
/// grid, and how many it has, by axis.
#[derive(Clone, Copy, Debug, PartialEq, Eq)]
pub struct SubDispatch {
    pub offsets: [usize; 3],
    pub grid: [u32; 3],
}

/// The origin along one axis of the tile with index `x`.
pub open spec fn tile_origin(hw_max: nat, x: nat) -> nat {
    x * hw_max
}

/// The extent along one axis of the tile with index `x`: the hardware
/// maximum, or what is left of the grid; nothing past the grid's end.
pub open spec fn tile_extent(grid: nat, hw_max: nat, x: nat) -> nat {
    if grid <= hw_max * x {
        0
    } else if hw_max <= grid - hw_max * x {
        hw_max
    } else {
        (grid - hw_max * x) as nat
    }
}

/// The number of tiles along one axis.
pub open spec fn tile_count(grid: nat, hw_max: nat) -> nat {
    div_round_up_spec(grid, hw_max)
}

/// The tile with index `x` holds position `p` of its axis.
pub open spec fn tile_holds(grid: nat, hw_max: nat, x: nat, p: nat) -> bool {
    tile_origin(hw_max, x) <= p < tile_origin(hw_max, x) + tile_extent(grid, hw_max, x)
}

/// The place of a tile in the order of dispatch: `x` runs fastest, then
/// `y`, then `z`.
pub open spec fn tile_rank(counts: Seq<usize>, idx: Seq<usize>) -> nat {
    (idx[0] + counts[0] * (idx[1] + counts[1] * idx[2])) as nat
}

/// The number of dispatches of a tiled launch.
pub open spec fn tile_total(counts: Seq<usize>) -> nat {
    (counts[0] * counts[1] * counts[2]) as nat
}

/// Every tile lies inside the grid and is not empty.
pub proof fn lemma_tile_inside(grid: nat, hw_max: nat, x: nat)
    requires
        hw_max >= 1,
        x < tile_count(grid, hw_max),
    ensures
        tile_extent(grid, hw_max, x) >= 1,
        tile_extent(grid, hw_max, x) <= hw_max,
        tile_origin(hw_max, x) + tile_extent(grid, hw_max, x) <= grid,
{
    lemma_div_round_up(grid, hw_max);
    let c = tile_count(grid, hw_max);
    assert(x * hw_max <= (c - 1) * hw_max) by (nonlinear_arith)
        requires
            x <= c - 1,
            hw_max >= 1,
    ;
    assert(hw_max * x == x * hw_max) by (nonlinear_arith);
}

/// Every position of the grid lies in the tile whose index is the
/// position divided by the hardware maximum.
pub proof fn lemma_tile_covers(grid: nat, hw_max: nat, p: nat)
    requires
        hw_max >= 1,
        p < grid,
    ensures
        p / hw_max < tile_count(grid, hw_max),
        tile_holds(grid, hw_max, p / hw_max, p),
{
    let x = p / hw_max;
    vstd::arithmetic::div_mod::lemma_fundamental_div_mod(p as int, hw_max as int);
    lemma_div_round_up(grid, hw_max);
    let c = tile_count(grid, hw_max);
    assert(hw_max * x == x * hw_max) by (nonlinear_arith);
    if x >= c {
        assert(x * hw_max >= c * hw_max) by (nonlinear_arith)
            requires
                x >= c,
                hw_max >= 1,
        ;
    }
}

/// No position lies in two tiles: a tile that holds a position is the
/// one whose index is the position divided by the hardware maximum.
pub proof fn lemma_tile_unique(grid: nat, hw_max: nat, x: nat, p: nat)
    requires
        hw_max >= 1,
        tile_holds(grid, hw_max, x, p),
    ensures
        x == p / hw_max,
{
    let r = (p - x * hw_max) as int;
    assert(hw_max * x == x * hw_max) by (nonlinear_arith);
    assert(0 <= r < hw_max);
    assert(p == hw_max * x + r) by (nonlinear_arith)
        requires
            r == p - x * hw_max,
    ;
    vstd::arithmetic::div_mod::lemma_fundamental_div_mod_converse(
        p as int,
        hw_max as int,
        x as int,
        r,
    );
}

/// The places of the tiles in the order of dispatch are the numbers
/// below the product of the tile counts, and no two tiles share a
/// place: a walk that starts at the first tile and takes every next
/// one makes as many dispatches as the product says.
pub proof fn lemma_tile_rank(counts: Seq<usize>, a: Seq<usize>, b: Seq<usize>)
    requires
        counts.len() == 3,
        a.len() == 3,
        b.len() == 3,
        forall|i: int| 0 <= i < 3 ==> (#[trigger] a[i]) < counts[i],
        forall|i: int| 0 <= i < 3 ==> (#[trigger] b[i]) < counts[i],
    ensures
        tile_rank(counts, a) < tile_total(counts),
        tile_rank(counts, a) == tile_rank(counts, b) ==> a =~= b,
        tile_rank(counts, seq![0usize, 0usize, 0usize]) == 0,
{
    let cx = counts[0] as int;
    let cy = counts[1] as int;
    let cz = counts[2] as int;
    assert(a[0] < counts[0] && a[1] < counts[1] && a[2] < counts[2]);
    assert(b[0] < counts[0] && b[1] < counts[1] && b[2] < counts[2]);
    let (ax, ay, az) = (a[0] as int, a[1] as int, a[2] as int);
    let (bx, by, bz) = (b[0] as int, b[1] as int, b[2] as int);
    assert(cy * az <= cy * (cz - 1)) by (nonlinear_arith)
        requires
            0 <= az <= cz - 1,
            cy >= 0,
    ;
    assert(cx * (ay + cy * az) <= cx * (cy - 1 + cy * (cz - 1))) by (nonlinear_arith)
        requires
            0 <= ay <= cy - 1,
            cy * az <= cy * (cz - 1),
            cx >= 0,
    ;
    assert(cx * (cy - 1 + cy * (cz - 1)) + cx == cx * cy * cz) by (nonlinear_arith);
    let origin = seq![0usize, 0usize, 0usize];
    assert(origin[0] == 0 && origin[1] == 0 && origin[2] == 0);
    assert(cy * 0 == 0 && cx * (0 + cy * 0) == 0) by (nonlinear_arith);
    if tile_rank(counts, a) == tile_rank(counts, b) {
        let p = ay + cy * az;
        let q = by + cy * bz;
        // the remainder of the rank by the first count is x, and so on by the second
        assert(ax + cx * p == bx + cx * q);
        assert(p == q && ax == bx) by (nonlinear_arith)
            requires
                ax + cx * p == bx + cx * q,
                0 <= ax < cx,
                0 <= bx < cx,
        ;
        assert(az == bz && ay == by) by (nonlinear_arith)
            requires
                ay + cy * az == by + cy * bz,
                0 <= ay < cy,
                0 <= by < cy,
        ;
    }
}

/// The most that one dispatch can take along each axis: what the
/// device reports, capped at 32 bits, the width of a dispatch's grid.
pub fn hw_max_grid(max_grid_size: &[u64; 3]) -> (r: [usize; 3])
    ensures
        forall|i: int|
            0 <= i < 3 ==> (#[trigger] r@[i]) == (if max_grid_size@[i] <= u32::MAX {
                max_grid_size@[i] as usize
            } else {
                u32::MAX as usize
            }),
{
    let mut r: [usize; 3] = [0, 0, 0];
    let mut i: usize = 0;
    while i < 3
        invariant
            i <= 3,
            forall|j: int|
                0 <= j < i ==> (#[trigger] r@[j]) == (if max_grid_size@[j] <= u32::MAX {
                    max_grid_size@[j] as usize
                } else {
                    u32::MAX as usize
                }),
        decreases 3 - i,
    {
        let v: u64 = max_grid_size[i];
        // clamped as a dispatch's grid is only 32 bits wide
        r[i] = if v <= u32::MAX as u64 {
            v as usize
        } else {
            u32::MAX as usize
        };
        i = i + 1;
    }
    r
}

/// The number of tiles along each axis.
pub fn tile_counts(grid: &[usize; 3], hw_max: &[usize; 3]) -> (counts: [usize; 3])
    requires
        forall|i: int| 0 <= i < 3 ==> (#[trigger] hw_max@[i]) >= 1,
    ensures
        forall|i: int|
            0 <= i < 3 ==> (#[trigger] counts@[i]) == tile_count(
                grid@[i] as nat,
                hw_max@[i] as nat,
            ),
{
    [
        div_round_up(grid[0], hw_max[0]),
        div_round_up(grid[1], hw_max[1]),
        div_round_up(grid[2], hw_max[2]),
    ]
}

/// The dispatch of the tile with the given index along each axis.
pub fn sub_dispatch(grid: &[usize; 3], hw_max: &[usize; 3], idx: &[usize; 3]) -> (d: SubDispatch)
    requires
        forall|i: int| 0 <= i < 3 ==> 1 <= (#[trigger] hw_max@[i]) <= u32::MAX,
        forall|i: int|
            0 <= i < 3 ==> (#[trigger] idx@[i]) < tile_count(grid@[i] as nat, hw_max@[i] as nat),
    ensures
        forall|i: int|
            0 <= i < 3 ==> (#[trigger] d.offsets@[i]) == tile_origin(
                hw_max@[i] as nat,
                idx@[i] as nat,
            ),
        forall|i: int|
            0 <= i < 3 ==> (#[trigger] d.grid@[i]) == tile_extent(
                grid@[i] as nat,
                hw_max@[i] as nat,
                idx@[i] as nat,
            ),
{
    let mut offsets: [usize; 3] = [0, 0, 0];
    let mut this_grid: [u32; 3] = [0, 0, 0];
    let mut i: usize = 0;
    while i < 3
        invariant
            i <= 3,
            forall|j: int| 0 <= j < 3 ==> 1 <= (#[trigger] hw_max@[j]) <= u32::MAX,
            forall|j: int|
                0 <= j < 3 ==> (#[trigger] idx@[j]) < tile_count(
                    grid@[j] as nat,
                    hw_max@[j] as nat,
                ),
            forall|j: int|
                0 <= j < i ==> (#[trigger] offsets@[j]) == tile_origin(
                    hw_max@[j] as nat,
                    idx@[j] as nat,
                ),
            forall|j: int|
                0 <= j < i ==> (#[trigger] this_grid@[j]) == tile_extent(
                    grid@[j] as nat,
                    hw_max@[j] as nat,
                    idx@[j] as nat,
                ),
        decreases 3 - i,
    {
        proof {
            assert(idx@[i as int] < tile_count(grid@[i as int] as nat, hw_max@[i as int] as nat));
            lemma_tile_inside(grid@[i as int] as nat, hw_max@[i as int] as nat, idx@[i as int] as nat);
            assert(hw_max@[i as int] * idx@[i as int] == idx@[i as int] * hw_max@[i as int])
                by (nonlinear_arith);
        }
        let origin: usize = idx[i] * hw_max[i];
        let left: usize = grid[i] - origin;
        offsets[i] = origin;
        this_grid[i] = if hw_max[i] <= left {
            hw_max[i] as u32
        } else {
            left as u32
        };
        i = i + 1;
    }
    SubDispatch { offsets, grid: this_grid }
}

/// The tile that is dispatched first, if the launch has any dispatch
/// at all: the one with index 0 along every axis.
pub fn first_tile(counts: &[usize; 3]) -> (r: Option<[usize; 3]>)
    ensures
        r is Some <==> tile_total(counts@) > 0,
        r matches Some(n) ==> n@ == seq![0usize, 0usize, 0usize] && (forall|i: int|
            0 <= i < 3 ==> (#[trigger] n@[i]) < counts@[i]) && tile_rank(counts@, n@) == 0,
{
    proof {
        let cx = counts@[0] as int;
        let cy = counts@[1] as int;
        let cz = counts@[2] as int;
        assert((cx > 0 && cy > 0 && cz > 0) <==> cx * cy * cz > 0) by (nonlinear_arith)
            requires
                cx >= 0,
                cy >= 0,
                cz >= 0,
        ;
        assert(cx * (0 + cy * 0) == 0) by (nonlinear_arith);
    }
    if counts[0] > 0 && counts[1] > 0 && counts[2] > 0 {
        let first: [usize; 3] = [0, 0, 0];
        assert(first@ =~= seq![0usize, 0usize, 0usize]);
        Some(first)
    } else {
        None
    }
}

/// The tile that is dispatched after the one with index `idx`, if
/// there is one: `x` runs fastest, then `y`, then `z`.
pub fn next_tile(counts: &[usize; 3], idx: &[usize; 3]) -> (r: Option<[usize; 3]>)
    requires
        forall|i: int| 0 <= i < 3 ==> (#[trigger] idx@[i]) < counts@[i],
    ensures
        match r {
            Some(n) => (forall|i: int| 0 <= i < 3 ==> (#[trigger] n@[i]) < counts@[i])
                && tile_rank(counts@, n@) == tile_rank(counts@, idx@) + 1,
            None => tile_rank(counts@, idx@) + 1 == tile_total(counts@),
        },
{
    proof {
        let cx = counts@[0] as int;
        let cy = counts@[1] as int;
        let cz = counts@[2] as int;
        let x = idx@[0] as int;
        let y = idx@[1] as int;
        let z = idx@[2] as int;
        assert(idx@[0] < counts@[0] && idx@[1] < counts@[1] && idx@[2] < counts@[2]);
        assert(cx * (y + 1 + cy * z) == cx * (y + cy * z) + cx) by (nonlinear_arith);
        assert(cx * (cy * (z + 1)) == cx * (cy - 1 + cy * z) + cx) by (nonlinear_arith);
        assert(cx * cy * cz == cx * (cy * cz)) by (nonlinear_arith);
        assert(cx * (cy - 1 + cy * (cz - 1)) + cx == cx * (cy * cz)) by (nonlinear_arith);
    }
    if idx[0] + 1 < counts[0] {
        Some([idx[0] + 1, idx[1], idx[2]])
    } else if idx[1] + 1 < counts[1] {
        Some([0, idx[1] + 1, idx[2]])
    } else if idx[2] + 1 < counts[2] {
        Some([0, 0, idx[2] + 1])
    } else {
        None
    }
}

/// The bytes of three offsets as the kernel reads them: 64-bit words on
/// a device with 64-bit addresses, else the low 32 bits of each.
pub open spec fn offsets_bytes(offsets: Seq<usize>, address_bits: u32) -> Seq<u8> {
    if address_bits == 64 {
        le64(offsets[0] as u64) + le64(offsets[1] as u64) + le64(offsets[2] as u64)
    } else {
        le32(((offsets[0] as u64) % 0x1_0000_0000) as u32) + le32(((offsets[1] as u64) % 0x1_0000_0000) as u32)
            + le32(((offsets[2] as u64) % 0x1_0000_0000) as u32)
    }
}

/// `s` with the bytes from `loc` on replaced by `bytes`.
pub open spec fn patched(s: Seq<u8>, loc: int, bytes: Seq<u8>) -> Seq<u8> {
    Seq::new(
        s.len(),
        |i: int|
            if loc <= i < loc + bytes.len() {
                bytes[i - loc]
            } else {
                s[i]
            },
    )
}

/// Appends the 8 bytes of a 64-bit word.
pub fn push_le64(out: &mut Vec<u8>, v: u64)
    ensures
        final(out)@ == old(out)@ + le64(v),
{
    let lo: u32 = (v % 0x1_0000_0000) as u32;
    let hi: u32 = (v / 0x1_0000_0000) as u32;
    push_le32(out, lo);
    push_le32(out, hi);
    assert(out@ =~= old(out)@ + le64(v));
}

/// Appends the 4 bytes of a 32-bit word.
pub fn push_le32(out: &mut Vec<u8>, v: u32)
    ensures
        final(out)@ == old(out)@ + le32(v),
{
    out.push((v % 256) as u8);
    out.push(((v / 256) % 256) as u8);
    out.push(((v / 65536) % 256) as u8);
    out.push((v / 16777216) as u8);
    assert(out@ =~= old(out)@ + le32(v));
}

/// Appends three offsets in the width of the device's addresses.
pub fn push_offsets(out: &mut Vec<u8>, offsets: &[usize; 3], address_bits: u32)
    ensures
        final(out)@ == old(out)@ + offsets_bytes(offsets@, address_bits),
        offsets_bytes(offsets@, address_bits).len() == (if address_bits == 64 {
            24int
        } else {
            12int
        }),
{
    if address_bits == 64 {
        push_le64(out, offsets[0] as u64);
        push_le64(out, offsets[1] as u64);
        push_le64(out, offsets[2] as u64);
    } else {
        push_le32(out, ((offsets[0] as u64) % 0x1_0000_0000) as u32);
        push_le32(out, ((offsets[1] as u64) % 0x1_0000_0000) as u32);
        push_le32(out, ((offsets[2] as u64) % 0x1_0000_0000) as u32);
    }
    assert(out@ =~= old(out)@ + offsets_bytes(offsets@, address_bits));
}

/// Writes the origin of a tile over the workgroup offsets in the input
/// buffer, which lie at `loc`.  This is done before each dispatch of a
/// tiled launch, so that the kernel sees workgroup ids that are
/// consistent over the whole grid.
pub fn write_workgroup_offsets(
    input: &mut Vec<u8>,
    loc: usize,
    offsets: &[usize; 3],
    address_bits: u32,
)
    requires
        loc + offsets_bytes(offsets@, address_bits).len() <= old(input)@.len(),
    ensures
        final(input)@ == patched(old(input)@, loc as int, offsets_bytes(offsets@, address_bits)),
{
    let mut bytes: Vec<u8> = Vec::new();
    push_offsets(&mut bytes, offsets, address_bits);
    let n: usize = bytes.len();
    let total: usize = input.len();
    let mut i: usize = 0;
    while i < n
        invariant
            i <= n,
            n == bytes@.len(),
            total == input@.len(),
            bytes@ == offsets_bytes(offsets@, address_bits),
            loc + n <= input@.len(),
            input@.len() == old(input)@.len(),
            forall|j: int| 0 <= j < input@.len() ==> (#[trigger] input@[j]) == (if loc <= j < loc + i {
                bytes@[j - loc]
            } else {
                old(input)@[j]
            }),
        decreases n - i,
    {
        input[loc + i] = bytes[i];
        i = i + 1;
    }
    assert(input@ =~= patched(old(input)@, loc as int, offsets_bytes(offsets@, address_bits)));
}

} // verus!
