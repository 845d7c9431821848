//! Four-dimensional image extents and offsets, and the unit conversions
//! between pixels, samples, format elements, bytes, GOBs and tiles.

use vstd::prelude::*;

verus! {

/// Width of a GOB (group of bytes) in bytes.
pub const GOB_WIDTH_B: u32 = 64;

/// Depth of a GOB.
pub const GOB_DEPTH: u32 = 1;

/// Largest tile exponent for which every tile dimension still fits in `u32`.
pub const MAX_TILE_LOG2: u8 = 24;

pub open spec fn gob_height_spec(gob_height_is_8: bool) -> u32 {
    if gob_height_is_8 {
        8
    } else {
        4
    }
}

/// Height of a GOB in rows: 8 on hardware with the tall layout, else 4.
pub fn gob_height(gob_height_is_8: bool) -> (h: u32)
    ensures
        h == gob_height_spec(gob_height_is_8),
{
    if gob_height_is_8 {
        8
    } else {
        4
    }
}

/// The quotient `x / y` rounded up.
pub open spec fn div_ceil_spec(x: int, y: int) -> int
    recommends
        y > 0,
{
    if x % y == 0 {
        x / y
    } else {
        x / y + 1
    }
}

/// The smallest multiple of `a` that is not below `x`.
pub open spec fn next_multiple_spec(x: int, a: int) -> int
    recommends
        a > 0,
{
    if x % a == 0 {
        x
    } else {
        x + (a - x % a)
    }
}

/// `max(1, x >> level)`: the size of one dimension at a mip level.
pub open spec fn minify_spec(x: u32, level: u32) -> u32 {
    if (x >> level) >= 1 {
        x >> level
    } else {
        1
    }
}

/// `div_ceil_spec(x, y)` is the least `q` with `q * y >= x`.
pub proof fn lemma_div_ceil_is_least(x: int, y: int)
    requires
        x >= 0,
        y > 0,
    ensures
        div_ceil_spec(x, y) >= 0,
        div_ceil_spec(x, y) * y >= x,
        (div_ceil_spec(x, y) - 1) * y < x || x == 0,
        div_ceil_spec(x, y) <= x,
{
    let q = x / y;
    let r = x % y;
    assert(x == q * y + r && 0 <= r < y) by {
        vstd::arithmetic::div_mod::lemma_fundamental_div_mod(x, y);
        vstd::arithmetic::div_mod::lemma_mod_bound(x, y);
        assert(y * q == q * y) by (nonlinear_arith);
    }
    assert(q >= 0) by (nonlinear_arith)
        requires
            x == q * y + r,
            0 <= r < y,
            x >= 0,
            y > 0,
    ;
    assert((q + 1) * y == q * y + y) by (nonlinear_arith);
    assert((q - 1) * y == q * y - y) by (nonlinear_arith);
    assert(q <= q * y) by (nonlinear_arith)
        requires
            q >= 0,
            y >= 1,
    ;
}

/// `next_multiple_spec(x, a)` is a multiple of `a`, is not below `x`, and
/// exceeds it by less than `a`.
pub proof fn lemma_next_multiple_is_least(x: int, a: int)
    requires
        x >= 0,
        a > 0,
    ensures
        next_multiple_spec(x, a) % a == 0,
        x <= next_multiple_spec(x, a) < x + a,
        next_multiple_spec(x, a) == div_ceil_spec(x, a) * a,
{
    let q = x / a;
    let r = x % a;
    assert(x == q * a + r && 0 <= r < a) by {
        vstd::arithmetic::div_mod::lemma_fundamental_div_mod(x, a);
        vstd::arithmetic::div_mod::lemma_mod_bound(x, a);
        assert(a * q == q * a) by (nonlinear_arith);
    }
    if r != 0 {
        assert((q + 1) * a == q * a + a) by (nonlinear_arith);
        assert(next_multiple_spec(x, a) == (q + 1) * a);
        vstd::arithmetic::div_mod::lemma_mod_multiples_basic(q + 1, a);
    }
}

/// The product of two 32-bit numbers, in 64 bits.
pub fn wide_product(a: u32, b: u32) -> (p: u64)
    ensures
        p == a * b,
{
    assert(a * b <= 0xffff_ffff * 0xffff_ffff) by (nonlinear_arith)
        requires
            0 <= a <= 0xffff_ffff,
            0 <= b <= 0xffff_ffff,
    ;
    a as u64 * b as u64
}

/// Whether a product of two 32-bit numbers fits 32 bits.
pub fn product_fits(a: u32, b: u32) -> (r: bool)
    ensures
        r == (a * b <= u32::MAX),
{
    wide_product(a, b) <= u32::MAX as u64
}

/// Whether `x` rounded up to a multiple of `a` fits 32 bits.
pub fn multiple_fits(x: u32, a: u32) -> (r: bool)
    requires
        a > 0,
    ensures
        r == (next_multiple_spec(x as int, a as int) <= u32::MAX),
{
    let rem: u32 = x % a;
    rem == 0 || (a - rem) as u64 + x as u64 <= u32::MAX as u64
}

fn div_ceil_u32(x: u32, y: u32) -> (q: u32)
    requires
        y > 0,
    ensures
        q == div_ceil_spec(x as int, y as int),
{
    proof {
        lemma_div_ceil_is_least(x as int, y as int);
    }
    if x % y == 0 {
        x / y
    } else {
        x / y + 1
    }
}

fn next_multiple_u32(x: u32, a: u32) -> (m: u32)
    requires
        a > 0,
        next_multiple_spec(x as int, a as int) <= u32::MAX,
    ensures
        m == next_multiple_spec(x as int, a as int),
{
    let r: u32 = x % a;
    if r == 0 {
        x
    } else {
        x + (a - r)
    }
}

fn minify_u32(x: u32, level: u32) -> (m: u32)
    requires
        level < 32,
    ensures
        m == minify_spec(x, level),
{
    let s: u32 = x >> level;
    if s >= 1 {
        s
    } else {
        1
    }
}

/// How the samples of one pixel are laid out in a multisampled image.
#[derive(Clone, Copy, Debug, PartialEq, Eq, Structural)]
pub enum SampleLayout {
    Invalid,
    _1x1,
    _2x1,
    _2x2,
    _4x2,
    _4x4,
}

impl SampleLayout {
    pub open spec fn px_extent_sa_spec(self) -> Extent4D {
        match self {
            SampleLayout::_2x1 => Extent4D { width: 2, height: 1, depth: 1, array_len: 1 },
            SampleLayout::_2x2 => Extent4D { width: 2, height: 2, depth: 1, array_len: 1 },
            SampleLayout::_4x2 => Extent4D { width: 4, height: 2, depth: 1, array_len: 1 },
            SampleLayout::_4x4 => Extent4D { width: 4, height: 4, depth: 1, array_len: 1 },
            _ => Extent4D { width: 1, height: 1, depth: 1, array_len: 1 },
        }
    }

    /// The extent of one pixel, in samples.
    pub fn px_extent_sa(self) -> (e: Extent4D)
        requires
            self != SampleLayout::Invalid,
        ensures
            e == self.px_extent_sa_spec(),
    {
        match self {
            SampleLayout::_2x1 => Extent4D::new(2, 1, 1, 1),
            SampleLayout::_2x2 => Extent4D::new(2, 2, 1, 1),
            SampleLayout::_4x2 => Extent4D::new(4, 2, 1, 1),
            SampleLayout::_4x4 => Extent4D::new(4, 4, 1, 1),
            _ => Extent4D::new(1, 1, 1, 1),
        }
    }
}

/// The block layout of a pixel format: one element covers
/// `block_width x block_height x block_depth` samples and takes
/// `block_bits` bits.
#[derive(Clone, Copy, Debug, PartialEq, Eq, Structural)]
pub struct Format {
    pub block_width: u32,
    pub block_height: u32,
    pub block_depth: u32,
    pub block_bits: u32,
}

impl Format {
    /// A format is usable when its block is not empty.
    pub open spec fn wf(self) -> bool {
        self.block_width > 0 && self.block_height > 0 && self.block_depth > 0
    }

    pub open spec fn el_extent_sa_spec(self) -> Extent4D {
        Extent4D {
            width: self.block_width,
            height: self.block_height,
            depth: self.block_depth,
            array_len: 1,
        }
    }

    pub open spec fn el_size_b_spec(self) -> u32 {
        self.block_bits / 8
    }

    /// Whether the block of the format is not empty.
    pub fn is_wf(&self) -> (r: bool)
        ensures
            r == self.wf(),
    {
        self.block_width > 0 && self.block_height > 0 && self.block_depth > 0
    }

    /// The extent of one element, in samples.
    pub fn el_extent_sa(self) -> (e: Extent4D)
        ensures
            e == self.el_extent_sa_spec(),
    {
        Extent4D::new(self.block_width, self.block_height, self.block_depth, 1)
    }

    /// The size of one element, in bytes.
    #[allow(non_snake_case)]
    pub fn el_size_B(self) -> (s: u32)
        ensures
            s == self.el_size_b_spec(),
    {
        self.block_bits / 8
    }
}

/// A tiling mode: a tile is `2^x_log2 x 2^y_log2 x 2^z_log2` GOBs.
#[derive(Clone, Copy, Debug, PartialEq, Eq, Structural)]
pub struct Tiling {
    pub is_tiled: bool,
    pub gob_height_is_8: bool,
    pub x_log2: u8,
    pub y_log2: u8,
    pub z_log2: u8,
}

impl Tiling {
    /// The exponents are small enough for the tile's byte extent to fit.
    pub open spec fn wf(self) -> bool {
        self.x_log2 <= MAX_TILE_LOG2 && self.y_log2 <= MAX_TILE_LOG2 && self.z_log2
            <= MAX_TILE_LOG2
    }

    pub open spec fn extent_b_spec(self) -> Extent4D {
        if self.is_tiled {
            Extent4D {
                width: GOB_WIDTH_B << self.x_log2,
                height: gob_height_spec(self.gob_height_is_8) << self.y_log2,
                depth: GOB_DEPTH << self.z_log2,
                array_len: 1,
            }
        } else {
            Extent4D { width: 1, height: 1, depth: 1, array_len: 1 }
        }
    }

    /// Whether the exponents of the tiling are in range.
    pub fn is_wf(&self) -> (r: bool)
        ensures
            r == self.wf(),
    {
        self.x_log2 <= MAX_TILE_LOG2 && self.y_log2 <= MAX_TILE_LOG2 && self.z_log2
            <= MAX_TILE_LOG2
    }

    /// The extent of one tile in bytes; a linear image has 1x1x1 tiles.
    #[allow(non_snake_case)]
    pub fn extent_B(&self) -> (e: Extent4D)
        requires
            self.wf(),
        ensures
            e == self.extent_b_spec(),
            e.all_positive(),
    {
        if self.is_tiled {
            let x: u8 = self.x_log2;
            let y: u8 = self.y_log2;
            let z: u8 = self.z_log2;
            let gh: u32 = gob_height(self.gob_height_is_8);
            assert(x <= 24 ==> (64u32 << x) > 0) by (bit_vector);
            assert(y <= 24 && (gh == 4 || gh == 8) ==> (gh << y) > 0) by (bit_vector);
            assert(z <= 24 ==> (1u32 << z) > 0) by (bit_vector);
            Extent4D {
                width: GOB_WIDTH_B << x,
                height: gh << y,
                depth: GOB_DEPTH << z,
                array_len: 1,
            }
        } else {
            Extent4D::new(1, 1, 1, 1)
        }
    }
}

/// The size of an image or of a region of one, in some unit.
#[derive(Clone, Copy, Debug, PartialEq, Eq, Structural)]
pub struct Extent4D {
    pub width: u32,
    pub height: u32,
    pub depth: u32,
    pub array_len: u32,
}

impl Default for Extent4D {
    fn default() -> (e: Extent4D)
        ensures
            e == (Extent4D { width: 0, height: 0, depth: 0, array_len: 0 }),
    {
        Extent4D { width: 0, height: 0, depth: 0, array_len: 0 }
    }
}

/// Builds an extent from its four components.
pub fn nil_extent4d(width: u32, height: u32, depth: u32, array_len: u32) -> (e: Extent4D)
    ensures
        e == (Extent4D { width, height, depth, array_len }),
{
    Extent4D { width, height, depth, array_len }
}

impl Extent4D {
    /// No component is zero, so the extent can divide another.
    pub open spec fn all_positive(self) -> bool {
        self.width > 0 && self.height > 0 && self.depth > 0 && self.array_len > 0
    }

    pub open spec fn mul_spec(self, other: Extent4D) -> (int, int, int, int) {
        (
            self.width * other.width,
            self.height * other.height,
            self.depth * other.depth,
            self.array_len * other.array_len,
        )
    }

    /// The componentwise product fits in `u32`.
    pub open spec fn mul_fits(self, other: Extent4D) -> bool {
        &&& self.width * other.width <= u32::MAX
        &&& self.height * other.height <= u32::MAX
        &&& self.depth * other.depth <= u32::MAX
        &&& self.array_len * other.array_len <= u32::MAX
    }

    /// The componentwise product, where it fits.
    pub open spec fn times(self, other: Extent4D) -> Extent4D
        recommends
            self.mul_fits(other),
    {
        Extent4D {
            width: (self.width * other.width) as u32,
            height: (self.height * other.height) as u32,
            depth: (self.depth * other.depth) as u32,
            array_len: (self.array_len * other.array_len) as u32,
        }
    }

    /// The componentwise quotient, rounded up.
    pub open spec fn over_ceil(self, other: Extent4D) -> Extent4D
        recommends
            other.all_positive(),
    {
        Extent4D {
            width: div_ceil_spec(self.width as int, other.width as int) as u32,
            height: div_ceil_spec(self.height as int, other.height as int) as u32,
            depth: div_ceil_spec(self.depth as int, other.depth as int) as u32,
            array_len: div_ceil_spec(self.array_len as int, other.array_len as int) as u32,
        }
    }

    /// The extent with its width scaled by `k`.
    pub open spec fn width_times(self, k: u32) -> Extent4D
        recommends
            self.width * k <= u32::MAX,
    {
        Extent4D { width: (self.width * k) as u32, ..self }
    }

    /// The GOB extent in bytes.
    pub open spec fn gob_extent_b(gob_height_is_8: bool) -> Extent4D {
        Extent4D {
            width: GOB_WIDTH_B,
            height: gob_height_spec(gob_height_is_8),
            depth: GOB_DEPTH,
            array_len: 1,
        }
    }

    pub open spec fn px_to_sa_spec(self, sample_layout: SampleLayout) -> Extent4D {
        self.times(sample_layout.px_extent_sa_spec())
    }

    pub open spec fn px_to_el_spec(self, format: Format, sample_layout: SampleLayout) -> Extent4D {
        self.px_to_sa_spec(sample_layout).over_ceil(format.el_extent_sa_spec())
    }

    pub open spec fn px_to_b_spec(self, format: Format, sample_layout: SampleLayout) -> Extent4D {
        self.px_to_el_spec(format, sample_layout).width_times(format.el_size_b_spec())
    }

    pub open spec fn px_to_tl_spec(
        self,
        tiling: Tiling,
        format: Format,
        sample_layout: SampleLayout,
    ) -> Extent4D {
        self.px_to_b_spec(format, sample_layout).over_ceil(tiling.extent_b_spec())
    }

    pub fn new(width: u32, height: u32, depth: u32, array_len: u32) -> (e: Extent4D)
        ensures
            e == (Extent4D { width, height, depth, array_len }),
    {
        Extent4D { width, height, depth, array_len }
    }

    /// Whether no component is zero.
    pub fn is_all_positive(&self) -> (r: bool)
        ensures
            r == self.all_positive(),
    {
        self.width > 0 && self.height > 0 && self.depth > 0 && self.array_len > 0
    }

    /// Whether the componentwise product with `other` fits in `u32`.
    pub fn can_mul(&self, other: &Extent4D) -> (r: bool)
        ensures
            r == self.mul_fits(*other),
    {
        product_fits(self.width, other.width) && product_fits(self.height, other.height)
            && product_fits(self.depth, other.depth) && product_fits(
            self.array_len,
            other.array_len,
        )
    }

    /// Whether the extent can be rounded up to the alignment.
    pub fn can_align(&self, alignment: &Extent4D) -> (r: bool)
        ensures
            r == (alignment.all_positive() && next_multiple_spec(
                self.width as int,
                alignment.width as int,
            ) <= u32::MAX && next_multiple_spec(self.height as int, alignment.height as int)
                <= u32::MAX && next_multiple_spec(self.depth as int, alignment.depth as int)
                <= u32::MAX && next_multiple_spec(
                self.array_len as int,
                alignment.array_len as int,
            ) <= u32::MAX),
    {
        alignment.is_all_positive() && multiple_fits(self.width, alignment.width) && multiple_fits(
            self.height,
            alignment.height,
        ) && multiple_fits(self.depth, alignment.depth) && multiple_fits(
            self.array_len,
            alignment.array_len,
        )
    }

    /// Whether the number of units in one array layer fits in `u32`.
    pub fn can_size(&self) -> (r: bool)
        ensures
            r == (self.width * self.height * self.depth <= u32::MAX),
    {
        let p: u64 = wide_product(self.width, self.height);
        if self.depth == 0 || p == 0 {
            assert(self.width * self.height * self.depth == 0) by (nonlinear_arith)
                requires
                    self.depth == 0 || self.width * self.height == 0,
            ;
            return true;
        }
        if p > u32::MAX as u64 {
            assert(self.width * self.height * self.depth > u32::MAX) by (nonlinear_arith)
                requires
                    self.width * self.height > u32::MAX,
                    self.depth >= 1,
            ;
            return false;
        }
        assert(p * self.depth <= 0xffff_ffff * 0xffff_ffff) by (nonlinear_arith)
            requires
                0 <= p <= 0xffff_ffff,
                0 <= self.depth <= 0xffff_ffff,
        ;
        p * self.depth as u64 <= u32::MAX as u64
    }

    /// Whether the extent in pixels can be converted to bytes.
    pub fn can_px_to_b(&self, format: &Format, sample_layout: SampleLayout) -> (r: bool)
        ensures
            r == (sample_layout != SampleLayout::Invalid && self.mul_fits(
                sample_layout.px_extent_sa_spec(),
            ) && format.wf() && self.px_to_el_spec(*format, sample_layout).width
                * format.el_size_b_spec() <= u32::MAX),
    {
        if matches!(sample_layout, SampleLayout::Invalid) || !format.is_wf() {
            return false;
        }
        if !self.can_mul(&sample_layout.px_extent_sa()) {
            return false;
        }
        let el = self.px_to_el(*format, sample_layout);
        product_fits(el.width, format.el_size_B())
    }

    /// The number of units in one array layer: width x height x depth.
    pub fn size(&self) -> (s: u32)
        requires
            self.width * self.height * self.depth <= u32::MAX,
        ensures
            s == self.width * self.height * self.depth,
    {
        proof {
            assert(self.width * self.height <= self.width * self.height * self.depth
                || self.depth == 0) by (nonlinear_arith);
        }
        if self.depth == 0 {
            0
        } else {
            self.width * self.height * self.depth
        }
    }

    /// Rounds every component up to a multiple of the alignment's.
    pub fn align(self, alignment: &Self) -> (e: Extent4D)
        requires
            alignment.all_positive(),
            next_multiple_spec(self.width as int, alignment.width as int) <= u32::MAX,
            next_multiple_spec(self.height as int, alignment.height as int) <= u32::MAX,
            next_multiple_spec(self.depth as int, alignment.depth as int) <= u32::MAX,
            next_multiple_spec(self.array_len as int, alignment.array_len as int) <= u32::MAX,
        ensures
            e.width == next_multiple_spec(self.width as int, alignment.width as int),
            e.height == next_multiple_spec(self.height as int, alignment.height as int),
            e.depth == next_multiple_spec(self.depth as int, alignment.depth as int),
            e.array_len == next_multiple_spec(self.array_len as int, alignment.array_len as int),
    {
        Extent4D {
            width: next_multiple_u32(self.width, alignment.width),
            height: next_multiple_u32(self.height, alignment.height),
            depth: next_multiple_u32(self.depth, alignment.depth),
            array_len: next_multiple_u32(self.array_len, alignment.array_len),
        }
    }

    /// The componentwise product.
    pub fn mul(self, other: Self) -> (e: Extent4D)
        requires
            self.mul_fits(other),
        ensures
            e == self.times(other),
            (e.width as int, e.height as int, e.depth as int, e.array_len as int) == self.mul_spec(
                other,
            ),
    {
        Extent4D {
            width: self.width * other.width,
            height: self.height * other.height,
            depth: self.depth * other.depth,
            array_len: self.array_len * other.array_len,
        }
    }

    /// The componentwise quotient, rounded up.
    pub fn div_ceil(self, other: Self) -> (e: Extent4D)
        requires
            other.all_positive(),
        ensures
            e == self.over_ceil(other),
            e.width == div_ceil_spec(self.width as int, other.width as int),
            e.height == div_ceil_spec(self.height as int, other.height as int),
            e.depth == div_ceil_spec(self.depth as int, other.depth as int),
            e.array_len == div_ceil_spec(self.array_len as int, other.array_len as int),
    {
        Extent4D {
            width: div_ceil_u32(self.width, other.width),
            height: div_ceil_u32(self.height, other.height),
            depth: div_ceil_u32(self.depth, other.depth),
            array_len: div_ceil_u32(self.array_len, other.array_len),
        }
    }

    /// Pixels to samples.
    pub fn px_to_sa(self, sample_layout: SampleLayout) -> (e: Extent4D)
        requires
            sample_layout != SampleLayout::Invalid,
            self.mul_fits(sample_layout.px_extent_sa_spec()),
        ensures
            e == self.px_to_sa_spec(sample_layout),
    {
        self.mul(sample_layout.px_extent_sa())
    }

    /// Pixels to format elements.
    pub fn nil_extent4d_px_to_el(self, format: Format, sample_layout: SampleLayout) -> (e:
        Extent4D)
        requires
            sample_layout != SampleLayout::Invalid,
            self.mul_fits(sample_layout.px_extent_sa_spec()),
            format.wf(),
        ensures
            e == self.px_to_el_spec(format, sample_layout),
    {
        self.px_to_el(format, sample_layout)
    }

    /// Pixels to format elements: to samples, then divided by the
    /// element's extent, rounding up.
    pub fn px_to_el(self, format: Format, sample_layout: SampleLayout) -> (e: Extent4D)
        requires
            sample_layout != SampleLayout::Invalid,
            self.mul_fits(sample_layout.px_extent_sa_spec()),
            format.wf(),
        ensures
            e == self.px_to_el_spec(format, sample_layout),
    {
        self.px_to_sa(sample_layout).div_ceil(format.el_extent_sa())
    }

    /// Elements to bytes: only the width is scaled.
    #[allow(non_snake_case)]
    pub fn el_to_B(self, bytes_per_element: u32) -> (e: Extent4D)
        requires
            self.width * bytes_per_element <= u32::MAX,
        ensures
            e == self.width_times(bytes_per_element),
            e.width == self.width * bytes_per_element,
            e.height == self.height,
            e.depth == self.depth,
            e.array_len == self.array_len,
    {
        Extent4D { width: self.width * bytes_per_element, ..self }
    }

    /// Pixels to bytes.
    #[allow(non_snake_case)]
    pub fn px_to_B(self, format: Format, sample_layout: SampleLayout) -> (e: Extent4D)
        requires
            sample_layout != SampleLayout::Invalid,
            self.mul_fits(sample_layout.px_extent_sa_spec()),
            format.wf(),
            self.px_to_el_spec(format, sample_layout).width * format.el_size_b_spec() <= u32::MAX,
        ensures
            e == self.px_to_b_spec(format, sample_layout),
    {
        self.px_to_el(format, sample_layout).el_to_B(format.el_size_B())
    }

    /// Bytes to GOBs, rounding up.
    #[allow(non_snake_case)]
    pub fn B_to_GOB(self, gob_height_is_8: bool) -> (e: Extent4D)
        ensures
            e == self.over_ceil(Self::gob_extent_b(gob_height_is_8)),
    {
        let gob_extent_B = Extent4D {
            width: GOB_WIDTH_B,
            height: gob_height(gob_height_is_8),
            depth: GOB_DEPTH,
            array_len: 1,
        };
        self.div_ceil(gob_extent_B)
    }

    /// Pixels to tiles.
    pub fn nil_extent4d_px_to_tl(
        self,
        tiling: &Tiling,
        format: Format,
        sample_layout: SampleLayout,
    ) -> (e: Extent4D)
        requires
            sample_layout != SampleLayout::Invalid,
            self.mul_fits(sample_layout.px_extent_sa_spec()),
            format.wf(),
            tiling.wf(),
            self.px_to_el_spec(format, sample_layout).width * format.el_size_b_spec() <= u32::MAX,
        ensures
            e == self.px_to_tl_spec(*tiling, format, sample_layout),
    {
        self.px_to_tl(tiling, format, sample_layout)
    }

    /// Pixels to tiles: to bytes, then divided by the tile's byte
    /// extent, rounding up.
    pub fn px_to_tl(self, tiling: &Tiling, format: Format, sample_layout: SampleLayout) -> (e:
        Extent4D)
        requires
            sample_layout != SampleLayout::Invalid,
            self.mul_fits(sample_layout.px_extent_sa_spec()),
            format.wf(),
            tiling.wf(),
            self.px_to_el_spec(format, sample_layout).width * format.el_size_b_spec() <= u32::MAX,
        ensures
            e == self.px_to_tl_spec(*tiling, format, sample_layout),
    {
        let tl_extent_B = tiling.extent_B();
        self.px_to_B(format, sample_layout).div_ceil(tl_extent_B)
    }

    /// The extent at a mip level: width, height and depth are halved
    /// `level` times and never drop below 1; the array length stays.
    pub fn minify(self, level: u32) -> (e: Extent4D)
        requires
            level < 32,
        ensures
            e.width == minify_spec(self.width, level),
            e.height == minify_spec(self.height, level),
            e.depth == minify_spec(self.depth, level),
            e.array_len == self.array_len,
    {
        Extent4D {
            width: minify_u32(self.width, level),
            height: minify_u32(self.height, level),
            depth: minify_u32(self.depth, level),
            ..self
        }
    }
}

/// A position inside an image, in some unit.
#[derive(Clone, Copy, Debug, PartialEq, Eq, Structural)]
pub struct Offset4D {
    pub x: u32,
    pub y: u32,
    pub z: u32,
    pub a: u32,
}

/// Builds an offset from its four components.
pub fn nil_offset4d(x: u32, y: u32, z: u32, a: u32) -> (o: Offset4D)
    ensures
        o == (Offset4D { x, y, z, a }),
{
    Offset4D { x, y, z, a }
}

impl Offset4D {
    /// The componentwise product with an extent fits in `u32`.
    pub open spec fn mul_fits(self, other: Extent4D) -> bool {
        &&& self.x * other.width <= u32::MAX
        &&& self.y * other.height <= u32::MAX
        &&& self.z * other.depth <= u32::MAX
        &&& self.a * other.array_len <= u32::MAX
    }

    pub open spec fn times(self, other: Extent4D) -> Offset4D
        recommends
            self.mul_fits(other),
    {
        Offset4D {
            x: (self.x * other.width) as u32,
            y: (self.y * other.height) as u32,
            z: (self.z * other.depth) as u32,
            a: (self.a * other.array_len) as u32,
        }
    }

    pub open spec fn over_floor(self, other: Extent4D) -> Offset4D
        recommends
            other.all_positive(),
    {
        Offset4D {
            x: self.x / other.width,
            y: self.y / other.height,
            z: self.z / other.depth,
            a: self.a / other.array_len,
        }
    }

    pub open spec fn x_times(self, k: u32) -> Offset4D
        recommends
            self.x * k <= u32::MAX,
    {
        Offset4D { x: (self.x * k) as u32, ..self }
    }

    pub open spec fn px_to_el_spec(self, format: Format, sample_layout: SampleLayout) -> Offset4D {
        self.times(sample_layout.px_extent_sa_spec()).over_floor(format.el_extent_sa_spec())
    }

    pub open spec fn px_to_b_spec(self, format: Format, sample_layout: SampleLayout) -> Offset4D {
        self.px_to_el_spec(format, sample_layout).x_times(format.el_size_b_spec())
    }

    pub open spec fn px_to_tl_spec(
        self,
        tiling: Tiling,
        format: Format,
        sample_layout: SampleLayout,
    ) -> Offset4D {
        self.px_to_b_spec(format, sample_layout).over_floor(tiling.extent_b_spec())
    }

    /// Whether the componentwise product with an extent fits in
    /// `u32`.
    pub fn can_mul(&self, other: &Extent4D) -> (r: bool)
        ensures
            r == self.mul_fits(*other),
    {
        product_fits(self.x, other.width) && product_fits(self.y, other.height) && product_fits(
            self.z,
            other.depth,
        ) && product_fits(self.a, other.array_len)
    }

    /// Whether the offset in pixels can be converted to bytes.
    pub fn can_px_to_b(&self, format: &Format, sample_layout: SampleLayout) -> (r: bool)
        ensures
            r == (sample_layout != SampleLayout::Invalid && self.mul_fits(
                sample_layout.px_extent_sa_spec(),
            ) && format.wf() && self.px_to_el_spec(*format, sample_layout).x
                * format.el_size_b_spec() <= u32::MAX),
    {
        if matches!(sample_layout, SampleLayout::Invalid) || !format.is_wf() {
            return false;
        }
        if !self.can_mul(&sample_layout.px_extent_sa()) {
            return false;
        }
        let el = self.px_to_el(*format, sample_layout);
        product_fits(el.x, format.el_size_B())
    }

    /// The componentwise quotient, rounded down.
    pub fn div_floor(self, other: Extent4D) -> (o: Offset4D)
        requires
            other.all_positive(),
        ensures
            o == self.over_floor(other),
    {
        Offset4D {
            x: self.x / other.width,
            y: self.y / other.height,
            z: self.z / other.depth,
            a: self.a / other.array_len,
        }
    }

    /// The componentwise product with an extent.
    pub fn mul(self, other: Extent4D) -> (o: Offset4D)
        requires
            self.mul_fits(other),
        ensures
            o == self.times(other),
            o.x == self.x * other.width,
            o.y == self.y * other.height,
            o.z == self.z * other.depth,
            o.a == self.a * other.array_len,
    {
        Offset4D {
            x: self.x * other.width,
            y: self.y * other.height,
            z: self.z * other.depth,
            a: self.a * other.array_len,
        }
    }

    /// Pixels to format elements.
    pub fn nil_offset4d_px_to_el(self, format: Format, sample_layout: SampleLayout) -> (o:
        Offset4D)
        requires
            sample_layout != SampleLayout::Invalid,
            self.mul_fits(sample_layout.px_extent_sa_spec()),
            format.wf(),
        ensures
            o == self.px_to_el_spec(format, sample_layout),
    {
        self.px_to_el(format, sample_layout)
    }

    /// Pixels to format elements: to samples, then divided by the
    /// element's extent, rounding down.
    pub fn px_to_el(self, format: Format, sample_layout: SampleLayout) -> (o: Offset4D)
        requires
            sample_layout != SampleLayout::Invalid,
            self.mul_fits(sample_layout.px_extent_sa_spec()),
            format.wf(),
        ensures
            o == self.px_to_el_spec(format, sample_layout),
    {
        self.mul(sample_layout.px_extent_sa()).div_floor(format.el_extent_sa())
    }

    /// Pixels to tiles.
    pub fn nil_offset4d_px_to_tl(
        self,
        tiling: &Tiling,
        format: Format,
        sample_layout: SampleLayout,
    ) -> (o: Offset4D)
        requires
            sample_layout != SampleLayout::Invalid,
            self.mul_fits(sample_layout.px_extent_sa_spec()),
            format.wf(),
            tiling.wf(),
            self.px_to_el_spec(format, sample_layout).x * format.el_size_b_spec() <= u32::MAX,
        ensures
            o == self.px_to_tl_spec(*tiling, format, sample_layout),
    {
        self.px_to_tl(tiling, format, sample_layout)
    }

    /// Pixels to tiles: to bytes, then divided by the tile's byte
    /// extent, rounding down.
    pub fn px_to_tl(self, tiling: &Tiling, format: Format, sample_layout: SampleLayout) -> (o:
        Offset4D)
        requires
            sample_layout != SampleLayout::Invalid,
            self.mul_fits(sample_layout.px_extent_sa_spec()),
            format.wf(),
            tiling.wf(),
            self.px_to_el_spec(format, sample_layout).x * format.el_size_b_spec() <= u32::MAX,
        ensures
            o == self.px_to_tl_spec(*tiling, format, sample_layout),
    {
        self.px_to_B(format, sample_layout).div_floor(tiling.extent_B())
    }

    /// Pixels to bytes.
    #[allow(non_snake_case)]
    pub fn nil_offset4d_px_to_B(self, format: Format, sample_layout: SampleLayout) -> (o:
        Offset4D)
        requires
            sample_layout != SampleLayout::Invalid,
            self.mul_fits(sample_layout.px_extent_sa_spec()),
            format.wf(),
            self.px_to_el_spec(format, sample_layout).x * format.el_size_b_spec() <= u32::MAX,
        ensures
            o == self.px_to_b_spec(format, sample_layout),
    {
        self.px_to_B(format, sample_layout)
    }

    /// Pixels to bytes.
    #[allow(non_snake_case)]
    pub fn px_to_B(self, format: Format, sample_layout: SampleLayout) -> (o: Offset4D)
        requires
            sample_layout != SampleLayout::Invalid,
            self.mul_fits(sample_layout.px_extent_sa_spec()),
            format.wf(),
            self.px_to_el_spec(format, sample_layout).x * format.el_size_b_spec() <= u32::MAX,
        ensures
            o == self.px_to_b_spec(format, sample_layout),
    {
        self.px_to_el(format, sample_layout).el_to_B(format.el_size_B())
    }

    /// Elements to bytes.
    #[allow(non_snake_case)]
    pub fn nil_offset4d_el_to_B(self, bytes_per_element: u32) -> (o: Offset4D)
        requires
            self.x * bytes_per_element <= u32::MAX,
        ensures
            o == self.x_times(bytes_per_element),
    {
        self.el_to_B(bytes_per_element)
    }

    /// Elements to bytes: only `x` is scaled.
    #[allow(non_snake_case)]
    pub fn el_to_B(self, bytes_per_element: u32) -> (o: Offset4D)
        requires
            self.x * bytes_per_element <= u32::MAX,
        ensures
            o == self.x_times(bytes_per_element),
            o.x == self.x * bytes_per_element,
            o.y == self.y,
            o.z == self.z,
            o.a == self.a,
    {
        let mut offset_B = self;
        offset_B.x = offset_B.x * bytes_per_element;
        offset_B
    }
}

} // verus!
