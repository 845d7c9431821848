//! Integer helpers of the launch code.

use vstd::prelude::*;

verus! {

/// The greatest common divisor; `gcd(a, 0)` is `a`.
pub open spec fn gcd_spec(a: nat, b: nat) -> nat
    decreases b,
{
    if b == 0 {
        a
    } else {
        gcd_spec(b, a % b)
    }
}

/// `d` divides `n`.
pub open spec fn divides(d: nat, n: nat) -> bool {
    d != 0 && n % d == 0
}

/// The quotient `a / b` rounded up.
pub open spec fn div_round_up_spec(a: nat, b: nat) -> nat
    recommends
        b > 0,
{
    if a % b == 0 {
        a / b
    } else {
        a / b + 1
    }
}

/// The gcd of two numbers that are not both zero divides both.
pub proof fn lemma_gcd_divides(a: nat, b: nat)
    requires
        a > 0 || b > 0,
    ensures
        gcd_spec(a, b) > 0,
        a % gcd_spec(a, b) == 0,
        b % gcd_spec(a, b) == 0,
    decreases b,
{
    if b != 0 {
        let r = a % b;
        lemma_gcd_divides(b, r);
        let g = gcd_spec(b, r);
        // a = (a / b) * b + r, and g divides b and r
        vstd::arithmetic::div_mod::lemma_fundamental_div_mod(a as int, b as int);
        let q = a / b;
        let kb = b / g;
        let kr = r / g;
        vstd::arithmetic::div_mod::lemma_fundamental_div_mod(b as int, g as int);
        vstd::arithmetic::div_mod::lemma_fundamental_div_mod(r as int, g as int);
        assert(b == g * kb);
        assert(r == g * kr);
        assert(a == g * (q * kb + kr)) by (nonlinear_arith)
            requires
                a == b * q + r,
                b == g * kb,
                r == g * kr,
        ;
        vstd::arithmetic::div_mod::lemma_mod_multiples_basic((q * kb + kr) as int, g as int);
        assert(g * (q * kb + kr) == (q * kb + kr) * g) by (nonlinear_arith);
    }
}

/// A divisor of a divisor is a divisor.
pub proof fn lemma_divides_trans(a: nat, b: nat, c: nat)
    requires
        a > 0,
        b > 0,
        b % a == 0,
        c % b == 0,
    ensures
        c % a == 0,
{
    vstd::arithmetic::div_mod::lemma_fundamental_div_mod(b as int, a as int);
    vstd::arithmetic::div_mod::lemma_fundamental_div_mod(c as int, b as int);
    let k = b / a;
    let m = c / b;
    assert(c == (m * k) * a) by (nonlinear_arith)
        requires
            b == a * k,
            c == b * m,
    ;
    vstd::arithmetic::div_mod::lemma_mod_multiples_basic((m * k) as int, a as int);
}

/// A divisor of a number that is not zero is at most the number.
pub proof fn lemma_divisor_le(d: nat, n: nat)
    requires
        d > 0,
        n > 0,
        n % d == 0,
    ensures
        d <= n,
{
    if d > n {
        vstd::arithmetic::div_mod::lemma_small_mod(n, d);
    }
}

/// The gcd is at most its first argument, if that is not zero.
pub proof fn lemma_gcd_le_first(a: nat, b: nat)
    requires
        a > 0,
    ensures
        gcd_spec(a, b) <= a,
{
    lemma_gcd_divides(a, b);
    let g = gcd_spec(a, b);
    vstd::arithmetic::div_mod::lemma_fundamental_div_mod(a as int, g as int);
    let k = a / g;
    assert(a == g * k);
    assert(k >= 1 && g * k >= g) by (nonlinear_arith)
        requires
            a == g * k,
            a > 0,
            g > 0,
            k >= 0,
    ;
}

/// The rounded-up quotient is the least `q` with `q * b >= a`.
pub proof fn lemma_div_round_up(a: nat, b: nat)
    requires
        b > 0,
    ensures
        div_round_up_spec(a, b) * b >= a,
        a > 0 ==> (div_round_up_spec(a, b) - 1) * b < a,
        a == 0 ==> div_round_up_spec(a, b) == 0,
{
    vstd::arithmetic::div_mod::lemma_fundamental_div_mod(a as int, b as int);
    let q = a / b;
    assert((q + 1) * b == q * b + b) by (nonlinear_arith);
    assert((q - 1) * b == q * b - b) by (nonlinear_arith);
    assert(b * q == q * b) by (nonlinear_arith);
    if a == 0 {
        assert(a / b == 0);
    }
}

/// The greatest common divisor, by Euclid's algorithm.
pub fn gcd(a: usize, b: usize) -> (g: usize)
    ensures
        g == gcd_spec(a as nat, b as nat),
{
    let mut x: usize = a;
    let mut y: usize = b;
    while y != 0
        invariant
            gcd_spec(x as nat, y as nat) == gcd_spec(a as nat, b as nat),
        decreases y,
    {
        let tmp: usize = x;
        x = y;
        y = tmp % y;
    }
    x
}

/// The quotient `a / b` rounded up.
pub fn div_round_up(a: usize, b: usize) -> (q: usize)
    requires
        b > 0,
    ensures
        q == div_round_up_spec(a as nat, b as nat),
{
    if a % b == 0 {
        a / b
    } else {
        proof {
            let q = (a / b) as int;
            vstd::arithmetic::div_mod::lemma_fundamental_div_mod(a as int, b as int);
            assert(b * q >= 2 * q) by (nonlinear_arith)
                requires
                    b >= 2,
                    q >= 0,
            ;
        }
        a / b + 1
    }
}

/// The alignment that a reservation of `size` bytes of local memory
/// gets: the next power of two, of at least 1 and at most 128 bytes.
pub open spec fn local_mem_align_spec(size: usize) -> u64 {
    if size <= 1 {
        1
    } else if size <= 2 {
        2
    } else if size <= 4 {
        4
    } else if size <= 8 {
        8
    } else if size <= 16 {
        16
    } else if size <= 32 {
        32
    } else if size <= 64 {
        64
    } else {
        128
    }
}

/// The alignment of a reservation of `size` bytes of local memory.
pub fn local_mem_align(size: usize) -> (a: u64)
    ensures
        a == local_mem_align_spec(size),
        1 <= a <= 128,
{
    let pot: usize = if size < 0x80 {
        size
    } else {
        0x80
    };
    let mut p: u64 = 1;
    while p < pot as u64
        invariant
            pot <= 0x80,
            p == 1 || p == 2 || p == 4 || p == 8 || p == 16 || p == 32 || p == 64 || p == 128,
            p == 1 || p / 2 < pot,
        decreases 256 - p,
    {
        p = p * 2;
    }
    p
}

/// The smallest multiple of `a` that is not below `v`.
pub open spec fn align_spec(v: int, a: int) -> int
    recommends
        a > 0,
{
    if v % a == 0 {
        v
    } else {
        v + (a - v % a)
    }
}

/// Rounds `v` up to a multiple of `a`; `None` if that does not fit.
pub fn align_u64(v: u64, a: u64) -> (r: Option<u64>)
    requires
        a > 0,
    ensures
        r == if align_spec(v as int, a as int) <= u64::MAX {
            Some(align_spec(v as int, a as int) as u64)
        } else {
            None
        },
{
    let rem: u64 = v % a;
    if rem == 0 {
        Some(v)
    } else {
        v.checked_add(a - rem)
    }
}

} // verus!
