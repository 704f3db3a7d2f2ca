//! Scalar helpers shared by every vector family: truncating signed division,
//! integer square root, scalar clamping, and the packed little-endian byte
//! image of one element.

use vstd::arithmetic::div_mod::{
    lemma_add_mod_noop, lemma_div_basics, lemma_div_is_ordered_by_denominator,
    lemma_div_multiples_vanish, lemma_div_nonincreasing, lemma_div_pos_is_pos,
    lemma_fundamental_div_mod, lemma_mod_add_multiples_vanish, lemma_mod_division_less_than_divisor,
    lemma_mod_multiples_basic, lemma_mod_twice, lemma_mul_mod_noop_left, lemma_small_mod,
};
use vstd::prelude::*;
use vstd::wrapping::i32_specs;

verus! {

/// Division truncated toward zero, as the machine's signed division computes
/// it. Spec-mode `/` is Euclidean, so the negative cases are spelled out.
pub open spec fn div_trunc(a: int, b: int) -> int {
    if a == 0 {
        0
    } else if a > 0 && b > 0 {
        a / b
    } else if a < 0 && b < 0 {
        (a * -1) / (b * -1)
    } else if a < 0 {
        ((a * -1) / b) * -1
    } else {
        (a / (b * -1)) * -1
    }
}

/// The quotient truncated toward zero never grows past the dividend's
/// magnitude, so it stays inside the signed range whenever the dividend does,
/// except at `i32::MIN / -1`.
proof fn lemma_div_trunc_in_range(a: int, b: int)
    requires
        i32::MIN <= a <= i32::MAX,
        -0x1_0000_0000 < b < 0x1_0000_0000,
        b != 0,
        !(a == i32::MIN && b == -1),
    ensures
        i32::MIN <= div_trunc(a, b) <= i32::MAX,
{
    if a == 0 {
    } else if a > 0 && b > 0 {
        lemma_div_pos_is_pos(a, b);
        lemma_div_nonincreasing(a, b);
    } else if a < 0 && b < 0 {
        lemma_div_pos_is_pos(a * -1, b * -1);
        lemma_div_nonincreasing(a * -1, b * -1);
        if b == -1 {
            assert(a * -1 <= i32::MAX);
        } else {
            lemma_div_is_ordered_by_denominator(a * -1, 2, b * -1);
            assert((a * -1) / 2 <= i32::MAX);
        }
    } else if a < 0 {
        lemma_div_pos_is_pos(a * -1, b);
        lemma_div_nonincreasing(a * -1, b);
    } else {
        lemma_div_pos_is_pos(a, b * -1);
        lemma_div_nonincreasing(a, b * -1);
    }
}

/// Signed division with the machine's truncation. The divisor must be
/// nonzero, and `i32::MIN / -1` is excluded because its quotient has no
/// `i32` representation; both would otherwise end the process.
pub fn div_i32(a: i32, b: i32) -> (r: i32)
    requires
        b != 0,
        !(a == i32::MIN && b == -1),
    ensures
        r == div_trunc(a as int, b as int) as i32,
{
    proof {
        lemma_div_trunc_in_range(a as int, b as int);
    }
    match a.checked_div(b) {
        Some(q) => q,
        None => vstd::pervasive::unreached(),
    }
}

/// The integer square root: the greatest `r` with `r * r <= n`.
pub fn isqrt32(n: u32) -> (r: u32)
    ensures
        r * r <= n,
        n < (r + 1) * (r + 1),
        r < 65536,
{
    let mut lo: u32 = 0;
    let mut hi: u32 = 65536;
    while lo + 1 < hi
        invariant
            lo < hi <= 65536,
            lo * lo <= n,
            n < hi * hi,
        decreases hi - lo,
    {
        let mid: u32 = lo + (hi - lo) / 2;
        proof {
            assert(mid < 65536 ==> mid * mid < 0x1_0000_0000) by (nonlinear_arith);
            assert(lo < mid < hi);
        }
        if mid * mid <= n {
            lo = mid;
        } else {
            hi = mid;
        }
    }
    lo
}

/// Multiplying by one wraps nowhere: the product is the element itself.
pub proof fn lemma_wrapping_mul_one_u32(x: u32)
    ensures
        x.wrapping_mul(1) == x,
{
    lemma_small_mod(x as nat, 0x1_0000_0000);
}

/// A product that stays in range, divided by its nonzero factor, returns the
/// other factor.
pub proof fn lemma_mul_div_exact_u32(x: u32, s: u32)
    requires
        s != 0,
        x * s <= u32::MAX,
    ensures
        x.wrapping_mul(s) / s == x,
{
    lemma_small_mod((x * s) as nat, 0x1_0000_0000);
    lemma_div_multiples_vanish(x as int, s as int);
    assert(s as int * x as int == x as int * s as int);
}

/// The larger of two unsigned elements.
pub open spec fn max_u32(a: u32, b: u32) -> u32 {
    if a < b {
        b
    } else {
        a
    }
}

/// The smaller of two unsigned elements.
pub open spec fn min_u32(a: u32, b: u32) -> u32 {
    if a < b {
        a
    } else {
        b
    }
}

/// The larger of two signed elements.
pub open spec fn max_i32(a: i32, b: i32) -> i32 {
    if a < b {
        b
    } else {
        a
    }
}

/// The smaller of two signed elements.
pub open spec fn min_i32(a: i32, b: i32) -> i32 {
    if a < b {
        a
    } else {
        b
    }
}

/// One element clamped to the box `[lo, hi]`, raising to `lo` first and
/// lowering to `hi` second, exactly as the vector clamp applies it.
pub open spec fn clamp_u32(v: u32, lo: u32, hi: u32) -> u32 {
    min_u32(max_u32(v, lo), hi)
}

/// One signed element clamped to the box `[lo, hi]`, raising first and
/// lowering second.
pub open spec fn clamp_i32(v: i32, lo: i32, hi: i32) -> i32 {
    min_i32(max_i32(v, lo), hi)
}

/// The wraparound negation of one unsigned element.
pub open spec fn wneg_u32(v: u32) -> u32 {
    0u32.wrapping_sub(v)
}

/// The wraparound negation of one signed element.
pub open spec fn wneg_i32(v: i32) -> i32 {
    0i32.wrapping_sub(v)
}

/// An integer reduced to the signed 32-bit range, keeping its residue
/// modulo the range: the value every wraparound operation lands on.
pub open spec fn crop_i32(x: int) -> i32 {
    i32_specs::signed_crop(x)
}

/// The reduced value stays in the signed range and differs from the
/// original by a multiple of the range.
proof fn lemma_crop_i32_bounds(x: int)
    ensures
        i32::MIN <= crop_i32(x) <= i32::MAX,
        (crop_i32(x) - x) % 0x1_0000_0000 == 0,
{
    let range = 0x1_0000_0000int;
    lemma_mod_division_less_than_divisor(x, range);
    lemma_fundamental_div_mod(x, range);
    if (x % range) > i32::MAX {
        assert(crop_i32(x) - x == (-(x / range) - 1) * range);
        lemma_mod_multiples_basic(-(x / range) - 1, range);
    } else {
        assert(crop_i32(x) - x == (-(x / range)) * range);
        lemma_mod_multiples_basic(-(x / range), range);
    }
}

/// Integers congruent modulo the range reduce to the same signed value.
proof fn lemma_congruent_crop_i32(x: int, y: int)
    requires
        (x - y) % 0x1_0000_0000 == 0,
    ensures
        crop_i32(x) == crop_i32(y),
{
    let range = 0x1_0000_0000int;
    lemma_add_mod_noop(x - y, y, range);
    lemma_mod_twice(y, range);
    assert(x % range == y % range);
}

/// Reduction is the identity on values already in the signed range.
proof fn lemma_crop_i32_identity(x: int)
    requires
        i32::MIN <= x <= i32::MAX,
    ensures
        crop_i32(x) == x,
{
    let range = 0x1_0000_0000int;
    if x >= 0 {
        lemma_small_mod(x as nat, range as nat);
    } else {
        lemma_mod_add_multiples_vanish(x, range);
        lemma_small_mod((x + range) as nat, range as nat);
    }
}

/// The wraparound sum is the reduced exact sum.
proof fn lemma_wadd_crop_i32(a: i32, b: i32)
    ensures
        a.wrapping_add(b) == crop_i32(a + b),
{
    let range = 0x1_0000_0000int;
    if a + b > i32::MAX {
        lemma_mod_multiples_basic(-1, range);
        lemma_congruent_crop_i32(a + b, a + b - range);
        lemma_crop_i32_identity(a + b - range);
    } else if a + b < i32::MIN {
        lemma_mod_multiples_basic(1, range);
        lemma_congruent_crop_i32(a + b, a + b + range);
        lemma_crop_i32_identity(a + b + range);
    } else {
        lemma_crop_i32_identity(a + b);
    }
}

/// The wraparound difference is the reduced exact difference.
proof fn lemma_wsub_crop_i32(a: i32, b: i32)
    ensures
        a.wrapping_sub(b) == crop_i32(a - b),
{
    let range = 0x1_0000_0000int;
    if a - b > i32::MAX {
        lemma_mod_multiples_basic(-1, range);
        lemma_congruent_crop_i32(a - b, a - b - range);
        lemma_crop_i32_identity(a - b - range);
    } else if a - b < i32::MIN {
        lemma_mod_multiples_basic(1, range);
        lemma_congruent_crop_i32(a - b, a - b + range);
        lemma_crop_i32_identity(a - b + range);
    } else {
        lemma_crop_i32_identity(a - b);
    }
}

/// Reducing one summand before the sum does not change the reduced sum.
proof fn lemma_crop_i32_add2(x: int, y: int)
    ensures
        crop_i32(crop_i32(x) + crop_i32(y)) == crop_i32(x + y),
{
    let range = 0x1_0000_0000int;
    lemma_crop_i32_bounds(x);
    lemma_crop_i32_bounds(y);
    lemma_add_mod_noop(crop_i32(x) - x, crop_i32(y) - y, range);
    lemma_small_mod(0, range as nat);
    assert((crop_i32(x) + crop_i32(y)) - (x + y) == (crop_i32(x) - x) + (crop_i32(y) - y));
    lemma_congruent_crop_i32(crop_i32(x) + crop_i32(y), x + y);
}

/// Reducing the left factor before the product does not change the reduced
/// product.
proof fn lemma_crop_i32_mul_left(x: int, y: int)
    ensures
        crop_i32(crop_i32(x) * y) == crop_i32(x * y),
{
    let range = 0x1_0000_0000int;
    lemma_crop_i32_bounds(x);
    let d = crop_i32(x) - x;
    assert(crop_i32(x) * y - x * y == d * y) by (nonlinear_arith)
        requires
            d == crop_i32(x) - x,
    ;
    lemma_mul_mod_noop_left(d, y, range);
    lemma_small_mod(0, range as nat);
    lemma_congruent_crop_i32(crop_i32(x) * y, x * y);
}

/// Multiplying by one wraps nowhere for the signed kind either.
pub proof fn lemma_wrapping_mul_one_i32(x: i32)
    ensures
        x.wrapping_mul(1) == x,
{
    lemma_crop_i32_identity(x as int);
}

/// Division truncated toward zero by one is the identity.
pub proof fn lemma_div_trunc_by_one(a: int)
    ensures
        div_trunc(a, 1) == a,
{
    if a > 0 {
        lemma_div_basics(a);
    } else if a < 0 {
        lemma_div_basics(a * -1);
    }
}

/// Truncating division undoes an exact product by its nonzero factor.
pub proof fn lemma_div_trunc_multiples_vanish(x: int, s: int)
    requires
        s != 0,
    ensures
        div_trunc(x * s, s) == x,
{
    let p = x * s;
    if x == 0 {
    } else if x > 0 && s > 0 {
        assert(p > 0) by (nonlinear_arith)
            requires
                p == x * s && x > 0 && s > 0,
        ;
        lemma_div_multiples_vanish(x, s);
        assert(s * x == x * s);
    } else if x > 0 && s < 0 {
        assert(p < 0 && p * -1 == x * (s * -1)) by (nonlinear_arith)
            requires
                p == x * s && x > 0 && s < 0,
        ;
        lemma_div_multiples_vanish(x, s * -1);
        assert((s * -1) * x == x * (s * -1));
    } else if x < 0 && s > 0 {
        assert(p < 0 && p * -1 == (x * -1) * s) by (nonlinear_arith)
            requires
                p == x * s && x < 0 && s > 0,
        ;
        lemma_div_multiples_vanish(x * -1, s);
        assert(s * (x * -1) == (x * -1) * s);
    } else {
        assert(p > 0 && p == (x * -1) * (s * -1)) by (nonlinear_arith)
            requires
                p == x * s && x < 0 && s < 0,
        ;
        lemma_div_multiples_vanish(x * -1, s * -1);
        assert((s * -1) * (x * -1) == (x * -1) * (s * -1));
    }
}

/// A signed product that stays in range, divided with truncation by its
/// nonzero factor, returns the other factor.
pub proof fn lemma_mul_div_exact_i32(x: i32, s: i32)
    requires
        s != 0,
        i32::MIN <= x * s <= i32::MAX,
    ensures
        div_trunc(x.wrapping_mul(s) as int, s as int) == x,
{
    lemma_crop_i32_identity(x as int * s as int);
    lemma_div_trunc_multiples_vanish(x as int, s as int);
}

/// One cross-product component against its mirrored partner: the wraparound
/// combination `p*q - r*s` is the wraparound negation of `s*r - q*p`.
pub proof fn lemma_cross_component_antisym_i32(p: i32, q: i32, r: i32, s: i32)
    ensures
        p.wrapping_mul(q).wrapping_add(wneg_i32(r).wrapping_mul(s)) == wneg_i32(
            s.wrapping_mul(r).wrapping_add(wneg_i32(q).wrapping_mul(p)),
        ),
{
    let lhs = p.wrapping_mul(q).wrapping_add(wneg_i32(r).wrapping_mul(s));
    lemma_wsub_crop_i32(0, r);
    lemma_crop_i32_mul_left(-(r as int), s as int);
    assert(wneg_i32(r).wrapping_mul(s) == crop_i32(-(r as int) * (s as int)));
    lemma_wadd_crop_i32(p.wrapping_mul(q), wneg_i32(r).wrapping_mul(s));
    lemma_crop_i32_add2(p as int * q as int, -(r as int) * (s as int));
    assert(p as int * q as int + -(r as int) * (s as int) == p as int * q as int - r as int * s
        as int) by (nonlinear_arith);
    assert(lhs == crop_i32(p as int * q as int - r as int * s as int));

    let inner = s.wrapping_mul(r).wrapping_add(wneg_i32(q).wrapping_mul(p));
    lemma_wsub_crop_i32(0, q);
    lemma_crop_i32_mul_left(-(q as int), p as int);
    assert(wneg_i32(q).wrapping_mul(p) == crop_i32(-(q as int) * (p as int)));
    lemma_wadd_crop_i32(s.wrapping_mul(r), wneg_i32(q).wrapping_mul(p));
    lemma_crop_i32_add2(s as int * r as int, -(q as int) * (p as int));
    assert(s as int * r as int + -(q as int) * (p as int) == s as int * r as int - q as int * p
        as int) by (nonlinear_arith);
    assert(inner == crop_i32(s as int * r as int - q as int * p as int));

    lemma_wsub_crop_i32(0, inner);
    lemma_crop_i32_mul_left(s as int * r as int - q as int * p as int, -1);
    assert(crop_i32(s as int * r as int - q as int * p as int) * -1 == -(inner as int));
    assert((s as int * r as int - q as int * p as int) * -1 == p as int * q as int - r as int * s
        as int) by (nonlinear_arith);
    assert(wneg_i32(inner) == crop_i32(p as int * q as int - r as int * s as int));
}

/// The four little-endian bytes of one unsigned element.
pub open spec fn u32_le_bytes(v: u32) -> Seq<u8> {
    seq![
        (v & 0xff) as u8,
        ((v >> 8) & 0xff) as u8,
        ((v >> 16) & 0xff) as u8,
        ((v >> 24) & 0xff) as u8,
    ]
}

/// The four little-endian bytes of one signed element, in two's complement.
pub open spec fn i32_le_bytes(v: i32) -> Seq<u8> {
    u32_le_bytes(v as u32)
}

/// Appends the packed little-endian image of one unsigned element.
pub fn push_u32_le(out: &mut Vec<u8>, v: u32)
    ensures
        final(out)@ == old(out)@ + u32_le_bytes(v),
{
    out.push(#[verifier::truncate] ((v & 0xff) as u8));
    out.push(#[verifier::truncate] (((v >> 8) & 0xff) as u8));
    out.push(#[verifier::truncate] (((v >> 16) & 0xff) as u8));
    out.push(#[verifier::truncate] (((v >> 24) & 0xff) as u8));
    proof {
        assert(out@ =~= old(out)@ + u32_le_bytes(v));
    }
}

/// Appends the packed little-endian image of one signed element.
pub fn push_i32_le(out: &mut Vec<u8>, v: i32)
    ensures
        final(out)@ == old(out)@ + i32_le_bytes(v),
{
    push_u32_le(out, v as u32);
}

} // verus!
