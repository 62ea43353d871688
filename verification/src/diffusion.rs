//! The diffusion layer undoes itself: applying [`Grid::mix_columns`](crate::grid::Grid::mix_columns)
//! twice gives back the grid, because every diffusion matrix is an involutory Hadamard matrix
//! over $\mathbb{F}_{2^{64}}$.
//!
//! The argument: multiplication by a field element distributes over XOR; a product of two
//! coefficients is a short chain of [`gf::spec_xtime`] steps; the matrix entry at $(i, j)$
//! depends on $i \oplus j$ only, so the squared matrix's entry at $(y, j)$ is a sum over one
//! row that depends on $y \oplus j$ only; and those sums are one on the diagonal and zero
//! elsewhere.

use vstd::prelude::*;

use crate::consts::spec_mds_row;
use crate::gf::{gf_mul, mul_term, mul_upto, spec_xtime, xtime_pow};
use crate::grid::{
    dims_ok, lemma_cell_index, lemma_limb_roundtrip, lemma_split_index, lemma_xor_index, mix_cell, spec_mix_columns, xor_index,
    xor_seq,
};

verus! {

/// $\bigoplus_{k < n} f(k)$.
pub open spec fn xsum(f: spec_fn(int) -> u64, n: nat) -> u64
    decreases n,
{
    if n == 0 {
        0u64
    } else {
        xsum(f, (n - 1) as nat) ^ f(n - 1)
    }
}

proof fn lemma_xor_swap(a: u64, b: u64, c: u64, d: u64)
    ensures
        (a ^ b) ^ (c ^ d) == (a ^ c) ^ (b ^ d),
        a ^ 0u64 == a,
        0u64 ^ a == a,
        a ^ a == 0u64,
        (a ^ b) ^ c == a ^ (b ^ c),
        a ^ b == b ^ a,
{
    assert((a ^ b) ^ (c ^ d) == (a ^ c) ^ (b ^ d)) by (bit_vector);
    assert(a ^ 0u64 == a && 0u64 ^ a == a && a ^ a == 0u64) by (bit_vector);
    assert((a ^ b) ^ c == a ^ (b ^ c) && a ^ b == b ^ a) by (bit_vector);
}

/// The XOR of a sum of two functions is the XOR of their sums.
proof fn lemma_xsum_add(f: spec_fn(int) -> u64, g: spec_fn(int) -> u64, n: nat)
    ensures
        xsum(|k: int| f(k) ^ g(k), n) == xsum(f, n) ^ xsum(g, n),
    decreases n,
{
    if n == 0 {
        lemma_xor_swap(0, 0, 0, 0);
    } else {
        lemma_xsum_add(f, g, (n - 1) as nat);
        lemma_xor_swap(xsum(f, (n - 1) as nat), xsum(g, (n - 1) as nat), f(n - 1), g(n - 1));
    }
}

/// Sums that agree term by term are equal.
proof fn lemma_xsum_ext(f: spec_fn(int) -> u64, g: spec_fn(int) -> u64, n: nat)
    requires
        forall|k: int| 0 <= k < n ==> #[trigger] f(k) == g(k),
    ensures
        xsum(f, n) == xsum(g, n),
    decreases n,
{
    if n > 0 {
        lemma_xsum_ext(f, g, (n - 1) as nat);
    }
}

/// The order of a double XOR sum does not matter.
proof fn lemma_xsum_swap(f: spec_fn(int, int) -> u64, n: nat, m: nat)
    ensures
        xsum(|k: int| xsum(|j: int| f(k, j), m), n) == xsum(|j: int| xsum(|k: int| f(k, j), n), m),
    decreases n,
{
    if n == 0 {
        lemma_xsum_zero(m);
        lemma_xsum_ext(|j: int| xsum(|k: int| f(k, j), 0), |j: int| 0u64, m);
    } else {
        lemma_xsum_swap(f, (n - 1) as nat, m);
        let prev = |j: int| xsum(|k: int| f(k, j), (n - 1) as nat);
        let last = |j: int| f(n - 1, j);
        lemma_xsum_add(prev, last, m);
        assert forall|j: int| 0 <= j < m implies #[trigger] prev(j) ^ last(j) == xsum(|k: int| f(k, j), n) by {}
        lemma_xsum_ext(|j: int| prev(j) ^ last(j), |j: int| xsum(|k: int| f(k, j), n), m);
    }
}

/// A sum of zeros is zero.
proof fn lemma_xsum_zero(n: nat)
    ensures
        xsum(|k: int| 0u64, n) == 0u64,
    decreases n,
{
    if n > 0 {
        lemma_xsum_zero((n - 1) as nat);
        lemma_xor_swap(0, 0, 0, 0);
    }
}

/// A sum whose terms vanish except at `y` is the term at `y`.
proof fn lemma_xsum_single(f: spec_fn(int) -> u64, n: nat, y: int)
    requires
        0 <= y < n,
        forall|k: int| 0 <= k < n && k != y ==> #[trigger] f(k) == 0u64,
    ensures
        xsum(f, n) == f(y),
    decreases n,
{
    if n - 1 == y {
        lemma_xsum_ext(f, |k: int| 0u64, (n - 1) as nat);
        lemma_xsum_zero((n - 1) as nat);
        lemma_xor_swap(f(y), 0, 0, 0);
    } else {
        lemma_xsum_single(f, (n - 1) as nat, y);
        lemma_xor_swap(f(y), 0, 0, 0);
    }
}

/// Splitting a sum at `a`.
proof fn lemma_xsum_split(f: spec_fn(int) -> u64, a: nat, b: nat)
    ensures
        xsum(f, a + b) == xsum(f, a) ^ xsum(|k: int| f(k + a), b),
    decreases b,
{
    if b == 0 {
        lemma_xor_swap(xsum(f, a), 0, 0, 0);
    } else {
        lemma_xsum_split(f, a, (b - 1) as nat);
        lemma_xor_swap(xsum(f, a), xsum(|k: int| f(k + a), (b - 1) as nat), f(a + b - 1), 0);
        assert(xsum(f, a + b) == xsum(f, (a + b - 1) as nat) ^ f(a + b - 1));
    }
}

/// Multiplying by $x$ distributes over XOR.
proof fn lemma_xtime_linear(a: u64, b: u64)
    ensures
        spec_xtime(a ^ b) == spec_xtime(a) ^ spec_xtime(b),
        spec_xtime(0) == 0,
{
    assert(((a ^ b) << 1u64) ^ (0u64.wrapping_sub((a ^ b) >> 63u64) & 0x1Bu64) == (((a << 1u64) ^ (0u64.wrapping_sub(
        a >> 63u64,
    ) & 0x1Bu64)) ^ ((b << 1u64) ^ (0u64.wrapping_sub(b >> 63u64) & 0x1Bu64)))) by (bit_vector);
    assert(((0u64 << 1u64) ^ (0u64.wrapping_sub(0u64 >> 63u64) & 0x1Bu64)) == 0u64) by (bit_vector);
}

proof fn lemma_xtime_pow_linear(a: u64, b: u64, e: nat)
    ensures
        xtime_pow(a ^ b, e) == xtime_pow(a, e) ^ xtime_pow(b, e),
        xtime_pow(0, e) == 0,
    decreases e,
{
    if e > 0 {
        lemma_xtime_pow_linear(a, b, (e - 1) as nat);
        lemma_xtime_linear(xtime_pow(a, (e - 1) as nat), xtime_pow(b, (e - 1) as nat));
    }
}

proof fn lemma_mul_upto_linear(c: u64, a: u64, b: u64, n: nat)
    ensures
        mul_upto(c, a ^ b, n) == mul_upto(c, a, n) ^ mul_upto(c, b, n),
        mul_upto(c, 0, n) == 0,
    decreases n,
{
    if n == 0 {
        lemma_xor_swap(0, 0, 0, 0);
    } else {
        lemma_mul_upto_linear(c, a, b, (n - 1) as nat);
        lemma_xtime_pow_linear(a, b, (n - 1) as nat);
        lemma_xor_swap(mul_upto(c, a, (n - 1) as nat), mul_upto(c, b, (n - 1) as nat), mul_term(c, a, (n - 1) as nat), mul_term(c, b, (n - 1) as nat));
        lemma_xor_swap(0, 0, 0, 0);
    }
}

/// Multiplication by a field element distributes over XOR.
pub proof fn lemma_gf_mul_linear(c: u64, a: u64, b: u64)
    ensures
        gf_mul(c, a ^ b) == gf_mul(c, a) ^ gf_mul(c, b),
        gf_mul(c, 0) == 0,
{
    lemma_mul_upto_linear(c, a, b, 64);
}

/// Multiplication by a field element distributes over an XOR sum.
proof fn lemma_gf_mul_xsum(c: u64, g: spec_fn(int) -> u64, n: nat)
    ensures
        gf_mul(c, xsum(g, n)) == xsum(|j: int| gf_mul(c, g(j)), n),
    decreases n,
{
    if n == 0 {
        lemma_gf_mul_linear(c, 0, 0);
    } else {
        lemma_gf_mul_xsum(c, g, (n - 1) as nat);
        lemma_gf_mul_linear(c, xsum(g, (n - 1) as nat), g(n - 1));
    }
}

proof fn lemma_half_bits(k: u64, y: u64, h: u64)
    requires
        k < h,
        y < h,
        h == 1 || h == 2 || h == 4 || h == 8,
    ensures
        k ^ y < h,
        ((k + h) as u64) ^ y == (k ^ y) + h,
        k ^ ((y + h) as u64) == (k ^ y) + h,
        ((k + h) as u64) ^ ((y + h) as u64) == k ^ y,
{
    assert(k ^ y < h && ((k + h) as u64) ^ y == (k ^ y) + h && k ^ ((y + h) as u64) == (k ^ y) + h && ((k + h)
        as u64) ^ ((y + h) as u64) == k ^ y) by (bit_vector)
        requires
            k < h,
            y < h,
            h == 1 || h == 2 || h == 4 || h == 8,
    ;
}

proof fn lemma_half_index(k: int, y: int, h: int)
    requires
        0 <= k < h,
        0 <= y < h,
        h == 1 || h == 2 || h == 4 || h == 8,
    ensures
        0 <= xor_index(k, y) < h,
        xor_index(k + h, y) == xor_index(k, y) + h,
        xor_index(k, y + h) == xor_index(k, y) + h,
        xor_index(k + h, y + h) == xor_index(k, y),
{
    lemma_half_bits(k as u64, y as u64, h as u64);
}

/// Reindexing a sum over a power-of-two range by XOR with a fixed index does not change it.
proof fn lemma_xsum_translate(f: spec_fn(int) -> u64, h: nat, y: int)
    requires
        h == 1 || h == 2 || h == 4 || h == 8 || h == 16,
        0 <= y < h,
    ensures
        xsum(|k: int| f(xor_index(k, y)), h) == xsum(f, h),
    decreases h,
{
    if h == 1 {
        assert(xor_index(0, 0) == 0) by {
            assert(0u64 ^ 0u64 == 0u64) by (bit_vector);
        }
        assert(y == 0);
        assert(xsum(|k: int| f(xor_index(k, y)), 1) == xsum(|k: int| f(xor_index(k, y)), 0) ^ f(xor_index(0, y)));
        assert(f(xor_index(0, y)) == f(0));
        assert(xsum(f, 1) == xsum(f, 0) ^ f(0));
        assert(xsum(f, 0) == 0u64);
        assert(xsum(|k: int| f(xor_index(k, y)), 0) == 0u64);
        assert(xsum(|k: int| f(xor_index(k, y)), 1) == xsum(f, 1));
    } else {
        let half = h / 2;
        let g = |k: int| f(xor_index(k, y));
        let fh = |i: int| f(i + half);
        lemma_xsum_split(g, half, half);
        lemma_xsum_split(f, half, half);
        assert(half + half == h);
        if y < half {
            lemma_xsum_translate(f, half, y);
            lemma_xsum_translate(fh, half, y);
            assert forall|k: int| 0 <= k < half implies #[trigger] g(k + half) == (|k: int| fh(xor_index(k, y)))(k) by {
                lemma_half_index(k, y, half as int);
            }
            lemma_xsum_ext(|k: int| g(k + half), |k: int| fh(xor_index(k, y)), half);
            assert(xsum(g, half) == xsum(f, half));
            assert(xsum(|k: int| g(k + half), half) == xsum(fh, half));
            assert(xsum(|k: int| f(k + half), half) == xsum(fh, half));
            assert(xsum(g, h) == xsum(g, half) ^ xsum(|k: int| g(k + half), half));
            assert(xsum(f, h) == xsum(f, half) ^ xsum(|k: int| f(k + half), half));
            assert(xsum(g, h) == xsum(f, h));
        } else {
            let y2 = y - half;
            lemma_xsum_translate(f, half, y2);
            lemma_xsum_translate(fh, half, y2);
            assert forall|k: int| 0 <= k < half implies #[trigger] g(k) == (|k: int| fh(xor_index(k, y2)))(k) by {
                lemma_half_index(k, y2, half as int);
            }
            assert forall|k: int| 0 <= k < half implies #[trigger] g(k + half) == (|k: int| f(xor_index(k, y2)))(k) by {
                lemma_half_index(k, y2, half as int);
            }
            lemma_xsum_ext(g, |k: int| fh(xor_index(k, y2)), half);
            lemma_xsum_ext(|k: int| g(k + half), |k: int| f(xor_index(k, y2)), half);
            lemma_xor_swap(xsum(fh, half), xsum(f, half), 0, 0);
            assert(xsum(g, half) == xsum(fh, half));
            assert(xsum(|k: int| g(k + half), half) == xsum(f, half));
            assert(xsum(|k: int| f(k + half), half) == xsum(fh, half));
            assert(xsum(g, h) == xsum(g, half) ^ xsum(|k: int| g(k + half), half));
            assert(xsum(f, h) == xsum(f, half) ^ xsum(|k: int| f(k + half), half));
            assert(xsum(g, h) == xsum(f, h));
        }
    }
}

/// $\bigoplus_e c_e p_e$ over the low five bits $c_e$ of `c`, with $p_e$ standing for
/// $v \cdot x^e$.
pub open spec fn small_mul_pow(c: u64, p0: u64, p1: u64, p2: u64, p3: u64, p4: u64) -> u64 {
    (((((if c & 1u64 != 0u64 {
        p0
    } else {
        0u64
    }) ^ (if c & 2u64 != 0u64 {
        p1
    } else {
        0u64
    })) ^ (if c & 4u64 != 0u64 {
        p2
    } else {
        0u64
    })) ^ (if c & 8u64 != 0u64 {
        p3
    } else {
        0u64
    })) ^ (if c & 16u64 != 0u64 {
        p4
    } else {
        0u64
    }))
}

/// $c \cdot v$ for a coefficient below 32: the XOR of $v \cdot x^e$ over the set bits $e$ of $c$.
pub open spec fn small_mul(c: u64, v: u64) -> u64 {
    small_mul_pow(
        c,
        v,
        spec_xtime(v),
        spec_xtime(spec_xtime(v)),
        spec_xtime(spec_xtime(spec_xtime(v))),
        spec_xtime(spec_xtime(spec_xtime(spec_xtime(v)))),
    )
}

proof fn lemma_high_bits_clear(c: u64, e: u64)
    requires
        c < 32,
        5 <= e < 64,
    ensures
        (c >> e) & 1u64 != 1u64,
{
    assert((c >> e) & 1u64 != 1u64) by (bit_vector)
        requires
            c < 32,
            5 <= e < 64,
    ;
}

proof fn lemma_mul_upto_small(c: u64, v: u64, n: nat)
    requires
        c < 32,
        5 <= n <= 64,
    ensures
        mul_upto(c, v, n) == mul_upto(c, v, 5),
    decreases n,
{
    if n > 5 {
        lemma_mul_upto_small(c, v, (n - 1) as nat);
        lemma_high_bits_clear(c, (n - 1) as u64);
        assert(mul_term(c, v, (n - 1) as nat) == 0u64);
        lemma_xor_swap(mul_upto(c, v, (n - 1) as nat), 0, 0, 0);
    }
}

/// A product with a coefficient below 32 is [`small_mul`].
pub proof fn lemma_gf_mul_small(c: u64, v: u64)
    requires
        c < 32,
    ensures
        gf_mul(c, v) == small_mul(c, v),
{
    lemma_mul_upto_small(c, v, 64);
    reveal_with_fuel(xtime_pow, 5);
    reveal_with_fuel(mul_upto, 6);
    assert(((c >> 0u64) & 1u64 == 1u64) == (c & 1u64 != 0u64) && ((c >> 1u64) & 1u64 == 1u64) == (c & 2u64 != 0u64)
        && ((c >> 2u64) & 1u64 == 1u64) == (c & 4u64 != 0u64) && ((c >> 3u64) & 1u64 == 1u64) == (c & 8u64 != 0u64)
        && ((c >> 4u64) & 1u64 == 1u64) == (c & 16u64 != 0u64)) by (bit_vector);
    let t0 = mul_term(c, v, 0);
    lemma_xor_swap(t0, 0, 0, 0);
}

proof fn lemma_gf_mul_small_all()
    ensures
        forall|c: u64, v: u64| c < 32 ==> #[trigger] gf_mul(c, v) == small_mul(c, v),
{
    assert forall|c: u64, v: u64| c < 32 implies #[trigger] gf_mul(c, v) == small_mul(c, v) by {
        lemma_gf_mul_small(c, v);
    }
}

/// The entries of the squared diffusion matrix of order 4, at distance `d` from the diagonal:
/// one on the diagonal, zero off it.
proof fn lemma_square_4(v: u64)
    ensures
        ((((0u64 ^ small_mul(1u64, small_mul(1u64, v))) ^ small_mul(2u64, small_mul(2u64, v))) ^ small_mul(4u64, small_mul(4u64, v))) ^ small_mul(6u64, small_mul(6u64, v))) == v,
        ((((0u64 ^ small_mul(1u64, small_mul(2u64, v))) ^ small_mul(2u64, small_mul(1u64, v))) ^ small_mul(4u64, small_mul(6u64, v))) ^ small_mul(6u64, small_mul(4u64, v))) == 0u64,
        ((((0u64 ^ small_mul(1u64, small_mul(4u64, v))) ^ small_mul(2u64, small_mul(6u64, v))) ^ small_mul(4u64, small_mul(1u64, v))) ^ small_mul(6u64, small_mul(2u64, v))) == 0u64,
        ((((0u64 ^ small_mul(1u64, small_mul(6u64, v))) ^ small_mul(2u64, small_mul(4u64, v))) ^ small_mul(4u64, small_mul(2u64, v))) ^ small_mul(6u64, small_mul(1u64, v))) == 0u64,
{
    let x0 = v;
    let x1 = spec_xtime(x0);
    let x2 = spec_xtime(x1);
    let x3 = spec_xtime(x2);
    let x4 = spec_xtime(x3);
    let w1_0 = small_mul_pow(1u64, x0, x1, x2, x3, x4);
    let w1_1 = spec_xtime(w1_0);
    let w1_2 = spec_xtime(w1_1);
    let w1_3 = spec_xtime(w1_2);
    let w1_4 = spec_xtime(w1_3);
    let w2_0 = small_mul_pow(2u64, x0, x1, x2, x3, x4);
    let w2_1 = spec_xtime(w2_0);
    let w2_2 = spec_xtime(w2_1);
    let w2_3 = spec_xtime(w2_2);
    let w2_4 = spec_xtime(w2_3);
    let w4_0 = small_mul_pow(4u64, x0, x1, x2, x3, x4);
    let w4_1 = spec_xtime(w4_0);
    let w4_2 = spec_xtime(w4_1);
    let w4_3 = spec_xtime(w4_2);
    let w4_4 = spec_xtime(w4_3);
    let w6_0 = small_mul_pow(6u64, x0, x1, x2, x3, x4);
    let w6_1 = spec_xtime(w6_0);
    let w6_2 = spec_xtime(w6_1);
    let w6_3 = spec_xtime(w6_2);
    let w6_4 = spec_xtime(w6_3);
    assert(((((0u64 ^ small_mul_pow(1u64, w1_0, w1_1, w1_2, w1_3, w1_4)) ^ small_mul_pow(2u64, w2_0, w2_1, w2_2, w2_3, w2_4)) ^ small_mul_pow(4u64, w4_0, w4_1, w4_2, w4_3, w4_4)) ^ small_mul_pow(6u64, w6_0, w6_1, w6_2, w6_3, w6_4)) == x0 && ((((0u64 ^ small_mul_pow(1u64, w2_0, w2_1, w2_2, w2_3, w2_4)) ^ small_mul_pow(2u64, w1_0, w1_1, w1_2, w1_3, w1_4)) ^ small_mul_pow(4u64, w6_0, w6_1, w6_2, w6_3, w6_4)) ^ small_mul_pow(6u64, w4_0, w4_1, w4_2, w4_3, w4_4)) == 0u64 && ((((0u64 ^ small_mul_pow(1u64, w4_0, w4_1, w4_2, w4_3, w4_4)) ^ small_mul_pow(2u64, w6_0, w6_1, w6_2, w6_3, w6_4)) ^ small_mul_pow(4u64, w1_0, w1_1, w1_2, w1_3, w1_4)) ^ small_mul_pow(6u64, w2_0, w2_1, w2_2, w2_3, w2_4)) == 0u64 && ((((0u64 ^ small_mul_pow(1u64, w6_0, w6_1, w6_2, w6_3, w6_4)) ^ small_mul_pow(2u64, w4_0, w4_1, w4_2, w4_3, w4_4)) ^ small_mul_pow(4u64, w2_0, w2_1, w2_2, w2_3, w2_4)) ^ small_mul_pow(6u64, w1_0, w1_1, w1_2, w1_3, w1_4)) == 0u64) by (bit_vector)
        requires
            x1 == spec_xtime(x0),
            x2 == spec_xtime(x1),
            x3 == spec_xtime(x2),
            x4 == spec_xtime(x3),
            w1_0 == small_mul_pow(1u64, x0, x1, x2, x3, x4),
            w1_1 == spec_xtime(w1_0),
            w1_2 == spec_xtime(w1_1),
            w1_3 == spec_xtime(w1_2),
            w1_4 == spec_xtime(w1_3),
            w2_0 == small_mul_pow(2u64, x0, x1, x2, x3, x4),
            w2_1 == spec_xtime(w2_0),
            w2_2 == spec_xtime(w2_1),
            w2_3 == spec_xtime(w2_2),
            w2_4 == spec_xtime(w2_3),
            w4_0 == small_mul_pow(4u64, x0, x1, x2, x3, x4),
            w4_1 == spec_xtime(w4_0),
            w4_2 == spec_xtime(w4_1),
            w4_3 == spec_xtime(w4_2),
            w4_4 == spec_xtime(w4_3),
            w6_0 == small_mul_pow(6u64, x0, x1, x2, x3, x4),
            w6_1 == spec_xtime(w6_0),
            w6_2 == spec_xtime(w6_1),
            w6_3 == spec_xtime(w6_2),
            w6_4 == spec_xtime(w6_3),
    ;
}

/// The entries of the squared diffusion matrix of order 8, at distance `d` from the diagonal:
/// one on the diagonal, zero off it.
proof fn lemma_square_8(v: u64)
    ensures
        ((((((((0u64 ^ small_mul(1u64, small_mul(1u64, v))) ^ small_mul(2u64, small_mul(2u64, v))) ^ small_mul(4u64, small_mul(4u64, v))) ^ small_mul(6u64, small_mul(6u64, v))) ^ small_mul(8u64, small_mul(8u64, v))) ^ small_mul(10u64, small_mul(10u64, v))) ^ small_mul(12u64, small_mul(12u64, v))) ^ small_mul(14u64, small_mul(14u64, v))) == v,
        ((((((((0u64 ^ small_mul(1u64, small_mul(2u64, v))) ^ small_mul(2u64, small_mul(1u64, v))) ^ small_mul(4u64, small_mul(6u64, v))) ^ small_mul(6u64, small_mul(4u64, v))) ^ small_mul(8u64, small_mul(10u64, v))) ^ small_mul(10u64, small_mul(8u64, v))) ^ small_mul(12u64, small_mul(14u64, v))) ^ small_mul(14u64, small_mul(12u64, v))) == 0u64,
        ((((((((0u64 ^ small_mul(1u64, small_mul(4u64, v))) ^ small_mul(2u64, small_mul(6u64, v))) ^ small_mul(4u64, small_mul(1u64, v))) ^ small_mul(6u64, small_mul(2u64, v))) ^ small_mul(8u64, small_mul(12u64, v))) ^ small_mul(10u64, small_mul(14u64, v))) ^ small_mul(12u64, small_mul(8u64, v))) ^ small_mul(14u64, small_mul(10u64, v))) == 0u64,
        ((((((((0u64 ^ small_mul(1u64, small_mul(6u64, v))) ^ small_mul(2u64, small_mul(4u64, v))) ^ small_mul(4u64, small_mul(2u64, v))) ^ small_mul(6u64, small_mul(1u64, v))) ^ small_mul(8u64, small_mul(14u64, v))) ^ small_mul(10u64, small_mul(12u64, v))) ^ small_mul(12u64, small_mul(10u64, v))) ^ small_mul(14u64, small_mul(8u64, v))) == 0u64,
        ((((((((0u64 ^ small_mul(1u64, small_mul(8u64, v))) ^ small_mul(2u64, small_mul(10u64, v))) ^ small_mul(4u64, small_mul(12u64, v))) ^ small_mul(6u64, small_mul(14u64, v))) ^ small_mul(8u64, small_mul(1u64, v))) ^ small_mul(10u64, small_mul(2u64, v))) ^ small_mul(12u64, small_mul(4u64, v))) ^ small_mul(14u64, small_mul(6u64, v))) == 0u64,
        ((((((((0u64 ^ small_mul(1u64, small_mul(10u64, v))) ^ small_mul(2u64, small_mul(8u64, v))) ^ small_mul(4u64, small_mul(14u64, v))) ^ small_mul(6u64, small_mul(12u64, v))) ^ small_mul(8u64, small_mul(2u64, v))) ^ small_mul(10u64, small_mul(1u64, v))) ^ small_mul(12u64, small_mul(6u64, v))) ^ small_mul(14u64, small_mul(4u64, v))) == 0u64,
        ((((((((0u64 ^ small_mul(1u64, small_mul(12u64, v))) ^ small_mul(2u64, small_mul(14u64, v))) ^ small_mul(4u64, small_mul(8u64, v))) ^ small_mul(6u64, small_mul(10u64, v))) ^ small_mul(8u64, small_mul(4u64, v))) ^ small_mul(10u64, small_mul(6u64, v))) ^ small_mul(12u64, small_mul(1u64, v))) ^ small_mul(14u64, small_mul(2u64, v))) == 0u64,
        ((((((((0u64 ^ small_mul(1u64, small_mul(14u64, v))) ^ small_mul(2u64, small_mul(12u64, v))) ^ small_mul(4u64, small_mul(10u64, v))) ^ small_mul(6u64, small_mul(8u64, v))) ^ small_mul(8u64, small_mul(6u64, v))) ^ small_mul(10u64, small_mul(4u64, v))) ^ small_mul(12u64, small_mul(2u64, v))) ^ small_mul(14u64, small_mul(1u64, v))) == 0u64,
{
    let x0 = v;
    let x1 = spec_xtime(x0);
    let x2 = spec_xtime(x1);
    let x3 = spec_xtime(x2);
    let x4 = spec_xtime(x3);
    let w1_0 = small_mul_pow(1u64, x0, x1, x2, x3, x4);
    let w1_1 = spec_xtime(w1_0);
    let w1_2 = spec_xtime(w1_1);
    let w1_3 = spec_xtime(w1_2);
    let w1_4 = spec_xtime(w1_3);
    let w2_0 = small_mul_pow(2u64, x0, x1, x2, x3, x4);
    let w2_1 = spec_xtime(w2_0);
    let w2_2 = spec_xtime(w2_1);
    let w2_3 = spec_xtime(w2_2);
    let w2_4 = spec_xtime(w2_3);
    let w4_0 = small_mul_pow(4u64, x0, x1, x2, x3, x4);
    let w4_1 = spec_xtime(w4_0);
    let w4_2 = spec_xtime(w4_1);
    let w4_3 = spec_xtime(w4_2);
    let w4_4 = spec_xtime(w4_3);
    let w6_0 = small_mul_pow(6u64, x0, x1, x2, x3, x4);
    let w6_1 = spec_xtime(w6_0);
    let w6_2 = spec_xtime(w6_1);
    let w6_3 = spec_xtime(w6_2);
    let w6_4 = spec_xtime(w6_3);
    let w8_0 = small_mul_pow(8u64, x0, x1, x2, x3, x4);
    let w8_1 = spec_xtime(w8_0);
    let w8_2 = spec_xtime(w8_1);
    let w8_3 = spec_xtime(w8_2);
    let w8_4 = spec_xtime(w8_3);
    let w10_0 = small_mul_pow(10u64, x0, x1, x2, x3, x4);
    let w10_1 = spec_xtime(w10_0);
    let w10_2 = spec_xtime(w10_1);
    let w10_3 = spec_xtime(w10_2);
    let w10_4 = spec_xtime(w10_3);
    let w12_0 = small_mul_pow(12u64, x0, x1, x2, x3, x4);
    let w12_1 = spec_xtime(w12_0);
    let w12_2 = spec_xtime(w12_1);
    let w12_3 = spec_xtime(w12_2);
    let w12_4 = spec_xtime(w12_3);
    let w14_0 = small_mul_pow(14u64, x0, x1, x2, x3, x4);
    let w14_1 = spec_xtime(w14_0);
    let w14_2 = spec_xtime(w14_1);
    let w14_3 = spec_xtime(w14_2);
    let w14_4 = spec_xtime(w14_3);
    assert(((((((((0u64 ^ small_mul_pow(1u64, w1_0, w1_1, w1_2, w1_3, w1_4)) ^ small_mul_pow(2u64, w2_0, w2_1, w2_2, w2_3, w2_4)) ^ small_mul_pow(4u64, w4_0, w4_1, w4_2, w4_3, w4_4)) ^ small_mul_pow(6u64, w6_0, w6_1, w6_2, w6_3, w6_4)) ^ small_mul_pow(8u64, w8_0, w8_1, w8_2, w8_3, w8_4)) ^ small_mul_pow(10u64, w10_0, w10_1, w10_2, w10_3, w10_4)) ^ small_mul_pow(12u64, w12_0, w12_1, w12_2, w12_3, w12_4)) ^ small_mul_pow(14u64, w14_0, w14_1, w14_2, w14_3, w14_4)) == x0 && ((((((((0u64 ^ small_mul_pow(1u64, w2_0, w2_1, w2_2, w2_3, w2_4)) ^ small_mul_pow(2u64, w1_0, w1_1, w1_2, w1_3, w1_4)) ^ small_mul_pow(4u64, w6_0, w6_1, w6_2, w6_3, w6_4)) ^ small_mul_pow(6u64, w4_0, w4_1, w4_2, w4_3, w4_4)) ^ small_mul_pow(8u64, w10_0, w10_1, w10_2, w10_3, w10_4)) ^ small_mul_pow(10u64, w8_0, w8_1, w8_2, w8_3, w8_4)) ^ small_mul_pow(12u64, w14_0, w14_1, w14_2, w14_3, w14_4)) ^ small_mul_pow(14u64, w12_0, w12_1, w12_2, w12_3, w12_4)) == 0u64 && ((((((((0u64 ^ small_mul_pow(1u64, w4_0, w4_1, w4_2, w4_3, w4_4)) ^ small_mul_pow(2u64, w6_0, w6_1, w6_2, w6_3, w6_4)) ^ small_mul_pow(4u64, w1_0, w1_1, w1_2, w1_3, w1_4)) ^ small_mul_pow(6u64, w2_0, w2_1, w2_2, w2_3, w2_4)) ^ small_mul_pow(8u64, w12_0, w12_1, w12_2, w12_3, w12_4)) ^ small_mul_pow(10u64, w14_0, w14_1, w14_2, w14_3, w14_4)) ^ small_mul_pow(12u64, w8_0, w8_1, w8_2, w8_3, w8_4)) ^ small_mul_pow(14u64, w10_0, w10_1, w10_2, w10_3, w10_4)) == 0u64 && ((((((((0u64 ^ small_mul_pow(1u64, w6_0, w6_1, w6_2, w6_3, w6_4)) ^ small_mul_pow(2u64, w4_0, w4_1, w4_2, w4_3, w4_4)) ^ small_mul_pow(4u64, w2_0, w2_1, w2_2, w2_3, w2_4)) ^ small_mul_pow(6u64, w1_0, w1_1, w1_2, w1_3, w1_4)) ^ small_mul_pow(8u64, w14_0, w14_1, w14_2, w14_3, w14_4)) ^ small_mul_pow(10u64, w12_0, w12_1, w12_2, w12_3, w12_4)) ^ small_mul_pow(12u64, w10_0, w10_1, w10_2, w10_3, w10_4)) ^ small_mul_pow(14u64, w8_0, w8_1, w8_2, w8_3, w8_4)) == 0u64 && ((((((((0u64 ^ small_mul_pow(1u64, w8_0, w8_1, w8_2, w8_3, w8_4)) ^ small_mul_pow(2u64, w10_0, w10_1, w10_2, w10_3, w10_4)) ^ small_mul_pow(4u64, w12_0, w12_1, w12_2, w12_3, w12_4)) ^ small_mul_pow(6u64, w14_0, w14_1, w14_2, w14_3, w14_4)) ^ small_mul_pow(8u64, w1_0, w1_1, w1_2, w1_3, w1_4)) ^ small_mul_pow(10u64, w2_0, w2_1, w2_2, w2_3, w2_4)) ^ small_mul_pow(12u64, w4_0, w4_1, w4_2, w4_3, w4_4)) ^ small_mul_pow(14u64, w6_0, w6_1, w6_2, w6_3, w6_4)) == 0u64 && ((((((((0u64 ^ small_mul_pow(1u64, w10_0, w10_1, w10_2, w10_3, w10_4)) ^ small_mul_pow(2u64, w8_0, w8_1, w8_2, w8_3, w8_4)) ^ small_mul_pow(4u64, w14_0, w14_1, w14_2, w14_3, w14_4)) ^ small_mul_pow(6u64, w12_0, w12_1, w12_2, w12_3, w12_4)) ^ small_mul_pow(8u64, w2_0, w2_1, w2_2, w2_3, w2_4)) ^ small_mul_pow(10u64, w1_0, w1_1, w1_2, w1_3, w1_4)) ^ small_mul_pow(12u64, w6_0, w6_1, w6_2, w6_3, w6_4)) ^ small_mul_pow(14u64, w4_0, w4_1, w4_2, w4_3, w4_4)) == 0u64 && ((((((((0u64 ^ small_mul_pow(1u64, w12_0, w12_1, w12_2, w12_3, w12_4)) ^ small_mul_pow(2u64, w14_0, w14_1, w14_2, w14_3, w14_4)) ^ small_mul_pow(4u64, w8_0, w8_1, w8_2, w8_3, w8_4)) ^ small_mul_pow(6u64, w10_0, w10_1, w10_2, w10_3, w10_4)) ^ small_mul_pow(8u64, w4_0, w4_1, w4_2, w4_3, w4_4)) ^ small_mul_pow(10u64, w6_0, w6_1, w6_2, w6_3, w6_4)) ^ small_mul_pow(12u64, w1_0, w1_1, w1_2, w1_3, w1_4)) ^ small_mul_pow(14u64, w2_0, w2_1, w2_2, w2_3, w2_4)) == 0u64 && ((((((((0u64 ^ small_mul_pow(1u64, w14_0, w14_1, w14_2, w14_3, w14_4)) ^ small_mul_pow(2u64, w12_0, w12_1, w12_2, w12_3, w12_4)) ^ small_mul_pow(4u64, w10_0, w10_1, w10_2, w10_3, w10_4)) ^ small_mul_pow(6u64, w8_0, w8_1, w8_2, w8_3, w8_4)) ^ small_mul_pow(8u64, w6_0, w6_1, w6_2, w6_3, w6_4)) ^ small_mul_pow(10u64, w4_0, w4_1, w4_2, w4_3, w4_4)) ^ small_mul_pow(12u64, w2_0, w2_1, w2_2, w2_3, w2_4)) ^ small_mul_pow(14u64, w1_0, w1_1, w1_2, w1_3, w1_4)) == 0u64) by (bit_vector)
        requires
            x1 == spec_xtime(x0),
            x2 == spec_xtime(x1),
            x3 == spec_xtime(x2),
            x4 == spec_xtime(x3),
            w1_0 == small_mul_pow(1u64, x0, x1, x2, x3, x4),
            w1_1 == spec_xtime(w1_0),
            w1_2 == spec_xtime(w1_1),
            w1_3 == spec_xtime(w1_2),
            w1_4 == spec_xtime(w1_3),
            w2_0 == small_mul_pow(2u64, x0, x1, x2, x3, x4),
            w2_1 == spec_xtime(w2_0),
            w2_2 == spec_xtime(w2_1),
            w2_3 == spec_xtime(w2_2),
            w2_4 == spec_xtime(w2_3),
            w4_0 == small_mul_pow(4u64, x0, x1, x2, x3, x4),
            w4_1 == spec_xtime(w4_0),
            w4_2 == spec_xtime(w4_1),
            w4_3 == spec_xtime(w4_2),
            w4_4 == spec_xtime(w4_3),
            w6_0 == small_mul_pow(6u64, x0, x1, x2, x3, x4),
            w6_1 == spec_xtime(w6_0),
            w6_2 == spec_xtime(w6_1),
            w6_3 == spec_xtime(w6_2),
            w6_4 == spec_xtime(w6_3),
            w8_0 == small_mul_pow(8u64, x0, x1, x2, x3, x4),
            w8_1 == spec_xtime(w8_0),
            w8_2 == spec_xtime(w8_1),
            w8_3 == spec_xtime(w8_2),
            w8_4 == spec_xtime(w8_3),
            w10_0 == small_mul_pow(10u64, x0, x1, x2, x3, x4),
            w10_1 == spec_xtime(w10_0),
            w10_2 == spec_xtime(w10_1),
            w10_3 == spec_xtime(w10_2),
            w10_4 == spec_xtime(w10_3),
            w12_0 == small_mul_pow(12u64, x0, x1, x2, x3, x4),
            w12_1 == spec_xtime(w12_0),
            w12_2 == spec_xtime(w12_1),
            w12_3 == spec_xtime(w12_2),
            w12_4 == spec_xtime(w12_3),
            w14_0 == small_mul_pow(14u64, x0, x1, x2, x3, x4),
            w14_1 == spec_xtime(w14_0),
            w14_2 == spec_xtime(w14_1),
            w14_3 == spec_xtime(w14_2),
            w14_4 == spec_xtime(w14_3),
    ;
}

/// The entries of the squared diffusion matrix of order 16, at distance `d` from the diagonal:
/// one on the diagonal, zero off it.
#[verifier::rlimit(100)]
proof fn lemma_square_16(v: u64)
    ensures
        ((((((((((((((((0u64 ^ small_mul(1u64, small_mul(1u64, v))) ^ small_mul(2u64, small_mul(2u64, v))) ^ small_mul(4u64, small_mul(4u64, v))) ^ small_mul(6u64, small_mul(6u64, v))) ^ small_mul(8u64, small_mul(8u64, v))) ^ small_mul(10u64, small_mul(10u64, v))) ^ small_mul(12u64, small_mul(12u64, v))) ^ small_mul(14u64, small_mul(14u64, v))) ^ small_mul(16u64, small_mul(16u64, v))) ^ small_mul(18u64, small_mul(18u64, v))) ^ small_mul(20u64, small_mul(20u64, v))) ^ small_mul(22u64, small_mul(22u64, v))) ^ small_mul(24u64, small_mul(24u64, v))) ^ small_mul(26u64, small_mul(26u64, v))) ^ small_mul(28u64, small_mul(28u64, v))) ^ small_mul(30u64, small_mul(30u64, v))) == v,
        ((((((((((((((((0u64 ^ small_mul(1u64, small_mul(2u64, v))) ^ small_mul(2u64, small_mul(1u64, v))) ^ small_mul(4u64, small_mul(6u64, v))) ^ small_mul(6u64, small_mul(4u64, v))) ^ small_mul(8u64, small_mul(10u64, v))) ^ small_mul(10u64, small_mul(8u64, v))) ^ small_mul(12u64, small_mul(14u64, v))) ^ small_mul(14u64, small_mul(12u64, v))) ^ small_mul(16u64, small_mul(18u64, v))) ^ small_mul(18u64, small_mul(16u64, v))) ^ small_mul(20u64, small_mul(22u64, v))) ^ small_mul(22u64, small_mul(20u64, v))) ^ small_mul(24u64, small_mul(26u64, v))) ^ small_mul(26u64, small_mul(24u64, v))) ^ small_mul(28u64, small_mul(30u64, v))) ^ small_mul(30u64, small_mul(28u64, v))) == 0u64,
        ((((((((((((((((0u64 ^ small_mul(1u64, small_mul(4u64, v))) ^ small_mul(2u64, small_mul(6u64, v))) ^ small_mul(4u64, small_mul(1u64, v))) ^ small_mul(6u64, small_mul(2u64, v))) ^ small_mul(8u64, small_mul(12u64, v))) ^ small_mul(10u64, small_mul(14u64, v))) ^ small_mul(12u64, small_mul(8u64, v))) ^ small_mul(14u64, small_mul(10u64, v))) ^ small_mul(16u64, small_mul(20u64, v))) ^ small_mul(18u64, small_mul(22u64, v))) ^ small_mul(20u64, small_mul(16u64, v))) ^ small_mul(22u64, small_mul(18u64, v))) ^ small_mul(24u64, small_mul(28u64, v))) ^ small_mul(26u64, small_mul(30u64, v))) ^ small_mul(28u64, small_mul(24u64, v))) ^ small_mul(30u64, small_mul(26u64, v))) == 0u64,
        ((((((((((((((((0u64 ^ small_mul(1u64, small_mul(6u64, v))) ^ small_mul(2u64, small_mul(4u64, v))) ^ small_mul(4u64, small_mul(2u64, v))) ^ small_mul(6u64, small_mul(1u64, v))) ^ small_mul(8u64, small_mul(14u64, v))) ^ small_mul(10u64, small_mul(12u64, v))) ^ small_mul(12u64, small_mul(10u64, v))) ^ small_mul(14u64, small_mul(8u64, v))) ^ small_mul(16u64, small_mul(22u64, v))) ^ small_mul(18u64, small_mul(20u64, v))) ^ small_mul(20u64, small_mul(18u64, v))) ^ small_mul(22u64, small_mul(16u64, v))) ^ small_mul(24u64, small_mul(30u64, v))) ^ small_mul(26u64, small_mul(28u64, v))) ^ small_mul(28u64, small_mul(26u64, v))) ^ small_mul(30u64, small_mul(24u64, v))) == 0u64,
        ((((((((((((((((0u64 ^ small_mul(1u64, small_mul(8u64, v))) ^ small_mul(2u64, small_mul(10u64, v))) ^ small_mul(4u64, small_mul(12u64, v))) ^ small_mul(6u64, small_mul(14u64, v))) ^ small_mul(8u64, small_mul(1u64, v))) ^ small_mul(10u64, small_mul(2u64, v))) ^ small_mul(12u64, small_mul(4u64, v))) ^ small_mul(14u64, small_mul(6u64, v))) ^ small_mul(16u64, small_mul(24u64, v))) ^ small_mul(18u64, small_mul(26u64, v))) ^ small_mul(20u64, small_mul(28u64, v))) ^ small_mul(22u64, small_mul(30u64, v))) ^ small_mul(24u64, small_mul(16u64, v))) ^ small_mul(26u64, small_mul(18u64, v))) ^ small_mul(28u64, small_mul(20u64, v))) ^ small_mul(30u64, small_mul(22u64, v))) == 0u64,
        ((((((((((((((((0u64 ^ small_mul(1u64, small_mul(10u64, v))) ^ small_mul(2u64, small_mul(8u64, v))) ^ small_mul(4u64, small_mul(14u64, v))) ^ small_mul(6u64, small_mul(12u64, v))) ^ small_mul(8u64, small_mul(2u64, v))) ^ small_mul(10u64, small_mul(1u64, v))) ^ small_mul(12u64, small_mul(6u64, v))) ^ small_mul(14u64, small_mul(4u64, v))) ^ small_mul(16u64, small_mul(26u64, v))) ^ small_mul(18u64, small_mul(24u64, v))) ^ small_mul(20u64, small_mul(30u64, v))) ^ small_mul(22u64, small_mul(28u64, v))) ^ small_mul(24u64, small_mul(18u64, v))) ^ small_mul(26u64, small_mul(16u64, v))) ^ small_mul(28u64, small_mul(22u64, v))) ^ small_mul(30u64, small_mul(20u64, v))) == 0u64,
        ((((((((((((((((0u64 ^ small_mul(1u64, small_mul(12u64, v))) ^ small_mul(2u64, small_mul(14u64, v))) ^ small_mul(4u64, small_mul(8u64, v))) ^ small_mul(6u64, small_mul(10u64, v))) ^ small_mul(8u64, small_mul(4u64, v))) ^ small_mul(10u64, small_mul(6u64, v))) ^ small_mul(12u64, small_mul(1u64, v))) ^ small_mul(14u64, small_mul(2u64, v))) ^ small_mul(16u64, small_mul(28u64, v))) ^ small_mul(18u64, small_mul(30u64, v))) ^ small_mul(20u64, small_mul(24u64, v))) ^ small_mul(22u64, small_mul(26u64, v))) ^ small_mul(24u64, small_mul(20u64, v))) ^ small_mul(26u64, small_mul(22u64, v))) ^ small_mul(28u64, small_mul(16u64, v))) ^ small_mul(30u64, small_mul(18u64, v))) == 0u64,
        ((((((((((((((((0u64 ^ small_mul(1u64, small_mul(14u64, v))) ^ small_mul(2u64, small_mul(12u64, v))) ^ small_mul(4u64, small_mul(10u64, v))) ^ small_mul(6u64, small_mul(8u64, v))) ^ small_mul(8u64, small_mul(6u64, v))) ^ small_mul(10u64, small_mul(4u64, v))) ^ small_mul(12u64, small_mul(2u64, v))) ^ small_mul(14u64, small_mul(1u64, v))) ^ small_mul(16u64, small_mul(30u64, v))) ^ small_mul(18u64, small_mul(28u64, v))) ^ small_mul(20u64, small_mul(26u64, v))) ^ small_mul(22u64, small_mul(24u64, v))) ^ small_mul(24u64, small_mul(22u64, v))) ^ small_mul(26u64, small_mul(20u64, v))) ^ small_mul(28u64, small_mul(18u64, v))) ^ small_mul(30u64, small_mul(16u64, v))) == 0u64,
        ((((((((((((((((0u64 ^ small_mul(1u64, small_mul(16u64, v))) ^ small_mul(2u64, small_mul(18u64, v))) ^ small_mul(4u64, small_mul(20u64, v))) ^ small_mul(6u64, small_mul(22u64, v))) ^ small_mul(8u64, small_mul(24u64, v))) ^ small_mul(10u64, small_mul(26u64, v))) ^ small_mul(12u64, small_mul(28u64, v))) ^ small_mul(14u64, small_mul(30u64, v))) ^ small_mul(16u64, small_mul(1u64, v))) ^ small_mul(18u64, small_mul(2u64, v))) ^ small_mul(20u64, small_mul(4u64, v))) ^ small_mul(22u64, small_mul(6u64, v))) ^ small_mul(24u64, small_mul(8u64, v))) ^ small_mul(26u64, small_mul(10u64, v))) ^ small_mul(28u64, small_mul(12u64, v))) ^ small_mul(30u64, small_mul(14u64, v))) == 0u64,
        ((((((((((((((((0u64 ^ small_mul(1u64, small_mul(18u64, v))) ^ small_mul(2u64, small_mul(16u64, v))) ^ small_mul(4u64, small_mul(22u64, v))) ^ small_mul(6u64, small_mul(20u64, v))) ^ small_mul(8u64, small_mul(26u64, v))) ^ small_mul(10u64, small_mul(24u64, v))) ^ small_mul(12u64, small_mul(30u64, v))) ^ small_mul(14u64, small_mul(28u64, v))) ^ small_mul(16u64, small_mul(2u64, v))) ^ small_mul(18u64, small_mul(1u64, v))) ^ small_mul(20u64, small_mul(6u64, v))) ^ small_mul(22u64, small_mul(4u64, v))) ^ small_mul(24u64, small_mul(10u64, v))) ^ small_mul(26u64, small_mul(8u64, v))) ^ small_mul(28u64, small_mul(14u64, v))) ^ small_mul(30u64, small_mul(12u64, v))) == 0u64,
        ((((((((((((((((0u64 ^ small_mul(1u64, small_mul(20u64, v))) ^ small_mul(2u64, small_mul(22u64, v))) ^ small_mul(4u64, small_mul(16u64, v))) ^ small_mul(6u64, small_mul(18u64, v))) ^ small_mul(8u64, small_mul(28u64, v))) ^ small_mul(10u64, small_mul(30u64, v))) ^ small_mul(12u64, small_mul(24u64, v))) ^ small_mul(14u64, small_mul(26u64, v))) ^ small_mul(16u64, small_mul(4u64, v))) ^ small_mul(18u64, small_mul(6u64, v))) ^ small_mul(20u64, small_mul(1u64, v))) ^ small_mul(22u64, small_mul(2u64, v))) ^ small_mul(24u64, small_mul(12u64, v))) ^ small_mul(26u64, small_mul(14u64, v))) ^ small_mul(28u64, small_mul(8u64, v))) ^ small_mul(30u64, small_mul(10u64, v))) == 0u64,
        ((((((((((((((((0u64 ^ small_mul(1u64, small_mul(22u64, v))) ^ small_mul(2u64, small_mul(20u64, v))) ^ small_mul(4u64, small_mul(18u64, v))) ^ small_mul(6u64, small_mul(16u64, v))) ^ small_mul(8u64, small_mul(30u64, v))) ^ small_mul(10u64, small_mul(28u64, v))) ^ small_mul(12u64, small_mul(26u64, v))) ^ small_mul(14u64, small_mul(24u64, v))) ^ small_mul(16u64, small_mul(6u64, v))) ^ small_mul(18u64, small_mul(4u64, v))) ^ small_mul(20u64, small_mul(2u64, v))) ^ small_mul(22u64, small_mul(1u64, v))) ^ small_mul(24u64, small_mul(14u64, v))) ^ small_mul(26u64, small_mul(12u64, v))) ^ small_mul(28u64, small_mul(10u64, v))) ^ small_mul(30u64, small_mul(8u64, v))) == 0u64,
        ((((((((((((((((0u64 ^ small_mul(1u64, small_mul(24u64, v))) ^ small_mul(2u64, small_mul(26u64, v))) ^ small_mul(4u64, small_mul(28u64, v))) ^ small_mul(6u64, small_mul(30u64, v))) ^ small_mul(8u64, small_mul(16u64, v))) ^ small_mul(10u64, small_mul(18u64, v))) ^ small_mul(12u64, small_mul(20u64, v))) ^ small_mul(14u64, small_mul(22u64, v))) ^ small_mul(16u64, small_mul(8u64, v))) ^ small_mul(18u64, small_mul(10u64, v))) ^ small_mul(20u64, small_mul(12u64, v))) ^ small_mul(22u64, small_mul(14u64, v))) ^ small_mul(24u64, small_mul(1u64, v))) ^ small_mul(26u64, small_mul(2u64, v))) ^ small_mul(28u64, small_mul(4u64, v))) ^ small_mul(30u64, small_mul(6u64, v))) == 0u64,
        ((((((((((((((((0u64 ^ small_mul(1u64, small_mul(26u64, v))) ^ small_mul(2u64, small_mul(24u64, v))) ^ small_mul(4u64, small_mul(30u64, v))) ^ small_mul(6u64, small_mul(28u64, v))) ^ small_mul(8u64, small_mul(18u64, v))) ^ small_mul(10u64, small_mul(16u64, v))) ^ small_mul(12u64, small_mul(22u64, v))) ^ small_mul(14u64, small_mul(20u64, v))) ^ small_mul(16u64, small_mul(10u64, v))) ^ small_mul(18u64, small_mul(8u64, v))) ^ small_mul(20u64, small_mul(14u64, v))) ^ small_mul(22u64, small_mul(12u64, v))) ^ small_mul(24u64, small_mul(2u64, v))) ^ small_mul(26u64, small_mul(1u64, v))) ^ small_mul(28u64, small_mul(6u64, v))) ^ small_mul(30u64, small_mul(4u64, v))) == 0u64,
        ((((((((((((((((0u64 ^ small_mul(1u64, small_mul(28u64, v))) ^ small_mul(2u64, small_mul(30u64, v))) ^ small_mul(4u64, small_mul(24u64, v))) ^ small_mul(6u64, small_mul(26u64, v))) ^ small_mul(8u64, small_mul(20u64, v))) ^ small_mul(10u64, small_mul(22u64, v))) ^ small_mul(12u64, small_mul(16u64, v))) ^ small_mul(14u64, small_mul(18u64, v))) ^ small_mul(16u64, small_mul(12u64, v))) ^ small_mul(18u64, small_mul(14u64, v))) ^ small_mul(20u64, small_mul(8u64, v))) ^ small_mul(22u64, small_mul(10u64, v))) ^ small_mul(24u64, small_mul(4u64, v))) ^ small_mul(26u64, small_mul(6u64, v))) ^ small_mul(28u64, small_mul(1u64, v))) ^ small_mul(30u64, small_mul(2u64, v))) == 0u64,
        ((((((((((((((((0u64 ^ small_mul(1u64, small_mul(30u64, v))) ^ small_mul(2u64, small_mul(28u64, v))) ^ small_mul(4u64, small_mul(26u64, v))) ^ small_mul(6u64, small_mul(24u64, v))) ^ small_mul(8u64, small_mul(22u64, v))) ^ small_mul(10u64, small_mul(20u64, v))) ^ small_mul(12u64, small_mul(18u64, v))) ^ small_mul(14u64, small_mul(16u64, v))) ^ small_mul(16u64, small_mul(14u64, v))) ^ small_mul(18u64, small_mul(12u64, v))) ^ small_mul(20u64, small_mul(10u64, v))) ^ small_mul(22u64, small_mul(8u64, v))) ^ small_mul(24u64, small_mul(6u64, v))) ^ small_mul(26u64, small_mul(4u64, v))) ^ small_mul(28u64, small_mul(2u64, v))) ^ small_mul(30u64, small_mul(1u64, v))) == 0u64,
{
    let x0 = v;
    let x1 = spec_xtime(x0);
    let x2 = spec_xtime(x1);
    let x3 = spec_xtime(x2);
    let x4 = spec_xtime(x3);
    let w1_0 = small_mul_pow(1u64, x0, x1, x2, x3, x4);
    let w1_1 = spec_xtime(w1_0);
    let w1_2 = spec_xtime(w1_1);
    let w1_3 = spec_xtime(w1_2);
    let w1_4 = spec_xtime(w1_3);
    let w2_0 = small_mul_pow(2u64, x0, x1, x2, x3, x4);
    let w2_1 = spec_xtime(w2_0);
    let w2_2 = spec_xtime(w2_1);
    let w2_3 = spec_xtime(w2_2);
    let w2_4 = spec_xtime(w2_3);
    let w4_0 = small_mul_pow(4u64, x0, x1, x2, x3, x4);
    let w4_1 = spec_xtime(w4_0);
    let w4_2 = spec_xtime(w4_1);
    let w4_3 = spec_xtime(w4_2);
    let w4_4 = spec_xtime(w4_3);
    let w6_0 = small_mul_pow(6u64, x0, x1, x2, x3, x4);
    let w6_1 = spec_xtime(w6_0);
    let w6_2 = spec_xtime(w6_1);
    let w6_3 = spec_xtime(w6_2);
    let w6_4 = spec_xtime(w6_3);
    let w8_0 = small_mul_pow(8u64, x0, x1, x2, x3, x4);
    let w8_1 = spec_xtime(w8_0);
    let w8_2 = spec_xtime(w8_1);
    let w8_3 = spec_xtime(w8_2);
    let w8_4 = spec_xtime(w8_3);
    let w10_0 = small_mul_pow(10u64, x0, x1, x2, x3, x4);
    let w10_1 = spec_xtime(w10_0);
    let w10_2 = spec_xtime(w10_1);
    let w10_3 = spec_xtime(w10_2);
    let w10_4 = spec_xtime(w10_3);
    let w12_0 = small_mul_pow(12u64, x0, x1, x2, x3, x4);
    let w12_1 = spec_xtime(w12_0);
    let w12_2 = spec_xtime(w12_1);
    let w12_3 = spec_xtime(w12_2);
    let w12_4 = spec_xtime(w12_3);
    let w14_0 = small_mul_pow(14u64, x0, x1, x2, x3, x4);
    let w14_1 = spec_xtime(w14_0);
    let w14_2 = spec_xtime(w14_1);
    let w14_3 = spec_xtime(w14_2);
    let w14_4 = spec_xtime(w14_3);
    let w16_0 = small_mul_pow(16u64, x0, x1, x2, x3, x4);
    let w16_1 = spec_xtime(w16_0);
    let w16_2 = spec_xtime(w16_1);
    let w16_3 = spec_xtime(w16_2);
    let w16_4 = spec_xtime(w16_3);
    let w18_0 = small_mul_pow(18u64, x0, x1, x2, x3, x4);
    let w18_1 = spec_xtime(w18_0);
    let w18_2 = spec_xtime(w18_1);
    let w18_3 = spec_xtime(w18_2);
    let w18_4 = spec_xtime(w18_3);
    let w20_0 = small_mul_pow(20u64, x0, x1, x2, x3, x4);
    let w20_1 = spec_xtime(w20_0);
    let w20_2 = spec_xtime(w20_1);
    let w20_3 = spec_xtime(w20_2);
    let w20_4 = spec_xtime(w20_3);
    let w22_0 = small_mul_pow(22u64, x0, x1, x2, x3, x4);
    let w22_1 = spec_xtime(w22_0);
    let w22_2 = spec_xtime(w22_1);
    let w22_3 = spec_xtime(w22_2);
    let w22_4 = spec_xtime(w22_3);
    let w24_0 = small_mul_pow(24u64, x0, x1, x2, x3, x4);
    let w24_1 = spec_xtime(w24_0);
    let w24_2 = spec_xtime(w24_1);
    let w24_3 = spec_xtime(w24_2);
    let w24_4 = spec_xtime(w24_3);
    let w26_0 = small_mul_pow(26u64, x0, x1, x2, x3, x4);
    let w26_1 = spec_xtime(w26_0);
    let w26_2 = spec_xtime(w26_1);
    let w26_3 = spec_xtime(w26_2);
    let w26_4 = spec_xtime(w26_3);
    let w28_0 = small_mul_pow(28u64, x0, x1, x2, x3, x4);
    let w28_1 = spec_xtime(w28_0);
    let w28_2 = spec_xtime(w28_1);
    let w28_3 = spec_xtime(w28_2);
    let w28_4 = spec_xtime(w28_3);
    let w30_0 = small_mul_pow(30u64, x0, x1, x2, x3, x4);
    let w30_1 = spec_xtime(w30_0);
    let w30_2 = spec_xtime(w30_1);
    let w30_3 = spec_xtime(w30_2);
    let w30_4 = spec_xtime(w30_3);
    assert(((((((((((((((((0u64 ^ small_mul_pow(1u64, w1_0, w1_1, w1_2, w1_3, w1_4)) ^ small_mul_pow(2u64, w2_0, w2_1, w2_2, w2_3, w2_4)) ^ small_mul_pow(4u64, w4_0, w4_1, w4_2, w4_3, w4_4)) ^ small_mul_pow(6u64, w6_0, w6_1, w6_2, w6_3, w6_4)) ^ small_mul_pow(8u64, w8_0, w8_1, w8_2, w8_3, w8_4)) ^ small_mul_pow(10u64, w10_0, w10_1, w10_2, w10_3, w10_4)) ^ small_mul_pow(12u64, w12_0, w12_1, w12_2, w12_3, w12_4)) ^ small_mul_pow(14u64, w14_0, w14_1, w14_2, w14_3, w14_4)) ^ small_mul_pow(16u64, w16_0, w16_1, w16_2, w16_3, w16_4)) ^ small_mul_pow(18u64, w18_0, w18_1, w18_2, w18_3, w18_4)) ^ small_mul_pow(20u64, w20_0, w20_1, w20_2, w20_3, w20_4)) ^ small_mul_pow(22u64, w22_0, w22_1, w22_2, w22_3, w22_4)) ^ small_mul_pow(24u64, w24_0, w24_1, w24_2, w24_3, w24_4)) ^ small_mul_pow(26u64, w26_0, w26_1, w26_2, w26_3, w26_4)) ^ small_mul_pow(28u64, w28_0, w28_1, w28_2, w28_3, w28_4)) ^ small_mul_pow(30u64, w30_0, w30_1, w30_2, w30_3, w30_4)) == x0 && ((((((((((((((((0u64 ^ small_mul_pow(1u64, w2_0, w2_1, w2_2, w2_3, w2_4)) ^ small_mul_pow(2u64, w1_0, w1_1, w1_2, w1_3, w1_4)) ^ small_mul_pow(4u64, w6_0, w6_1, w6_2, w6_3, w6_4)) ^ small_mul_pow(6u64, w4_0, w4_1, w4_2, w4_3, w4_4)) ^ small_mul_pow(8u64, w10_0, w10_1, w10_2, w10_3, w10_4)) ^ small_mul_pow(10u64, w8_0, w8_1, w8_2, w8_3, w8_4)) ^ small_mul_pow(12u64, w14_0, w14_1, w14_2, w14_3, w14_4)) ^ small_mul_pow(14u64, w12_0, w12_1, w12_2, w12_3, w12_4)) ^ small_mul_pow(16u64, w18_0, w18_1, w18_2, w18_3, w18_4)) ^ small_mul_pow(18u64, w16_0, w16_1, w16_2, w16_3, w16_4)) ^ small_mul_pow(20u64, w22_0, w22_1, w22_2, w22_3, w22_4)) ^ small_mul_pow(22u64, w20_0, w20_1, w20_2, w20_3, w20_4)) ^ small_mul_pow(24u64, w26_0, w26_1, w26_2, w26_3, w26_4)) ^ small_mul_pow(26u64, w24_0, w24_1, w24_2, w24_3, w24_4)) ^ small_mul_pow(28u64, w30_0, w30_1, w30_2, w30_3, w30_4)) ^ small_mul_pow(30u64, w28_0, w28_1, w28_2, w28_3, w28_4)) == 0u64 && ((((((((((((((((0u64 ^ small_mul_pow(1u64, w4_0, w4_1, w4_2, w4_3, w4_4)) ^ small_mul_pow(2u64, w6_0, w6_1, w6_2, w6_3, w6_4)) ^ small_mul_pow(4u64, w1_0, w1_1, w1_2, w1_3, w1_4)) ^ small_mul_pow(6u64, w2_0, w2_1, w2_2, w2_3, w2_4)) ^ small_mul_pow(8u64, w12_0, w12_1, w12_2, w12_3, w12_4)) ^ small_mul_pow(10u64, w14_0, w14_1, w14_2, w14_3, w14_4)) ^ small_mul_pow(12u64, w8_0, w8_1, w8_2, w8_3, w8_4)) ^ small_mul_pow(14u64, w10_0, w10_1, w10_2, w10_3, w10_4)) ^ small_mul_pow(16u64, w20_0, w20_1, w20_2, w20_3, w20_4)) ^ small_mul_pow(18u64, w22_0, w22_1, w22_2, w22_3, w22_4)) ^ small_mul_pow(20u64, w16_0, w16_1, w16_2, w16_3, w16_4)) ^ small_mul_pow(22u64, w18_0, w18_1, w18_2, w18_3, w18_4)) ^ small_mul_pow(24u64, w28_0, w28_1, w28_2, w28_3, w28_4)) ^ small_mul_pow(26u64, w30_0, w30_1, w30_2, w30_3, w30_4)) ^ small_mul_pow(28u64, w24_0, w24_1, w24_2, w24_3, w24_4)) ^ small_mul_pow(30u64, w26_0, w26_1, w26_2, w26_3, w26_4)) == 0u64 && ((((((((((((((((0u64 ^ small_mul_pow(1u64, w6_0, w6_1, w6_2, w6_3, w6_4)) ^ small_mul_pow(2u64, w4_0, w4_1, w4_2, w4_3, w4_4)) ^ small_mul_pow(4u64, w2_0, w2_1, w2_2, w2_3, w2_4)) ^ small_mul_pow(6u64, w1_0, w1_1, w1_2, w1_3, w1_4)) ^ small_mul_pow(8u64, w14_0, w14_1, w14_2, w14_3, w14_4)) ^ small_mul_pow(10u64, w12_0, w12_1, w12_2, w12_3, w12_4)) ^ small_mul_pow(12u64, w10_0, w10_1, w10_2, w10_3, w10_4)) ^ small_mul_pow(14u64, w8_0, w8_1, w8_2, w8_3, w8_4)) ^ small_mul_pow(16u64, w22_0, w22_1, w22_2, w22_3, w22_4)) ^ small_mul_pow(18u64, w20_0, w20_1, w20_2, w20_3, w20_4)) ^ small_mul_pow(20u64, w18_0, w18_1, w18_2, w18_3, w18_4)) ^ small_mul_pow(22u64, w16_0, w16_1, w16_2, w16_3, w16_4)) ^ small_mul_pow(24u64, w30_0, w30_1, w30_2, w30_3, w30_4)) ^ small_mul_pow(26u64, w28_0, w28_1, w28_2, w28_3, w28_4)) ^ small_mul_pow(28u64, w26_0, w26_1, w26_2, w26_3, w26_4)) ^ small_mul_pow(30u64, w24_0, w24_1, w24_2, w24_3, w24_4)) == 0u64 && ((((((((((((((((0u64 ^ small_mul_pow(1u64, w8_0, w8_1, w8_2, w8_3, w8_4)) ^ small_mul_pow(2u64, w10_0, w10_1, w10_2, w10_3, w10_4)) ^ small_mul_pow(4u64, w12_0, w12_1, w12_2, w12_3, w12_4)) ^ small_mul_pow(6u64, w14_0, w14_1, w14_2, w14_3, w14_4)) ^ small_mul_pow(8u64, w1_0, w1_1, w1_2, w1_3, w1_4)) ^ small_mul_pow(10u64, w2_0, w2_1, w2_2, w2_3, w2_4)) ^ small_mul_pow(12u64, w4_0, w4_1, w4_2, w4_3, w4_4)) ^ small_mul_pow(14u64, w6_0, w6_1, w6_2, w6_3, w6_4)) ^ small_mul_pow(16u64, w24_0, w24_1, w24_2, w24_3, w24_4)) ^ small_mul_pow(18u64, w26_0, w26_1, w26_2, w26_3, w26_4)) ^ small_mul_pow(20u64, w28_0, w28_1, w28_2, w28_3, w28_4)) ^ small_mul_pow(22u64, w30_0, w30_1, w30_2, w30_3, w30_4)) ^ small_mul_pow(24u64, w16_0, w16_1, w16_2, w16_3, w16_4)) ^ small_mul_pow(26u64, w18_0, w18_1, w18_2, w18_3, w18_4)) ^ small_mul_pow(28u64, w20_0, w20_1, w20_2, w20_3, w20_4)) ^ small_mul_pow(30u64, w22_0, w22_1, w22_2, w22_3, w22_4)) == 0u64 && ((((((((((((((((0u64 ^ small_mul_pow(1u64, w10_0, w10_1, w10_2, w10_3, w10_4)) ^ small_mul_pow(2u64, w8_0, w8_1, w8_2, w8_3, w8_4)) ^ small_mul_pow(4u64, w14_0, w14_1, w14_2, w14_3, w14_4)) ^ small_mul_pow(6u64, w12_0, w12_1, w12_2, w12_3, w12_4)) ^ small_mul_pow(8u64, w2_0, w2_1, w2_2, w2_3, w2_4)) ^ small_mul_pow(10u64, w1_0, w1_1, w1_2, w1_3, w1_4)) ^ small_mul_pow(12u64, w6_0, w6_1, w6_2, w6_3, w6_4)) ^ small_mul_pow(14u64, w4_0, w4_1, w4_2, w4_3, w4_4)) ^ small_mul_pow(16u64, w26_0, w26_1, w26_2, w26_3, w26_4)) ^ small_mul_pow(18u64, w24_0, w24_1, w24_2, w24_3, w24_4)) ^ small_mul_pow(20u64, w30_0, w30_1, w30_2, w30_3, w30_4)) ^ small_mul_pow(22u64, w28_0, w28_1, w28_2, w28_3, w28_4)) ^ small_mul_pow(24u64, w18_0, w18_1, w18_2, w18_3, w18_4)) ^ small_mul_pow(26u64, w16_0, w16_1, w16_2, w16_3, w16_4)) ^ small_mul_pow(28u64, w22_0, w22_1, w22_2, w22_3, w22_4)) ^ small_mul_pow(30u64, w20_0, w20_1, w20_2, w20_3, w20_4)) == 0u64 && ((((((((((((((((0u64 ^ small_mul_pow(1u64, w12_0, w12_1, w12_2, w12_3, w12_4)) ^ small_mul_pow(2u64, w14_0, w14_1, w14_2, w14_3, w14_4)) ^ small_mul_pow(4u64, w8_0, w8_1, w8_2, w8_3, w8_4)) ^ small_mul_pow(6u64, w10_0, w10_1, w10_2, w10_3, w10_4)) ^ small_mul_pow(8u64, w4_0, w4_1, w4_2, w4_3, w4_4)) ^ small_mul_pow(10u64, w6_0, w6_1, w6_2, w6_3, w6_4)) ^ small_mul_pow(12u64, w1_0, w1_1, w1_2, w1_3, w1_4)) ^ small_mul_pow(14u64, w2_0, w2_1, w2_2, w2_3, w2_4)) ^ small_mul_pow(16u64, w28_0, w28_1, w28_2, w28_3, w28_4)) ^ small_mul_pow(18u64, w30_0, w30_1, w30_2, w30_3, w30_4)) ^ small_mul_pow(20u64, w24_0, w24_1, w24_2, w24_3, w24_4)) ^ small_mul_pow(22u64, w26_0, w26_1, w26_2, w26_3, w26_4)) ^ small_mul_pow(24u64, w20_0, w20_1, w20_2, w20_3, w20_4)) ^ small_mul_pow(26u64, w22_0, w22_1, w22_2, w22_3, w22_4)) ^ small_mul_pow(28u64, w16_0, w16_1, w16_2, w16_3, w16_4)) ^ small_mul_pow(30u64, w18_0, w18_1, w18_2, w18_3, w18_4)) == 0u64 && ((((((((((((((((0u64 ^ small_mul_pow(1u64, w14_0, w14_1, w14_2, w14_3, w14_4)) ^ small_mul_pow(2u64, w12_0, w12_1, w12_2, w12_3, w12_4)) ^ small_mul_pow(4u64, w10_0, w10_1, w10_2, w10_3, w10_4)) ^ small_mul_pow(6u64, w8_0, w8_1, w8_2, w8_3, w8_4)) ^ small_mul_pow(8u64, w6_0, w6_1, w6_2, w6_3, w6_4)) ^ small_mul_pow(10u64, w4_0, w4_1, w4_2, w4_3, w4_4)) ^ small_mul_pow(12u64, w2_0, w2_1, w2_2, w2_3, w2_4)) ^ small_mul_pow(14u64, w1_0, w1_1, w1_2, w1_3, w1_4)) ^ small_mul_pow(16u64, w30_0, w30_1, w30_2, w30_3, w30_4)) ^ small_mul_pow(18u64, w28_0, w28_1, w28_2, w28_3, w28_4)) ^ small_mul_pow(20u64, w26_0, w26_1, w26_2, w26_3, w26_4)) ^ small_mul_pow(22u64, w24_0, w24_1, w24_2, w24_3, w24_4)) ^ small_mul_pow(24u64, w22_0, w22_1, w22_2, w22_3, w22_4)) ^ small_mul_pow(26u64, w20_0, w20_1, w20_2, w20_3, w20_4)) ^ small_mul_pow(28u64, w18_0, w18_1, w18_2, w18_3, w18_4)) ^ small_mul_pow(30u64, w16_0, w16_1, w16_2, w16_3, w16_4)) == 0u64 && ((((((((((((((((0u64 ^ small_mul_pow(1u64, w16_0, w16_1, w16_2, w16_3, w16_4)) ^ small_mul_pow(2u64, w18_0, w18_1, w18_2, w18_3, w18_4)) ^ small_mul_pow(4u64, w20_0, w20_1, w20_2, w20_3, w20_4)) ^ small_mul_pow(6u64, w22_0, w22_1, w22_2, w22_3, w22_4)) ^ small_mul_pow(8u64, w24_0, w24_1, w24_2, w24_3, w24_4)) ^ small_mul_pow(10u64, w26_0, w26_1, w26_2, w26_3, w26_4)) ^ small_mul_pow(12u64, w28_0, w28_1, w28_2, w28_3, w28_4)) ^ small_mul_pow(14u64, w30_0, w30_1, w30_2, w30_3, w30_4)) ^ small_mul_pow(16u64, w1_0, w1_1, w1_2, w1_3, w1_4)) ^ small_mul_pow(18u64, w2_0, w2_1, w2_2, w2_3, w2_4)) ^ small_mul_pow(20u64, w4_0, w4_1, w4_2, w4_3, w4_4)) ^ small_mul_pow(22u64, w6_0, w6_1, w6_2, w6_3, w6_4)) ^ small_mul_pow(24u64, w8_0, w8_1, w8_2, w8_3, w8_4)) ^ small_mul_pow(26u64, w10_0, w10_1, w10_2, w10_3, w10_4)) ^ small_mul_pow(28u64, w12_0, w12_1, w12_2, w12_3, w12_4)) ^ small_mul_pow(30u64, w14_0, w14_1, w14_2, w14_3, w14_4)) == 0u64 && ((((((((((((((((0u64 ^ small_mul_pow(1u64, w18_0, w18_1, w18_2, w18_3, w18_4)) ^ small_mul_pow(2u64, w16_0, w16_1, w16_2, w16_3, w16_4)) ^ small_mul_pow(4u64, w22_0, w22_1, w22_2, w22_3, w22_4)) ^ small_mul_pow(6u64, w20_0, w20_1, w20_2, w20_3, w20_4)) ^ small_mul_pow(8u64, w26_0, w26_1, w26_2, w26_3, w26_4)) ^ small_mul_pow(10u64, w24_0, w24_1, w24_2, w24_3, w24_4)) ^ small_mul_pow(12u64, w30_0, w30_1, w30_2, w30_3, w30_4)) ^ small_mul_pow(14u64, w28_0, w28_1, w28_2, w28_3, w28_4)) ^ small_mul_pow(16u64, w2_0, w2_1, w2_2, w2_3, w2_4)) ^ small_mul_pow(18u64, w1_0, w1_1, w1_2, w1_3, w1_4)) ^ small_mul_pow(20u64, w6_0, w6_1, w6_2, w6_3, w6_4)) ^ small_mul_pow(22u64, w4_0, w4_1, w4_2, w4_3, w4_4)) ^ small_mul_pow(24u64, w10_0, w10_1, w10_2, w10_3, w10_4)) ^ small_mul_pow(26u64, w8_0, w8_1, w8_2, w8_3, w8_4)) ^ small_mul_pow(28u64, w14_0, w14_1, w14_2, w14_3, w14_4)) ^ small_mul_pow(30u64, w12_0, w12_1, w12_2, w12_3, w12_4)) == 0u64 && ((((((((((((((((0u64 ^ small_mul_pow(1u64, w20_0, w20_1, w20_2, w20_3, w20_4)) ^ small_mul_pow(2u64, w22_0, w22_1, w22_2, w22_3, w22_4)) ^ small_mul_pow(4u64, w16_0, w16_1, w16_2, w16_3, w16_4)) ^ small_mul_pow(6u64, w18_0, w18_1, w18_2, w18_3, w18_4)) ^ small_mul_pow(8u64, w28_0, w28_1, w28_2, w28_3, w28_4)) ^ small_mul_pow(10u64, w30_0, w30_1, w30_2, w30_3, w30_4)) ^ small_mul_pow(12u64, w24_0, w24_1, w24_2, w24_3, w24_4)) ^ small_mul_pow(14u64, w26_0, w26_1, w26_2, w26_3, w26_4)) ^ small_mul_pow(16u64, w4_0, w4_1, w4_2, w4_3, w4_4)) ^ small_mul_pow(18u64, w6_0, w6_1, w6_2, w6_3, w6_4)) ^ small_mul_pow(20u64, w1_0, w1_1, w1_2, w1_3, w1_4)) ^ small_mul_pow(22u64, w2_0, w2_1, w2_2, w2_3, w2_4)) ^ small_mul_pow(24u64, w12_0, w12_1, w12_2, w12_3, w12_4)) ^ small_mul_pow(26u64, w14_0, w14_1, w14_2, w14_3, w14_4)) ^ small_mul_pow(28u64, w8_0, w8_1, w8_2, w8_3, w8_4)) ^ small_mul_pow(30u64, w10_0, w10_1, w10_2, w10_3, w10_4)) == 0u64 && ((((((((((((((((0u64 ^ small_mul_pow(1u64, w22_0, w22_1, w22_2, w22_3, w22_4)) ^ small_mul_pow(2u64, w20_0, w20_1, w20_2, w20_3, w20_4)) ^ small_mul_pow(4u64, w18_0, w18_1, w18_2, w18_3, w18_4)) ^ small_mul_pow(6u64, w16_0, w16_1, w16_2, w16_3, w16_4)) ^ small_mul_pow(8u64, w30_0, w30_1, w30_2, w30_3, w30_4)) ^ small_mul_pow(10u64, w28_0, w28_1, w28_2, w28_3, w28_4)) ^ small_mul_pow(12u64, w26_0, w26_1, w26_2, w26_3, w26_4)) ^ small_mul_pow(14u64, w24_0, w24_1, w24_2, w24_3, w24_4)) ^ small_mul_pow(16u64, w6_0, w6_1, w6_2, w6_3, w6_4)) ^ small_mul_pow(18u64, w4_0, w4_1, w4_2, w4_3, w4_4)) ^ small_mul_pow(20u64, w2_0, w2_1, w2_2, w2_3, w2_4)) ^ small_mul_pow(22u64, w1_0, w1_1, w1_2, w1_3, w1_4)) ^ small_mul_pow(24u64, w14_0, w14_1, w14_2, w14_3, w14_4)) ^ small_mul_pow(26u64, w12_0, w12_1, w12_2, w12_3, w12_4)) ^ small_mul_pow(28u64, w10_0, w10_1, w10_2, w10_3, w10_4)) ^ small_mul_pow(30u64, w8_0, w8_1, w8_2, w8_3, w8_4)) == 0u64 && ((((((((((((((((0u64 ^ small_mul_pow(1u64, w24_0, w24_1, w24_2, w24_3, w24_4)) ^ small_mul_pow(2u64, w26_0, w26_1, w26_2, w26_3, w26_4)) ^ small_mul_pow(4u64, w28_0, w28_1, w28_2, w28_3, w28_4)) ^ small_mul_pow(6u64, w30_0, w30_1, w30_2, w30_3, w30_4)) ^ small_mul_pow(8u64, w16_0, w16_1, w16_2, w16_3, w16_4)) ^ small_mul_pow(10u64, w18_0, w18_1, w18_2, w18_3, w18_4)) ^ small_mul_pow(12u64, w20_0, w20_1, w20_2, w20_3, w20_4)) ^ small_mul_pow(14u64, w22_0, w22_1, w22_2, w22_3, w22_4)) ^ small_mul_pow(16u64, w8_0, w8_1, w8_2, w8_3, w8_4)) ^ small_mul_pow(18u64, w10_0, w10_1, w10_2, w10_3, w10_4)) ^ small_mul_pow(20u64, w12_0, w12_1, w12_2, w12_3, w12_4)) ^ small_mul_pow(22u64, w14_0, w14_1, w14_2, w14_3, w14_4)) ^ small_mul_pow(24u64, w1_0, w1_1, w1_2, w1_3, w1_4)) ^ small_mul_pow(26u64, w2_0, w2_1, w2_2, w2_3, w2_4)) ^ small_mul_pow(28u64, w4_0, w4_1, w4_2, w4_3, w4_4)) ^ small_mul_pow(30u64, w6_0, w6_1, w6_2, w6_3, w6_4)) == 0u64 && ((((((((((((((((0u64 ^ small_mul_pow(1u64, w26_0, w26_1, w26_2, w26_3, w26_4)) ^ small_mul_pow(2u64, w24_0, w24_1, w24_2, w24_3, w24_4)) ^ small_mul_pow(4u64, w30_0, w30_1, w30_2, w30_3, w30_4)) ^ small_mul_pow(6u64, w28_0, w28_1, w28_2, w28_3, w28_4)) ^ small_mul_pow(8u64, w18_0, w18_1, w18_2, w18_3, w18_4)) ^ small_mul_pow(10u64, w16_0, w16_1, w16_2, w16_3, w16_4)) ^ small_mul_pow(12u64, w22_0, w22_1, w22_2, w22_3, w22_4)) ^ small_mul_pow(14u64, w20_0, w20_1, w20_2, w20_3, w20_4)) ^ small_mul_pow(16u64, w10_0, w10_1, w10_2, w10_3, w10_4)) ^ small_mul_pow(18u64, w8_0, w8_1, w8_2, w8_3, w8_4)) ^ small_mul_pow(20u64, w14_0, w14_1, w14_2, w14_3, w14_4)) ^ small_mul_pow(22u64, w12_0, w12_1, w12_2, w12_3, w12_4)) ^ small_mul_pow(24u64, w2_0, w2_1, w2_2, w2_3, w2_4)) ^ small_mul_pow(26u64, w1_0, w1_1, w1_2, w1_3, w1_4)) ^ small_mul_pow(28u64, w6_0, w6_1, w6_2, w6_3, w6_4)) ^ small_mul_pow(30u64, w4_0, w4_1, w4_2, w4_3, w4_4)) == 0u64 && ((((((((((((((((0u64 ^ small_mul_pow(1u64, w28_0, w28_1, w28_2, w28_3, w28_4)) ^ small_mul_pow(2u64, w30_0, w30_1, w30_2, w30_3, w30_4)) ^ small_mul_pow(4u64, w24_0, w24_1, w24_2, w24_3, w24_4)) ^ small_mul_pow(6u64, w26_0, w26_1, w26_2, w26_3, w26_4)) ^ small_mul_pow(8u64, w20_0, w20_1, w20_2, w20_3, w20_4)) ^ small_mul_pow(10u64, w22_0, w22_1, w22_2, w22_3, w22_4)) ^ small_mul_pow(12u64, w16_0, w16_1, w16_2, w16_3, w16_4)) ^ small_mul_pow(14u64, w18_0, w18_1, w18_2, w18_3, w18_4)) ^ small_mul_pow(16u64, w12_0, w12_1, w12_2, w12_3, w12_4)) ^ small_mul_pow(18u64, w14_0, w14_1, w14_2, w14_3, w14_4)) ^ small_mul_pow(20u64, w8_0, w8_1, w8_2, w8_3, w8_4)) ^ small_mul_pow(22u64, w10_0, w10_1, w10_2, w10_3, w10_4)) ^ small_mul_pow(24u64, w4_0, w4_1, w4_2, w4_3, w4_4)) ^ small_mul_pow(26u64, w6_0, w6_1, w6_2, w6_3, w6_4)) ^ small_mul_pow(28u64, w1_0, w1_1, w1_2, w1_3, w1_4)) ^ small_mul_pow(30u64, w2_0, w2_1, w2_2, w2_3, w2_4)) == 0u64 && ((((((((((((((((0u64 ^ small_mul_pow(1u64, w30_0, w30_1, w30_2, w30_3, w30_4)) ^ small_mul_pow(2u64, w28_0, w28_1, w28_2, w28_3, w28_4)) ^ small_mul_pow(4u64, w26_0, w26_1, w26_2, w26_3, w26_4)) ^ small_mul_pow(6u64, w24_0, w24_1, w24_2, w24_3, w24_4)) ^ small_mul_pow(8u64, w22_0, w22_1, w22_2, w22_3, w22_4)) ^ small_mul_pow(10u64, w20_0, w20_1, w20_2, w20_3, w20_4)) ^ small_mul_pow(12u64, w18_0, w18_1, w18_2, w18_3, w18_4)) ^ small_mul_pow(14u64, w16_0, w16_1, w16_2, w16_3, w16_4)) ^ small_mul_pow(16u64, w14_0, w14_1, w14_2, w14_3, w14_4)) ^ small_mul_pow(18u64, w12_0, w12_1, w12_2, w12_3, w12_4)) ^ small_mul_pow(20u64, w10_0, w10_1, w10_2, w10_3, w10_4)) ^ small_mul_pow(22u64, w8_0, w8_1, w8_2, w8_3, w8_4)) ^ small_mul_pow(24u64, w6_0, w6_1, w6_2, w6_3, w6_4)) ^ small_mul_pow(26u64, w4_0, w4_1, w4_2, w4_3, w4_4)) ^ small_mul_pow(28u64, w2_0, w2_1, w2_2, w2_3, w2_4)) ^ small_mul_pow(30u64, w1_0, w1_1, w1_2, w1_3, w1_4)) == 0u64) by (bit_vector)
        requires
            x1 == spec_xtime(x0),
            x2 == spec_xtime(x1),
            x3 == spec_xtime(x2),
            x4 == spec_xtime(x3),
            w1_0 == small_mul_pow(1u64, x0, x1, x2, x3, x4),
            w1_1 == spec_xtime(w1_0),
            w1_2 == spec_xtime(w1_1),
            w1_3 == spec_xtime(w1_2),
            w1_4 == spec_xtime(w1_3),
            w2_0 == small_mul_pow(2u64, x0, x1, x2, x3, x4),
            w2_1 == spec_xtime(w2_0),
            w2_2 == spec_xtime(w2_1),
            w2_3 == spec_xtime(w2_2),
            w2_4 == spec_xtime(w2_3),
            w4_0 == small_mul_pow(4u64, x0, x1, x2, x3, x4),
            w4_1 == spec_xtime(w4_0),
            w4_2 == spec_xtime(w4_1),
            w4_3 == spec_xtime(w4_2),
            w4_4 == spec_xtime(w4_3),
            w6_0 == small_mul_pow(6u64, x0, x1, x2, x3, x4),
            w6_1 == spec_xtime(w6_0),
            w6_2 == spec_xtime(w6_1),
            w6_3 == spec_xtime(w6_2),
            w6_4 == spec_xtime(w6_3),
            w8_0 == small_mul_pow(8u64, x0, x1, x2, x3, x4),
            w8_1 == spec_xtime(w8_0),
            w8_2 == spec_xtime(w8_1),
            w8_3 == spec_xtime(w8_2),
            w8_4 == spec_xtime(w8_3),
            w10_0 == small_mul_pow(10u64, x0, x1, x2, x3, x4),
            w10_1 == spec_xtime(w10_0),
            w10_2 == spec_xtime(w10_1),
            w10_3 == spec_xtime(w10_2),
            w10_4 == spec_xtime(w10_3),
            w12_0 == small_mul_pow(12u64, x0, x1, x2, x3, x4),
            w12_1 == spec_xtime(w12_0),
            w12_2 == spec_xtime(w12_1),
            w12_3 == spec_xtime(w12_2),
            w12_4 == spec_xtime(w12_3),
            w14_0 == small_mul_pow(14u64, x0, x1, x2, x3, x4),
            w14_1 == spec_xtime(w14_0),
            w14_2 == spec_xtime(w14_1),
            w14_3 == spec_xtime(w14_2),
            w14_4 == spec_xtime(w14_3),
            w16_0 == small_mul_pow(16u64, x0, x1, x2, x3, x4),
            w16_1 == spec_xtime(w16_0),
            w16_2 == spec_xtime(w16_1),
            w16_3 == spec_xtime(w16_2),
            w16_4 == spec_xtime(w16_3),
            w18_0 == small_mul_pow(18u64, x0, x1, x2, x3, x4),
            w18_1 == spec_xtime(w18_0),
            w18_2 == spec_xtime(w18_1),
            w18_3 == spec_xtime(w18_2),
            w18_4 == spec_xtime(w18_3),
            w20_0 == small_mul_pow(20u64, x0, x1, x2, x3, x4),
            w20_1 == spec_xtime(w20_0),
            w20_2 == spec_xtime(w20_1),
            w20_3 == spec_xtime(w20_2),
            w20_4 == spec_xtime(w20_3),
            w22_0 == small_mul_pow(22u64, x0, x1, x2, x3, x4),
            w22_1 == spec_xtime(w22_0),
            w22_2 == spec_xtime(w22_1),
            w22_3 == spec_xtime(w22_2),
            w22_4 == spec_xtime(w22_3),
            w24_0 == small_mul_pow(24u64, x0, x1, x2, x3, x4),
            w24_1 == spec_xtime(w24_0),
            w24_2 == spec_xtime(w24_1),
            w24_3 == spec_xtime(w24_2),
            w24_4 == spec_xtime(w24_3),
            w26_0 == small_mul_pow(26u64, x0, x1, x2, x3, x4),
            w26_1 == spec_xtime(w26_0),
            w26_2 == spec_xtime(w26_1),
            w26_3 == spec_xtime(w26_2),
            w26_4 == spec_xtime(w26_3),
            w28_0 == small_mul_pow(28u64, x0, x1, x2, x3, x4),
            w28_1 == spec_xtime(w28_0),
            w28_2 == spec_xtime(w28_1),
            w28_3 == spec_xtime(w28_2),
            w28_4 == spec_xtime(w28_3),
            w30_0 == small_mul_pow(30u64, x0, x1, x2, x3, x4),
            w30_1 == spec_xtime(w30_0),
            w30_2 == spec_xtime(w30_1),
            w30_3 == spec_xtime(w30_2),
            w30_4 == spec_xtime(w30_3),
    ;
}

/// Entry `(y, j)` of the squared matrix of order 4, written with `d = y ⊕ j`.
#[verifier::rlimit(100)]
proof fn lemma_composite_4(d: int, v: u64)
    requires
        0 <= d < 4,
    ensures
        xsum(|k: int| gf_mul(spec_mds_row(4)[k], gf_mul(spec_mds_row(4)[xor_index(k, d)], v)), 4) == if d == 0 {
            v
        } else {
            0u64
        },
{
    reveal_with_fuel(xsum, 5);
    lemma_xor_table();
    lemma_gf_mul_small_all();
    lemma_square_4(v);
    let row = spec_mds_row(4);
    assert(row =~= seq![1u64, 2u64, 4u64, 6u64]);
    if d == 0 {
        assert(xsum(|k: int| gf_mul(row[k], gf_mul(row[xor_index(k, 0)], v)), 4) == v);
    }
    if d == 1 {
        assert(xsum(|k: int| gf_mul(row[k], gf_mul(row[xor_index(k, 1)], v)), 4) == 0u64);
    }
    if d == 2 {
        assert(xsum(|k: int| gf_mul(row[k], gf_mul(row[xor_index(k, 2)], v)), 4) == 0u64);
    }
    if d == 3 {
        assert(xsum(|k: int| gf_mul(row[k], gf_mul(row[xor_index(k, 3)], v)), 4) == 0u64);
    }
}

/// Entry `(y, j)` of the squared matrix of order 8, written with `d = y ⊕ j`.
#[verifier::rlimit(100)]
proof fn lemma_composite_8(d: int, v: u64)
    requires
        0 <= d < 8,
    ensures
        xsum(|k: int| gf_mul(spec_mds_row(8)[k], gf_mul(spec_mds_row(8)[xor_index(k, d)], v)), 8) == if d == 0 {
            v
        } else {
            0u64
        },
{
    reveal_with_fuel(xsum, 9);
    lemma_xor_table();
    lemma_gf_mul_small_all();
    lemma_square_8(v);
    let row = spec_mds_row(8);
    assert(row =~= seq![1u64, 2u64, 4u64, 6u64, 8u64, 10u64, 12u64, 14u64]);
    if d == 0 {
        assert(xsum(|k: int| gf_mul(row[k], gf_mul(row[xor_index(k, 0)], v)), 8) == v);
    }
    if d == 1 {
        assert(xsum(|k: int| gf_mul(row[k], gf_mul(row[xor_index(k, 1)], v)), 8) == 0u64);
    }
    if d == 2 {
        assert(xsum(|k: int| gf_mul(row[k], gf_mul(row[xor_index(k, 2)], v)), 8) == 0u64);
    }
    if d == 3 {
        assert(xsum(|k: int| gf_mul(row[k], gf_mul(row[xor_index(k, 3)], v)), 8) == 0u64);
    }
    if d == 4 {
        assert(xsum(|k: int| gf_mul(row[k], gf_mul(row[xor_index(k, 4)], v)), 8) == 0u64);
    }
    if d == 5 {
        assert(xsum(|k: int| gf_mul(row[k], gf_mul(row[xor_index(k, 5)], v)), 8) == 0u64);
    }
    if d == 6 {
        assert(xsum(|k: int| gf_mul(row[k], gf_mul(row[xor_index(k, 6)], v)), 8) == 0u64);
    }
    if d == 7 {
        assert(xsum(|k: int| gf_mul(row[k], gf_mul(row[xor_index(k, 7)], v)), 8) == 0u64);
    }
}

/// Entry `(y, j)` of the squared matrix of order 16, written with `d = y ⊕ j`.
#[verifier::rlimit(100)]
proof fn lemma_composite_16(d: int, v: u64)
    requires
        0 <= d < 16,
    ensures
        xsum(|k: int| gf_mul(spec_mds_row(16)[k], gf_mul(spec_mds_row(16)[xor_index(k, d)], v)), 16) == if d == 0 {
            v
        } else {
            0u64
        },
{
    reveal_with_fuel(xsum, 17);
    lemma_xor_table();
    lemma_gf_mul_small_all();
    lemma_square_16(v);
    let row = spec_mds_row(16);
    assert(row =~= seq![1u64, 2u64, 4u64, 6u64, 8u64, 10u64, 12u64, 14u64, 16u64, 18u64, 20u64, 22u64, 24u64, 26u64, 28u64, 30u64]);
    if d == 0 {
        assert(xsum(|k: int| gf_mul(row[k], gf_mul(row[xor_index(k, 0)], v)), 16) == v);
    }
    if d == 1 {
        assert(xsum(|k: int| gf_mul(row[k], gf_mul(row[xor_index(k, 1)], v)), 16) == 0u64);
    }
    if d == 2 {
        assert(xsum(|k: int| gf_mul(row[k], gf_mul(row[xor_index(k, 2)], v)), 16) == 0u64);
    }
    if d == 3 {
        assert(xsum(|k: int| gf_mul(row[k], gf_mul(row[xor_index(k, 3)], v)), 16) == 0u64);
    }
    if d == 4 {
        assert(xsum(|k: int| gf_mul(row[k], gf_mul(row[xor_index(k, 4)], v)), 16) == 0u64);
    }
    if d == 5 {
        assert(xsum(|k: int| gf_mul(row[k], gf_mul(row[xor_index(k, 5)], v)), 16) == 0u64);
    }
    if d == 6 {
        assert(xsum(|k: int| gf_mul(row[k], gf_mul(row[xor_index(k, 6)], v)), 16) == 0u64);
    }
    if d == 7 {
        assert(xsum(|k: int| gf_mul(row[k], gf_mul(row[xor_index(k, 7)], v)), 16) == 0u64);
    }
    if d == 8 {
        assert(xsum(|k: int| gf_mul(row[k], gf_mul(row[xor_index(k, 8)], v)), 16) == 0u64);
    }
    if d == 9 {
        assert(xsum(|k: int| gf_mul(row[k], gf_mul(row[xor_index(k, 9)], v)), 16) == 0u64);
    }
    if d == 10 {
        assert(xsum(|k: int| gf_mul(row[k], gf_mul(row[xor_index(k, 10)], v)), 16) == 0u64);
    }
    if d == 11 {
        assert(xsum(|k: int| gf_mul(row[k], gf_mul(row[xor_index(k, 11)], v)), 16) == 0u64);
    }
    if d == 12 {
        assert(xsum(|k: int| gf_mul(row[k], gf_mul(row[xor_index(k, 12)], v)), 16) == 0u64);
    }
    if d == 13 {
        assert(xsum(|k: int| gf_mul(row[k], gf_mul(row[xor_index(k, 13)], v)), 16) == 0u64);
    }
    if d == 14 {
        assert(xsum(|k: int| gf_mul(row[k], gf_mul(row[xor_index(k, 14)], v)), 16) == 0u64);
    }
    if d == 15 {
        assert(xsum(|k: int| gf_mul(row[k], gf_mul(row[xor_index(k, 15)], v)), 16) == 0u64);
    }
}

/// XOR of the indices below sixteen.
proof fn lemma_xor_table()
    by (bit_vector)
    ensures
        0u64 ^ 0u64 == 0u64,
        0u64 ^ 1u64 == 1u64,
        0u64 ^ 2u64 == 2u64,
        0u64 ^ 3u64 == 3u64,
        0u64 ^ 4u64 == 4u64,
        0u64 ^ 5u64 == 5u64,
        0u64 ^ 6u64 == 6u64,
        0u64 ^ 7u64 == 7u64,
        0u64 ^ 8u64 == 8u64,
        0u64 ^ 9u64 == 9u64,
        0u64 ^ 10u64 == 10u64,
        0u64 ^ 11u64 == 11u64,
        0u64 ^ 12u64 == 12u64,
        0u64 ^ 13u64 == 13u64,
        0u64 ^ 14u64 == 14u64,
        0u64 ^ 15u64 == 15u64,
        1u64 ^ 0u64 == 1u64,
        1u64 ^ 1u64 == 0u64,
        1u64 ^ 2u64 == 3u64,
        1u64 ^ 3u64 == 2u64,
        1u64 ^ 4u64 == 5u64,
        1u64 ^ 5u64 == 4u64,
        1u64 ^ 6u64 == 7u64,
        1u64 ^ 7u64 == 6u64,
        1u64 ^ 8u64 == 9u64,
        1u64 ^ 9u64 == 8u64,
        1u64 ^ 10u64 == 11u64,
        1u64 ^ 11u64 == 10u64,
        1u64 ^ 12u64 == 13u64,
        1u64 ^ 13u64 == 12u64,
        1u64 ^ 14u64 == 15u64,
        1u64 ^ 15u64 == 14u64,
        2u64 ^ 0u64 == 2u64,
        2u64 ^ 1u64 == 3u64,
        2u64 ^ 2u64 == 0u64,
        2u64 ^ 3u64 == 1u64,
        2u64 ^ 4u64 == 6u64,
        2u64 ^ 5u64 == 7u64,
        2u64 ^ 6u64 == 4u64,
        2u64 ^ 7u64 == 5u64,
        2u64 ^ 8u64 == 10u64,
        2u64 ^ 9u64 == 11u64,
        2u64 ^ 10u64 == 8u64,
        2u64 ^ 11u64 == 9u64,
        2u64 ^ 12u64 == 14u64,
        2u64 ^ 13u64 == 15u64,
        2u64 ^ 14u64 == 12u64,
        2u64 ^ 15u64 == 13u64,
        3u64 ^ 0u64 == 3u64,
        3u64 ^ 1u64 == 2u64,
        3u64 ^ 2u64 == 1u64,
        3u64 ^ 3u64 == 0u64,
        3u64 ^ 4u64 == 7u64,
        3u64 ^ 5u64 == 6u64,
        3u64 ^ 6u64 == 5u64,
        3u64 ^ 7u64 == 4u64,
        3u64 ^ 8u64 == 11u64,
        3u64 ^ 9u64 == 10u64,
        3u64 ^ 10u64 == 9u64,
        3u64 ^ 11u64 == 8u64,
        3u64 ^ 12u64 == 15u64,
        3u64 ^ 13u64 == 14u64,
        3u64 ^ 14u64 == 13u64,
        3u64 ^ 15u64 == 12u64,
        4u64 ^ 0u64 == 4u64,
        4u64 ^ 1u64 == 5u64,
        4u64 ^ 2u64 == 6u64,
        4u64 ^ 3u64 == 7u64,
        4u64 ^ 4u64 == 0u64,
        4u64 ^ 5u64 == 1u64,
        4u64 ^ 6u64 == 2u64,
        4u64 ^ 7u64 == 3u64,
        4u64 ^ 8u64 == 12u64,
        4u64 ^ 9u64 == 13u64,
        4u64 ^ 10u64 == 14u64,
        4u64 ^ 11u64 == 15u64,
        4u64 ^ 12u64 == 8u64,
        4u64 ^ 13u64 == 9u64,
        4u64 ^ 14u64 == 10u64,
        4u64 ^ 15u64 == 11u64,
        5u64 ^ 0u64 == 5u64,
        5u64 ^ 1u64 == 4u64,
        5u64 ^ 2u64 == 7u64,
        5u64 ^ 3u64 == 6u64,
        5u64 ^ 4u64 == 1u64,
        5u64 ^ 5u64 == 0u64,
        5u64 ^ 6u64 == 3u64,
        5u64 ^ 7u64 == 2u64,
        5u64 ^ 8u64 == 13u64,
        5u64 ^ 9u64 == 12u64,
        5u64 ^ 10u64 == 15u64,
        5u64 ^ 11u64 == 14u64,
        5u64 ^ 12u64 == 9u64,
        5u64 ^ 13u64 == 8u64,
        5u64 ^ 14u64 == 11u64,
        5u64 ^ 15u64 == 10u64,
        6u64 ^ 0u64 == 6u64,
        6u64 ^ 1u64 == 7u64,
        6u64 ^ 2u64 == 4u64,
        6u64 ^ 3u64 == 5u64,
        6u64 ^ 4u64 == 2u64,
        6u64 ^ 5u64 == 3u64,
        6u64 ^ 6u64 == 0u64,
        6u64 ^ 7u64 == 1u64,
        6u64 ^ 8u64 == 14u64,
        6u64 ^ 9u64 == 15u64,
        6u64 ^ 10u64 == 12u64,
        6u64 ^ 11u64 == 13u64,
        6u64 ^ 12u64 == 10u64,
        6u64 ^ 13u64 == 11u64,
        6u64 ^ 14u64 == 8u64,
        6u64 ^ 15u64 == 9u64,
        7u64 ^ 0u64 == 7u64,
        7u64 ^ 1u64 == 6u64,
        7u64 ^ 2u64 == 5u64,
        7u64 ^ 3u64 == 4u64,
        7u64 ^ 4u64 == 3u64,
        7u64 ^ 5u64 == 2u64,
        7u64 ^ 6u64 == 1u64,
        7u64 ^ 7u64 == 0u64,
        7u64 ^ 8u64 == 15u64,
        7u64 ^ 9u64 == 14u64,
        7u64 ^ 10u64 == 13u64,
        7u64 ^ 11u64 == 12u64,
        7u64 ^ 12u64 == 11u64,
        7u64 ^ 13u64 == 10u64,
        7u64 ^ 14u64 == 9u64,
        7u64 ^ 15u64 == 8u64,
        8u64 ^ 0u64 == 8u64,
        8u64 ^ 1u64 == 9u64,
        8u64 ^ 2u64 == 10u64,
        8u64 ^ 3u64 == 11u64,
        8u64 ^ 4u64 == 12u64,
        8u64 ^ 5u64 == 13u64,
        8u64 ^ 6u64 == 14u64,
        8u64 ^ 7u64 == 15u64,
        8u64 ^ 8u64 == 0u64,
        8u64 ^ 9u64 == 1u64,
        8u64 ^ 10u64 == 2u64,
        8u64 ^ 11u64 == 3u64,
        8u64 ^ 12u64 == 4u64,
        8u64 ^ 13u64 == 5u64,
        8u64 ^ 14u64 == 6u64,
        8u64 ^ 15u64 == 7u64,
        9u64 ^ 0u64 == 9u64,
        9u64 ^ 1u64 == 8u64,
        9u64 ^ 2u64 == 11u64,
        9u64 ^ 3u64 == 10u64,
        9u64 ^ 4u64 == 13u64,
        9u64 ^ 5u64 == 12u64,
        9u64 ^ 6u64 == 15u64,
        9u64 ^ 7u64 == 14u64,
        9u64 ^ 8u64 == 1u64,
        9u64 ^ 9u64 == 0u64,
        9u64 ^ 10u64 == 3u64,
        9u64 ^ 11u64 == 2u64,
        9u64 ^ 12u64 == 5u64,
        9u64 ^ 13u64 == 4u64,
        9u64 ^ 14u64 == 7u64,
        9u64 ^ 15u64 == 6u64,
        10u64 ^ 0u64 == 10u64,
        10u64 ^ 1u64 == 11u64,
        10u64 ^ 2u64 == 8u64,
        10u64 ^ 3u64 == 9u64,
        10u64 ^ 4u64 == 14u64,
        10u64 ^ 5u64 == 15u64,
        10u64 ^ 6u64 == 12u64,
        10u64 ^ 7u64 == 13u64,
        10u64 ^ 8u64 == 2u64,
        10u64 ^ 9u64 == 3u64,
        10u64 ^ 10u64 == 0u64,
        10u64 ^ 11u64 == 1u64,
        10u64 ^ 12u64 == 6u64,
        10u64 ^ 13u64 == 7u64,
        10u64 ^ 14u64 == 4u64,
        10u64 ^ 15u64 == 5u64,
        11u64 ^ 0u64 == 11u64,
        11u64 ^ 1u64 == 10u64,
        11u64 ^ 2u64 == 9u64,
        11u64 ^ 3u64 == 8u64,
        11u64 ^ 4u64 == 15u64,
        11u64 ^ 5u64 == 14u64,
        11u64 ^ 6u64 == 13u64,
        11u64 ^ 7u64 == 12u64,
        11u64 ^ 8u64 == 3u64,
        11u64 ^ 9u64 == 2u64,
        11u64 ^ 10u64 == 1u64,
        11u64 ^ 11u64 == 0u64,
        11u64 ^ 12u64 == 7u64,
        11u64 ^ 13u64 == 6u64,
        11u64 ^ 14u64 == 5u64,
        11u64 ^ 15u64 == 4u64,
        12u64 ^ 0u64 == 12u64,
        12u64 ^ 1u64 == 13u64,
        12u64 ^ 2u64 == 14u64,
        12u64 ^ 3u64 == 15u64,
        12u64 ^ 4u64 == 8u64,
        12u64 ^ 5u64 == 9u64,
        12u64 ^ 6u64 == 10u64,
        12u64 ^ 7u64 == 11u64,
        12u64 ^ 8u64 == 4u64,
        12u64 ^ 9u64 == 5u64,
        12u64 ^ 10u64 == 6u64,
        12u64 ^ 11u64 == 7u64,
        12u64 ^ 12u64 == 0u64,
        12u64 ^ 13u64 == 1u64,
        12u64 ^ 14u64 == 2u64,
        12u64 ^ 15u64 == 3u64,
        13u64 ^ 0u64 == 13u64,
        13u64 ^ 1u64 == 12u64,
        13u64 ^ 2u64 == 15u64,
        13u64 ^ 3u64 == 14u64,
        13u64 ^ 4u64 == 9u64,
        13u64 ^ 5u64 == 8u64,
        13u64 ^ 6u64 == 11u64,
        13u64 ^ 7u64 == 10u64,
        13u64 ^ 8u64 == 5u64,
        13u64 ^ 9u64 == 4u64,
        13u64 ^ 10u64 == 7u64,
        13u64 ^ 11u64 == 6u64,
        13u64 ^ 12u64 == 1u64,
        13u64 ^ 13u64 == 0u64,
        13u64 ^ 14u64 == 3u64,
        13u64 ^ 15u64 == 2u64,
        14u64 ^ 0u64 == 14u64,
        14u64 ^ 1u64 == 15u64,
        14u64 ^ 2u64 == 12u64,
        14u64 ^ 3u64 == 13u64,
        14u64 ^ 4u64 == 10u64,
        14u64 ^ 5u64 == 11u64,
        14u64 ^ 6u64 == 8u64,
        14u64 ^ 7u64 == 9u64,
        14u64 ^ 8u64 == 6u64,
        14u64 ^ 9u64 == 7u64,
        14u64 ^ 10u64 == 4u64,
        14u64 ^ 11u64 == 5u64,
        14u64 ^ 12u64 == 2u64,
        14u64 ^ 13u64 == 3u64,
        14u64 ^ 14u64 == 0u64,
        14u64 ^ 15u64 == 1u64,
        15u64 ^ 0u64 == 15u64,
        15u64 ^ 1u64 == 14u64,
        15u64 ^ 2u64 == 13u64,
        15u64 ^ 3u64 == 12u64,
        15u64 ^ 4u64 == 11u64,
        15u64 ^ 5u64 == 10u64,
        15u64 ^ 6u64 == 9u64,
        15u64 ^ 7u64 == 8u64,
        15u64 ^ 8u64 == 7u64,
        15u64 ^ 9u64 == 6u64,
        15u64 ^ 10u64 == 5u64,
        15u64 ^ 11u64 == 4u64,
        15u64 ^ 12u64 == 3u64,
        15u64 ^ 13u64 == 2u64,
        15u64 ^ 14u64 == 1u64,
        15u64 ^ 15u64 == 0u64,
{
}

/// One output cell of the diffusion layer as an XOR sum over the input rows.
proof fn lemma_mix_cell_xsum(row: Seq<u64>, cells: Seq<i64>, w: nat, y: int, x: int, n: nat)
    ensures
        mix_cell(row, cells, w, y, x, n) == xsum(
            |k: int| gf_mul(row[xor_index(y, k)], cells[k * w + x] as u64),
            n,
        ),
    decreases n,
{
    if n > 0 {
        lemma_mix_cell_xsum(row, cells, w, y, x, (n - 1) as nat);
    }
}

/// Entry `(y, j)` of the squared matrix: one when `y == j`, zero otherwise.
proof fn lemma_square_entry(h: nat, y: int, j: int, v: u64)
    requires
        h == 4 || h == 8 || h == 16,
        0 <= y < h,
        0 <= j < h,
    ensures
        xsum(|k: int| gf_mul(spec_mds_row(h)[xor_index(y, k)], gf_mul(spec_mds_row(h)[xor_index(k, j)], v)), h)
            == if y == j {
            v
        } else {
            0u64
        },
{
    let row = spec_mds_row(h);
    let f = |k: int| gf_mul(row[xor_index(y, k)], gf_mul(row[xor_index(k, j)], v));
    let d = xor_index(y, j);
    lemma_xor_index(y as u64, j as u64, h as u64);
    lemma_xsum_translate(f, h, y);
    assert forall|k: int| 0 <= k < h implies #[trigger] f(xor_index(k, y)) == (|k: int| gf_mul(
        row[k],
        gf_mul(row[xor_index(k, d)], v),
    ))(k) by {
        let ku = k as u64;
        let yu = y as u64;
        let ju = j as u64;
        lemma_xor_index(ku, yu, h as u64);
        assert(yu ^ (ku ^ yu) == ku && (ku ^ yu) ^ ju == ku ^ (yu ^ ju)) by (bit_vector);
    }
    lemma_xsum_ext(|k: int| f(xor_index(k, y)), |k: int| gf_mul(row[k], gf_mul(row[xor_index(k, d)], v)), h);
    assert((d == 0) == (y == j)) by {
        let yu = y as u64;
        let ju = j as u64;
        assert((yu ^ ju == 0u64) == (yu == ju)) by (bit_vector);
    }
    if h == 4 {
        lemma_composite_4(d, v);
    } else if h == 8 {
        lemma_composite_8(d, v);
    } else {
        lemma_composite_16(d, v);
    }
}

/// The diffusion layer undoes itself: mixing the columns of a grid twice gives back the grid.
pub proof fn law_mix_columns_involutive(cells: Seq<i64>, w: nat, h: nat)
    requires
        dims_ok(w, h),
        cells.len() == w * h,
    ensures
        spec_mix_columns(spec_mix_columns(cells, w, h), w, h) == cells,
{
    let row = spec_mds_row(h);
    let once = spec_mix_columns(cells, w, h);
    let twice = spec_mix_columns(once, w, h);
    assert forall|p: int| 0 <= p < cells.len() implies #[trigger] twice[p] == cells[p] by {
        lemma_split_index(p, w as int, h as int);
        let y = p / (w as int);
        let x = p % (w as int);
        let col = |j: int| cells[j * w + x] as u64;
        let inner = |k: int| xsum(|j: int| gf_mul(row[xor_index(k, j)], col(j)), h);
        lemma_mix_cell_xsum(row, once, w, y, x, h);
        assert forall|k: int| 0 <= k < h implies #[trigger] (once[k * w + x] as u64) == inner(k) by {
            lemma_cell_index(k, x, w as int, h as int);
            lemma_mix_cell_xsum(row, cells, w, k, x, h);
            let m = mix_cell(row, cells, w, k, x, h);
            lemma_limb_roundtrip(m as nat);
            assert((|j: int| gf_mul(row[xor_index(k, j)], cells[j * w + x] as u64)) =~= (|j: int| gf_mul(
                row[xor_index(k, j)],
                col(j),
            )));
        }
        let outer = |k: int| gf_mul(row[xor_index(y, k)], once[k * w + x] as u64);
        lemma_xsum_ext(outer, |k: int| gf_mul(row[xor_index(y, k)], inner(k)), h);
        let pair = |k: int, j: int| gf_mul(row[xor_index(y, k)], gf_mul(row[xor_index(k, j)], col(j)));
        assert forall|k: int| 0 <= k < h implies #[trigger] gf_mul(row[xor_index(y, k)], inner(k)) == xsum(
            |j: int| pair(k, j),
            h,
        ) by {
            let c = row[xor_index(y, k)];
            let g = |j: int| gf_mul(row[xor_index(k, j)], col(j));
            lemma_gf_mul_xsum(c, g, h);
            lemma_xsum_ext(|j: int| gf_mul(c, g(j)), |j: int| pair(k, j), h);
            assert(inner(k) == xsum(g, h));
        }
        lemma_xsum_ext(
            |k: int| gf_mul(row[xor_index(y, k)], inner(k)),
            |k: int| xsum(|j: int| pair(k, j), h),
            h,
        );
        lemma_xsum_swap(pair, h, h);
        assert forall|j: int| 0 <= j < h implies xsum(|k: int| pair(k, j), h) == (if y == j {
            #[trigger] col(j)
        } else {
            0u64
        }) by {
            lemma_square_entry(h, y, j, col(j));
            lemma_xsum_ext(
                |k: int| pair(k, j),
                |k: int| gf_mul(row[xor_index(y, k)], gf_mul(row[xor_index(k, j)], col(j))),
                h,
            );
        }
        lemma_xsum_ext(
            |j: int| xsum(|k: int| pair(k, j), h),
            |j: int| if y == j {
                col(j)
            } else {
                0u64
            },
            h,
        );
        lemma_xsum_single(
            |j: int| if y == j {
                col(j)
            } else {
                0u64
            },
            h,
            y,
        );
        assert(twice[p] == mix_cell(row, once, w, y, x, h) as i64);
        assert(y * w + x == p);
        let c = cells[p];
        assert((((c as u64) as nat) as u64) as i64 == c) by {
            let cu = c as u64;
            assert((cu as i64) as u64 == cu && ((cu as i64) == c)) by (bit_vector)
                requires
                    cu == c as u64,
            ;
        }
    }
    assert(twice =~= cells);
}

/// One output cell of the diffusion layer, taken over the XOR of two grids, is the XOR of the
/// cells taken over each.
proof fn lemma_mix_cell_linear(row: Seq<u64>, a: Seq<i64>, b: Seq<i64>, w: nat, y: int, x: int, n: nat)
    requires
        a.len() == b.len(),
        forall|k: int| 0 <= k < n ==> 0 <= #[trigger] (k * w + x) < a.len(),
    ensures
        mix_cell(row, xor_seq(a, b), w, y, x, n) == mix_cell(row, a, w, y, x, n) ^ mix_cell(row, b, w, y, x, n),
    decreases n,
{
    if n == 0 {
        lemma_xor_swap(0, 0, 0, 0);
    } else {
        let k = n - 1;
        lemma_mix_cell_linear(row, a, b, w, y, x, (n - 1) as nat);
        assert(0 <= k * w + x < a.len());
        let ai = a[k * w + x];
        let bi = b[k * w + x];
        assert(xor_seq(a, b)[k * w + x] == ai ^ bi);
        assert(((ai ^ bi) as u64) == (ai as u64) ^ (bi as u64)) by (bit_vector);
        let c = row[xor_index(y, k)];
        lemma_gf_mul_linear(c, ai as u64, bi as u64);
        lemma_xor_swap(
            mix_cell(row, a, w, y, x, (n - 1) as nat),
            mix_cell(row, b, w, y, x, (n - 1) as nat),
            gf_mul(c, ai as u64),
            gf_mul(c, bi as u64),
        );
    }
}

/// The diffusion layer is linear over XOR: mixing the XOR of two grids gives the XOR of their
/// mixes.
pub proof fn law_mix_columns_linear(a: Seq<i64>, b: Seq<i64>, w: nat, h: nat)
    requires
        dims_ok(w, h),
        a.len() == w * h,
        b.len() == w * h,
    ensures
        spec_mix_columns(xor_seq(a, b), w, h) == xor_seq(spec_mix_columns(a, w, h), spec_mix_columns(b, w, h)),
{
    let row = spec_mds_row(h);
    let lhs = spec_mix_columns(xor_seq(a, b), w, h);
    let rhs = xor_seq(spec_mix_columns(a, w, h), spec_mix_columns(b, w, h));
    assert forall|p: int| 0 <= p < lhs.len() implies #[trigger] lhs[p] == rhs[p] by {
        lemma_split_index(p, w as int, h as int);
        let y = p / (w as int);
        let x = p % (w as int);
        assert forall|k: int| 0 <= k < h implies 0 <= #[trigger] (k * w + x) < a.len() by {
            lemma_cell_index(k, x, w as int, h as int);
        }
        lemma_mix_cell_linear(row, a, b, w, y, x, h);
        let ma = mix_cell(row, a, w, y, x, h);
        let mb = mix_cell(row, b, w, y, x, h);
        assert(((ma ^ mb) as i64) == (ma as i64) ^ (mb as i64)) by (bit_vector);
    }
    assert(lhs =~= rhs);
}

/// The diffusion layer acts on each column alone: two grids that agree on column `x` mix to
/// grids that agree on column `x`.
pub proof fn law_mix_columns_per_column(a: Seq<i64>, b: Seq<i64>, w: nat, h: nat, x: int)
    requires
        dims_ok(w, h),
        a.len() == w * h,
        b.len() == w * h,
        0 <= x < w,
        forall|y: int| 0 <= y < h ==> #[trigger] a[y * w + x] == b[y * w + x],
    ensures
        forall|y: int|
            0 <= y < h ==> #[trigger] spec_mix_columns(a, w, h)[y * w + x] == spec_mix_columns(b, w, h)[y * w + x],
{
    let row = spec_mds_row(h);
    assert forall|y: int| 0 <= y < h implies #[trigger] spec_mix_columns(a, w, h)[y * w + x] == spec_mix_columns(
        b,
        w,
        h,
    )[y * w + x] by {
        lemma_cell_index(y, x, w as int, h as int);
        lemma_mix_cell_column(row, a, b, w, y, x, h);
    }
}

proof fn lemma_mix_cell_column(row: Seq<u64>, a: Seq<i64>, b: Seq<i64>, w: nat, y: int, x: int, n: nat)
    requires
        forall|k: int| 0 <= k < n ==> #[trigger] a[k * w + x] == b[k * w + x],
    ensures
        mix_cell(row, a, w, y, x, n) == mix_cell(row, b, w, y, x, n),
    decreases n,
{
    if n > 0 {
        lemma_mix_cell_column(row, a, b, w, y, x, (n - 1) as nat);
        assert(a[(n - 1) * w + x] == b[(n - 1) * w + x]);
    }
}

} // verus!
