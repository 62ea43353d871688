//! The [`Grid`]: the 2D matrix of 64-bit cells that holds both key material and cipher state,
//! and the transformations of the WHY2 substitution-permutation network that act on it.

use vstd::prelude::*;

use subtle::{Choice, ConstantTimeEq};

use crate::consts;
use crate::gf;

verus! {

/// Structured errors of [`Grid`] construction and decoding.
#[derive(Debug, Clone, Copy, PartialEq, Eq, Structural)]
pub enum GridError {
    /// The grid dimensions are not supported: the width must be positive and the height 4, 8 or 16.
    InvalidDimensions { width: usize, height: usize },
    /// A byte sequence whose length is not a multiple of the grid size in bytes.
    InvalidByteLength { expected_mod: usize, actual_len: usize },
    /// A raw key of the wrong length: it must hold twice as many values as the grid has cells.
    InvalidKeyLength { expected_len: usize, actual_len: usize },
    /// Decryption produced a value that is not a Unicode scalar value.
    InvalidUnicode { value: u32 },
    /// The operating system's entropy source failed, so no key or nonce could be drawn.
    EntropyUnavailable,
}

/// Whether `w × h` is a supported grid shape.
pub open spec fn dims_ok(w: nat, h: nat) -> bool {
    w > 0 && (h == 4 || h == 8 || h == 16)
}

/// Whether every length derived from a `w × h` grid (its area, the raw key length, its length
/// in bytes and the length of the whole round key stream) fits in a `usize`.
pub open spec fn fits(w: nat, h: nat) -> bool {
    w * h * 64 <= usize::MAX
}

/// Cell-wise XOR of two cell sequences.
pub open spec fn xor_seq(a: Seq<i64>, b: Seq<i64>) -> Seq<i64> {
    Seq::new(a.len(), |i: int| a[i] ^ b[i])
}

/// Left rotation of a 64-bit word by `r < 64` bits.
pub open spec fn spec_rotl(x: u64, r: u64) -> u64 {
    if r == 0 {
        x
    } else {
        (x << r) | (x >> ((64 - r) as u64))
    }
}

/// Right rotation of a 64-bit word by `r < 64` bits.
pub open spec fn spec_rotr(x: u64, r: u64) -> u64 {
    if r == 0 {
        x
    } else {
        (x >> r) | (x << ((64 - r) as u64))
    }
}

/// The key cell at index `i`, built from the two key parts `lo` and `hi`.
///
/// $A = lo + hi$ (wrapping), $B = lo \oplus hi$; $A$ is rotated left by $B \bmod 64$ and $B$
/// right by $A \bmod 64$, and the cell is $A' \oplus B' \oplus i$.
pub open spec fn key_cell(lo: i64, hi: i64, i: int) -> i64 {
    let a = lo.wrapping_add(hi);
    let b = lo ^ hi;
    let rot_a = (b as u64) & 63u64;
    let rot_b = (a as u64) & 63u64;
    (spec_rotl(a as u64, rot_a) ^ spec_rotr(b as u64, rot_b) ^ (i as u64)) as i64
}

/// The cells of the key grid of area `area` derived from the raw key `key`.
pub open spec fn spec_from_key(key: Seq<i64>, area: nat) -> Seq<i64> {
    Seq::new(area, |i: int| key_cell(key[i], key[i + area], i))
}

/// The cells of a grid of area `area` filled from the front of `vals`, the rest zero.
pub open spec fn spec_from_flat(vals: Seq<i64>, area: nat) -> Seq<i64> {
    Seq::new(area, |i: int| if i < vals.len() { vals[i] } else { 0i64 })
}

/// Mask of the low 32 bits of a cell.
pub const HALF_MASK: u64 = 0xFFFF_FFFF;

/// `n` iterations of the ARX (add-rotate-XOR) network on the two 32-bit halves of a cell,
/// with the running sum starting at `sum`.
pub open spec fn arx_rounds(v0: u64, v1: u64, sum: u64, n: nat) -> (u64, u64)
    decreases n,
{
    if n == 0 {
        (v0, v1)
    } else {
        let s = sum.wrapping_add(consts::DELTA_32 as u64);
        let a = v0.wrapping_add((((v1 << 4u64) ^ (v1 >> 5u64)).wrapping_add(v1)) ^ s) & HALF_MASK;
        let b = v1.wrapping_add((((a << 4u64) ^ (a >> 5u64)).wrapping_add(a)) ^ s) & HALF_MASK;
        arx_rounds(a, b, s, (n - 1) as nat)
    }
}

/// The nonlinear transform of one cell in round `round`.
///
/// The cell is split into its low half $v_0$ and high half $v_1$; $v_0$ is tweaked by the round
/// index, [`SUBCELL_ROUNDS`](consts::SUBCELL_ROUNDS) ARX iterations mix the halves with a sum
/// growing by [`DELTA_32`](consts::DELTA_32), and $v_1$ is tweaked again.
pub open spec fn spec_subcell_cell(cell: i64, round: usize) -> i64 {
    let x = cell as u64;
    let v0 = ((x & HALF_MASK) ^ (round as u64)) & HALF_MASK;
    let v1 = (x >> 32u64) & HALF_MASK;
    let (a, b) = arx_rounds(v0, v1, 0u64, consts::SUBCELL_ROUNDS as nat);
    ((((b ^ (round as u64)) & HALF_MASK) << 32u64) | a) as i64
}

/// [`spec_subcell_cell`] applied to every cell.
pub open spec fn spec_subcell(cells: Seq<i64>, round: usize) -> Seq<i64> {
    Seq::new(cells.len(), |i: int| spec_subcell_cell(cells[i], round))
}

/// ARX transform of one cell (see [`spec_subcell_cell`]).
pub fn subcell_cell(cell: i64, round: usize) -> (r: i64)
    ensures
        r == spec_subcell_cell(cell, round),
{
    let x = cell as u64;
    let mut v0 = x & HALF_MASK;
    let mut v1 = (x >> 32u64) & HALF_MASK;
    let mut sum: u64 = 0;
    v0 = (v0 ^ round as u64) & HALF_MASK;
    let ghost v0_init = v0;
    let ghost v1_init = v1;
    let mut k: u32 = 0;
    while k < consts::SUBCELL_ROUNDS
        invariant
            k <= consts::SUBCELL_ROUNDS,
            arx_rounds(v0_init, v1_init, 0u64, consts::SUBCELL_ROUNDS as nat) == arx_rounds(
                v0,
                v1,
                sum,
                (consts::SUBCELL_ROUNDS - k) as nat,
            ),
        decreases consts::SUBCELL_ROUNDS - k,
    {
        sum = sum.wrapping_add(consts::DELTA_32 as u64);
        v0 = v0.wrapping_add((((v1 << 4u64) ^ (v1 >> 5u64)).wrapping_add(v1)) ^ sum) & HALF_MASK;
        v1 = v1.wrapping_add((((v0 << 4u64) ^ (v0 >> 5u64)).wrapping_add(v0)) ^ sum) & HALF_MASK;
        k = k + 1;
    }
    v1 = (v1 ^ round as u64) & HALF_MASK;
    ((v1 << 32u64) | v0) as i64
}

/// XOR of every cell of `s`.
pub open spec fn row_fold(s: Seq<i64>) -> i64
    decreases s.len(),
{
    if s.len() == 0 {
        0i64
    } else {
        row_fold(s.drop_last()) ^ s.last()
    }
}

/// The row `y` of a row-major cell sequence of width `w`.
pub open spec fn row_of(cells: Seq<i64>, w: nat, y: int) -> Seq<i64> {
    cells.subrange(y * w, y * w + w)
}

/// Scales a row fold into $[0, w)$: $\lfloor H \cdot w / 2^{64} \rfloor$.
pub open spec fn shift_of(fold: i64, w: nat) -> nat {
    ((fold as u64) as nat * w) / 0x1_0000_0000_0000_0000nat
}

/// The row shift amounts derived from a (round key) grid: one per row, each in $[0, w)$.
pub open spec fn spec_shifts(cells: Seq<i64>, w: nat, h: nat) -> Seq<usize> {
    Seq::new(h, |y: int| shift_of(row_fold(row_of(cells, w, y)), w) as usize)
}

/// Row `y` rotated left by `shifts[y]`: cell $(y, x)$ takes the value of cell
/// $(y, (x + S_y) \bmod w)$.
pub open spec fn spec_shift_rows(cells: Seq<i64>, shifts: Seq<usize>, w: nat) -> Seq<i64> {
    Seq::new(cells.len(), |k: int| cells[(k / w as int) * w + ((k % w as int) + shifts[k / w as int]) % (w as int)])
}

/// Index of the diffusion coefficient linking output row `y` and input row `k`: $y \oplus k$.
pub open spec fn xor_index(y: int, k: int) -> int {
    ((y as u64) ^ (k as u64)) as int
}

/// The cell at row `y`, column `x` of a row-major cell sequence of width `w`.
pub open spec fn cell_at(cells: Seq<i64>, w: nat, y: int, x: int) -> i64 {
    cells[y * w + x]
}

/// Output row `y` of column `x` of the diffusion layer, summed over the first `n` input rows:
/// $\bigoplus_{k < n} m_{y \oplus k} \cdot G_{k,x}$ in $\mathbb{F}_{2^{64}}$.
pub open spec fn mix_cell(row: Seq<u64>, cells: Seq<i64>, w: nat, y: int, x: int, n: nat) -> u64
    decreases n,
{
    if n == 0 {
        0u64
    } else {
        mix_cell(row, cells, w, y, x, (n - 1) as nat) ^ gf::gf_mul(
            row[xor_index(y, n - 1)],
            cells[(n - 1) * w + x] as u64,
        )
    }
}

/// Every column multiplied by the Hadamard diffusion matrix of order `h`.
pub open spec fn spec_mix_columns(cells: Seq<i64>, w: nat, h: nat) -> Seq<i64> {
    Seq::new(
        cells.len(),
        |k: int| mix_cell(consts::spec_mds_row(h), cells, w, k / (w as int), k % (w as int), h) as i64,
    )
}

/// $y \oplus k$ stays below a power-of-two height.
pub proof fn lemma_xor_index(y: u64, k: u64, h: u64)
    requires
        h == 4 || h == 8 || h == 16,
        y < h,
        k < h,
    ensures
        y ^ k < h,
{
    assert(y ^ k < h) by (bit_vector)
        requires
            h == 4 || h == 8 || h == 16,
            y < h,
            k < h,
    ;
}

/// Splits a row-major index into its row and column.
pub proof fn lemma_split_index(k: int, w: int, h: int)
    requires
        0 <= k < w * h,
        w > 0,
    ensures
        0 <= k / w < h,
        0 <= k % w < w,
        k == (k / w) * w + k % w,
{
    vstd::arithmetic::div_mod::lemma_fundamental_div_mod(k, w);
    assert(0 <= k / w < h) by (nonlinear_arith)
        requires
            0 <= k < w * h,
            w > 0,
            k == w * (k / w) + k % w,
            0 <= k % w < w,
    ;
}

proof fn lemma_xor_assoc(a: u64, b: u64, c: u64)
    ensures
        (a ^ b) ^ c == a ^ (b ^ c),
        a ^ 0u64 == a,
{
    assert((a ^ b) ^ c == a ^ (b ^ c)) by (bit_vector);
    assert(a ^ 0u64 == a) by (bit_vector);
}

/// The cells of `s`, read as a little-endian multi-limb integer with `s[0]` least significant,
/// after adding `carry`; the carry out of the top limb is dropped.
pub open spec fn add_limbs(s: Seq<i64>, carry: nat) -> Seq<i64>
    decreases s.len(),
{
    if s.len() == 0 {
        Seq::empty()
    } else {
        let t = (s[0] as u64) as nat + carry;
        seq![(t % 0x1_0000_0000_0000_0000nat) as u64 as i64] + add_limbs(
            s.drop_first(),
            t / 0x1_0000_0000_0000_0000nat,
        )
    }
}

/// The big-endian `i64` held in bytes `p .. p + 8` of `b`.
pub open spec fn be_i64(b: Seq<u8>, p: int) -> i64 {
    (((b[p] as u64) << 56u64) | ((b[p + 1] as u64) << 48u64) | ((b[p + 2] as u64) << 40u64) | ((b[p
        + 3] as u64) << 32u64) | ((b[p + 4] as u64) << 24u64) | ((b[p + 5] as u64) << 16u64) | ((b[p
        + 6] as u64) << 8u64) | (b[p + 7] as u64)) as i64
}

/// The grids of area `area` held in `b`, one after another, each cell a big-endian `i64`.
pub open spec fn spec_grids_from_bytes(b: Seq<u8>, area: nat) -> Seq<Seq<i64>> {
    Seq::new(
        b.len() / (8 * area),
        |g: int| Seq::new(area, |c: int| be_i64(b, (g * area + c) * 8)),
    )
}

/// Decodes the big-endian `i64` at bytes `p .. p + 8`.
pub fn read_be_i64(b: &[u8], p: usize) -> (r: i64)
    requires
        p + 8 <= b@.len(),
    ensures
        r == be_i64(b@, p as int),
{
    (((b[p] as u64) << 56u64) | ((b[p + 1] as u64) << 48u64) | ((b[p + 2] as u64) << 40u64) | ((b[p
        + 3] as u64) << 32u64) | ((b[p + 4] as u64) << 24u64) | ((b[p + 5] as u64) << 16u64) | ((b[p
        + 6] as u64) << 8u64) | (b[p + 7] as u64)) as i64
}

/// Passes a bit through `subtle::Choice` (`Choice::from`, then `unwrap_u8`), whose optimisation
/// barrier keeps the compiler from turning a selection on it back into a branch.
///
/// Trusted: as `subtle`'s source shows, the bit comes back unchanged.
#[verifier::external_body]
fn choice_bit(bit: u8) -> (r: u8)
    requires
        bit == 0 || bit == 1,
    ensures
        r == bit,
{
    Choice::from(bit).unwrap_u8()
}

/// Compares two cells with `subtle::ConstantTimeEq::ct_eq` and unwraps the `Choice`.
///
/// Trusted: as `subtle`'s source shows, the result is 1 exactly when the cells are equal and 0
/// otherwise, computed without branching on them.
#[verifier::external_body]
fn cell_ct_eq(a: &i64, b: &i64) -> (r: u8)
    ensures
        r == if *a == *b {
            1u8
        } else {
            0u8
        },
{
    a.ct_eq(b).unwrap_u8()
}

proof fn lemma_select(x: i64, y: i64, b: u8)
    requires
        b == 0 || b == 1,
    ensures
        x ^ ((x ^ y) & (0i64.wrapping_sub(b as i64))) == if b == 1 {
            y
        } else {
            x
        },
{
    let m = 0i64.wrapping_sub(b as i64);
    assert(b == 1 ==> m == -1i64);
    assert(b == 0 ==> m == 0i64);
    assert(x ^ ((x ^ y) & (-1i64)) == y && x ^ ((x ^ y) & 0i64) == x) by (bit_vector);
}

proof fn lemma_stage_bits(s: u64, bit: u64, st: u64)
    requires
        bit < 58,
        st as nat == vstd::arithmetic::power2::pow2(bit as nat),
    ensures
        (s >> bit) & 1u64 <= 1,
        s as int % (st * 2) == s as int % (st as int) + ((s >> bit) & 1u64) * st,
        st * 2 == vstd::arithmetic::power2::pow2((bit + 1) as nat),
        st >= 1,
{
    vstd::arithmetic::power2::lemma_pow2_pos(bit as nat);
    vstd::arithmetic::power2::lemma_pow2_unfold((bit + 1) as nat);
    vstd::bits::lemma_u64_shr_is_div(s, bit);
    let q = s >> bit;
    assert(q & 1u64 == q % 2 && q & 1u64 <= 1) by (bit_vector);
    vstd::arithmetic::div_mod::lemma_mod_breakdown(s as int, st as int, 2);
    assert(st * ((s as int / st as int) % 2) == ((s >> bit) & 1u64) * st) by (nonlinear_arith)
        requires
            (s >> bit) as int == s as int / st as int,
            (s >> bit) & 1u64 == (s >> bit) % 2,
    ;
}

proof fn lemma_stride_small(bit: u64, st: u64, bound: u64)
    requires
        st as nat == vstd::arithmetic::power2::pow2(bit as nat),
        st < bound,
        bound <= 0x0400_0000_0000_0000u64,
    ensures
        bit < 58,
{
    if bit >= 58 {
        vstd::arithmetic::power2::lemma2_to64_rest();
        if bit > 58 {
            vstd::arithmetic::power2::lemma_pow2_strictly_increases(58, bit as nat);
        }
    }
}

/// `row` rotated left by `shift` with a barrel shifter: one conditional rotation by each power
/// of two below the row's length, each selected by a mask rather than a branch, so neither the
/// time taken nor the cells read depend on `shift`.
fn rotate_row_ct(row: &Vec<i64>, shift: usize) -> (r: Vec<i64>)
    requires
        0 < row@.len() <= 0x0400_0000_0000_0000,
        shift < row@.len(),
    ensures
        r@.len() == row@.len(),
        forall|j: int| 0 <= j < row@.len() ==> #[trigger] r@[j] == row@[(j + shift) % (row@.len() as int)],
{
    let w = row.len();
    let ghost wi = w as int;
    let mut tmp = row.clone();
    proof {
        assert forall|j: int| 0 <= j < w implies #[trigger] tmp@[j] == row@[(j + (shift as int) % 1) % wi] by {
            vstd::arithmetic::div_mod::lemma_small_mod(j as nat, w as nat);
        }
    }
    let mut stride: u64 = 1;
    let mut bit: u64 = 0;
    proof {
        vstd::arithmetic::power2::lemma2_to64();
    }
    while stride < (w as u64)
        invariant
            w == row@.len(),
            wi == w,
            0 < w <= 0x0400_0000_0000_0000,
            shift < w,
            stride as nat == vstd::arithmetic::power2::pow2(bit as nat),
            1 <= stride,
            stride <= 2 * w,
            tmp@.len() == w,
            bit < 64,
            forall|j: int| 0 <= j < w ==> #[trigger] tmp@[j] == row@[(j + (shift as int) % (stride as int)) % wi],
        decreases 64 - bit,
    {
        proof {
            lemma_stride_small(bit, stride, w as u64);
            lemma_stage_bits(shift as u64, bit, stride);
        }
        let b = (((shift as u64) >> bit) & 1u64) as u8;
        let mask = 0i64.wrapping_sub(choice_bit(b) as i64);
        let st = stride as usize;
        let split = w - st;
        let mut rotated: Vec<i64> = Vec::with_capacity(w);
        let ghost s_old = (shift as int) % (stride as int);
        let ghost s_new = (shift as int) % ((stride * 2) as int);
        assert(s_new == s_old + (b as int) * (stride as int));
        let mut j: usize = 0;
        while j < split
            invariant
                w == row@.len(),
                wi == w,
                st == stride,
                split == w - st,
                0 < st < w,
                j <= split,
                tmp@.len() == w,
                b == 0 || b == 1,
                mask == 0i64.wrapping_sub(b as i64),
                rotated@.len() == j,
                forall|i: int| 0 <= i < w ==> #[trigger] tmp@[i] == row@[(i + s_old) % wi],
                forall|i: int| 0 <= i < j ==> #[trigger] rotated@[i] == row@[(i + s_new) % wi],
                s_new == s_old + (b as int) * (st as int),
                0 <= s_old < st,
            decreases split - j,
        {
            proof {
                lemma_select(tmp@[j as int], tmp@[j + st], b);
                if b == 1 {
                    assert(j + st + s_old == j + s_new);
                }
            }
            rotated.push(tmp[j] ^ ((tmp[j] ^ tmp[j + st]) & mask));
            j = j + 1;
        }
        while j < w
            invariant
                w == row@.len(),
                wi == w,
                st == stride,
                split == w - st,
                0 < st < w,
                split <= j <= w,
                tmp@.len() == w,
                b == 0 || b == 1,
                mask == 0i64.wrapping_sub(b as i64),
                rotated@.len() == j,
                forall|i: int| 0 <= i < w ==> #[trigger] tmp@[i] == row@[(i + s_old) % wi],
                forall|i: int| 0 <= i < j ==> #[trigger] rotated@[i] == row@[(i + s_new) % wi],
                s_new == s_old + (b as int) * (st as int),
                0 <= s_old < st,
            decreases w - j,
        {
            proof {
                lemma_select(tmp@[j as int], tmp@[j - split], b);
                if b == 1 {
                    let a = j + st + s_old;
                    assert(j - split + s_old == a - wi);
                    vstd::arithmetic::div_mod::lemma_mod_sub_multiples_vanish(a, wi);
                    assert((a - wi) % wi == a % wi);
                }
            }
            rotated.push(tmp[j] ^ ((tmp[j] ^ tmp[j - split]) & mask));
            j = j + 1;
        }
        tmp = rotated;
        bit = bit + 1;
        stride = stride * 2;
    }
    proof {
        assert forall|j: int| 0 <= j < w implies #[trigger] tmp@[j] == row@[(j + shift) % wi] by {
            vstd::arithmetic::div_mod::lemma_small_mod(shift as nat, stride as nat);
        }
    }
    tmp
}

/// A nonnegative integer below $2^{64}$ survives the trip through `u64` and `i64`.
pub proof fn lemma_limb_roundtrip(v: nat)
    requires
        v < 0x1_0000_0000_0000_0000nat,
    ensures
        ((v as u64) as i64) as u64 == v as u64,
        (v as u64) as nat == v,
{
    let y = v as u64;
    assert((y as i64) as u64 == y) by (bit_vector);
}

/// The value of a multi-limb integer, `s[0]` least significant, each limb read unsigned.
pub open spec fn limbs_value(s: Seq<i64>) -> nat
    decreases s.len(),
{
    if s.len() == 0 {
        0
    } else {
        (s[0] as u64) as nat + 0x1_0000_0000_0000_0000nat * limbs_value(s.drop_first())
    }
}

/// $2^{64 n}$: one more than the largest value of `n` limbs.
pub open spec fn limbs_modulus(n: nat) -> nat
    decreases n,
{
    if n == 0 {
        1
    } else {
        0x1_0000_0000_0000_0000nat * limbs_modulus((n - 1) as nat)
    }
}

proof fn lemma_limbs_modulus_positive(n: nat)
    ensures
        limbs_modulus(n) > 0,
    decreases n,
{
    if n > 0 {
        lemma_limbs_modulus_positive((n - 1) as nat);
        assert(limbs_modulus(n) > 0) by (nonlinear_arith)
            requires
                limbs_modulus(n) == 0x1_0000_0000_0000_0000nat * limbs_modulus((n - 1) as nat),
                limbs_modulus((n - 1) as nat) > 0,
        ;
    }
}

proof fn lemma_mod_shifted(r: nat, b: nat, m: nat, n: nat)
    requires
        r < m,
        n > 0,
    ensures
        (r + m * b) % (m * n) == r + m * (b % n),
{
    vstd::arithmetic::div_mod::lemma_fundamental_div_mod(b as int, n as int);
    vstd::arithmetic::div_mod::lemma_mod_pos_bound(b as int, n as int);
    let q = b / n;
    let rem = b % n;
    assert(r + m * b == q * (m * n) + (r + m * rem) && r + m * rem < m * n && m * n > 0) by (nonlinear_arith)
        requires
            b == n * q + rem,
            rem < n,
            r < m,
    ;
    vstd::arithmetic::div_mod::lemma_fundamental_div_mod_converse(
        (r + m * b) as int,
        (m * n) as int,
        q as int,
        (r + m * rem) as int,
    );
}

/// Shaping exactly a grid's worth of values into a grid and reading it back gives the values:
/// [`Grid::from_flat`] keeps them in row-major order, and [`Grid::to_flat`] returns the cells.
pub proof fn law_flat_roundtrip(vals: Seq<i64>, w: nat, h: nat)
    requires
        vals.len() == w * h,
    ensures
        spec_from_flat(vals, w * h) == vals,
{
    assert(spec_from_flat(vals, w * h) =~= vals);
}

/// Adding to a multi-limb integer with [`add_limbs`] is addition modulo $2^{64 n}$: the grid,
/// read as a little-endian number, becomes its value plus `carry`, wrapping around.
pub proof fn law_add_limbs_value(s: Seq<i64>, carry: nat)
    ensures
        limbs_value(add_limbs(s, carry)) == (limbs_value(s) + carry) % limbs_modulus(s.len()),
    decreases s.len(),
{
    let m = 0x1_0000_0000_0000_0000nat;
    lemma_limbs_modulus_positive(s.len());
    if s.len() == 0 {
        assert((limbs_value(s) + carry) % 1 == 0) by (nonlinear_arith);
    } else {
        let x = (s[0] as u64) as nat;
        let t = x + carry;
        let r = t % m;
        let q = t / m;
        let rest = s.drop_first();
        let out = add_limbs(s, carry);
        assert(out == seq![r as u64 as i64] + add_limbs(rest, q));
        assert(out.drop_first() =~= add_limbs(rest, q));
        lemma_limb_roundtrip(r);
        law_add_limbs_value(rest, q);
        lemma_limbs_modulus_positive(rest.len());
        let n = limbs_modulus(rest.len());
        let v = limbs_value(rest);
        vstd::arithmetic::div_mod::lemma_fundamental_div_mod(t as int, m as int);
        assert(limbs_value(s) + carry == r + m * (q + v)) by (nonlinear_arith)
            requires
                limbs_value(s) == x + m * v,
                t == x + carry,
                t == m * q + r,
        ;
        lemma_mod_shifted(r, q + v, m, n);
        assert(limbs_modulus(s.len()) == m * n);
    }
}

/// Counter blocks do not repeat: adding two different amounts, less than $2^{64 n}$ apart,
/// to the same nonce gives different blocks.
pub proof fn law_counter_blocks_distinct(s: Seq<i64>, a: nat, b: nat)
    requires
        a < b,
        b - a < limbs_modulus(s.len()),
    ensures
        add_limbs(s, a) != add_limbs(s, b),
{
    law_add_limbs_value(s, a);
    law_add_limbs_value(s, b);
    lemma_limbs_modulus_positive(s.len());
    let mm = limbs_modulus(s.len());
    let x = limbs_value(s) + a;
    let y = limbs_value(s) + b;
    vstd::arithmetic::div_mod::lemma_fundamental_div_mod(x as int, mm as int);
    vstd::arithmetic::div_mod::lemma_fundamental_div_mod(y as int, mm as int);
    vstd::arithmetic::div_mod::lemma_mod_pos_bound(x as int, mm as int);
    vstd::arithmetic::div_mod::lemma_mod_pos_bound(y as int, mm as int);
    assert(x % mm != y % mm) by (nonlinear_arith)
        requires
            x == mm * (x / mm) + x % mm,
            y == mm * (y / mm) + y % mm,
            0 < y - x < mm,
            mm > 0,
    ;
}

/// Adding `a` and then `b` to a multi-limb integer is adding `a + b`.
pub proof fn lemma_add_limbs_compose(s: Seq<i64>, a: nat, b: nat)
    ensures
        add_limbs(add_limbs(s, a), b) == add_limbs(s, a + b),
    decreases s.len(),
{
    let m = 0x1_0000_0000_0000_0000nat;
    if s.len() == 0 {
    } else {
        let x = (s[0] as u64) as nat;
        let t1 = x + a;
        let h1 = t1 % m;
        let c1 = t1 / m;
        let first = add_limbs(s, a);
        assert(first == seq![h1 as u64 as i64] + add_limbs(s.drop_first(), c1));
        assert(first[0] == h1 as u64 as i64);
        assert(first.drop_first() =~= add_limbs(s.drop_first(), c1));
        lemma_limb_roundtrip(h1);
        assert((first[0] as u64) as nat == h1);
        let t2 = h1 + b;
        let c2 = t2 / m;
        lemma_add_limbs_compose(s.drop_first(), c1, c2);
        vstd::arithmetic::div_mod::lemma_fundamental_div_mod(t1 as int, m as int);
        vstd::arithmetic::div_mod::lemma_fundamental_div_mod(t2 as int, m as int);
        let t = x + (a + b);
        assert(t == m * (c1 + c2) + t2 % m);
        vstd::arithmetic::div_mod::lemma_fundamental_div_mod_converse(t as int, m as int, (c1 + c2) as int, (t2 % m) as int);
        assert(t % m == t2 % m);
        assert(t / m == c1 + c2);
    }
}

/// Adding to a multi-limb integer keeps its number of limbs.
pub proof fn lemma_add_limbs_len(s: Seq<i64>, carry: nat)
    ensures
        add_limbs(s, carry).len() == s.len(),
    decreases s.len(),
{
    if s.len() > 0 {
        let t = (s[0] as u64) as nat + carry;
        lemma_add_limbs_len(s.drop_first(), t / 0x1_0000_0000_0000_0000nat);
    }
}

fn rotl(x: u64, r: u64) -> (res: u64)
    requires
        r < 64,
    ensures
        res == spec_rotl(x, r),
{
    if r == 0 {
        x
    } else {
        (x << r) | (x >> (64 - r))
    }
}

fn rotr(x: u64, r: u64) -> (res: u64)
    requires
        r < 64,
    ensures
        res == spec_rotr(x, r),
{
    if r == 0 {
        x
    } else {
        (x >> r) | (x << (64 - r))
    }
}

/// A 2D matrix of 64-bit signed cells: the core data structure of WHY2.
///
/// A grid holds either cipher state or key material. Its view is the sequence of its cells in
/// row-major order; the cell in row $y$, column $x$ is at index $y W + x$.
pub struct Grid<const W: usize, const H: usize> {
    cells: Vec<i64>,
}

impl<const W: usize, const H: usize> View for Grid<W, H> {
    type V = Seq<i64>;

    closed spec fn view(&self) -> Seq<i64> {
        self.cells@
    }
}

impl<const W: usize, const H: usize> Grid<W, H> {
    /// Every grid has a supported shape and exactly $W \times H$ cells.
    #[verifier::type_invariant]
    pub closed spec fn wf(self) -> bool {
        dims_ok(W as nat, H as nat) && fits(W as nat, H as nat) && self.cells@.len() == W * H
    }

    /// What the type invariant says, for use outside this module.
    pub proof fn lemma_wf(g: &Self)
        requires
            g.wf(),
        ensures
            dims_ok(W as nat, H as nat),
            fits(W as nat, H as nat),
            g@.len() == W * H,
    {
    }

    /// Creates a grid of zeros.
    ///
    /// Fails with [`GridError::InvalidDimensions`] unless $W > 0$ and $H \in \{4, 8, 16\}$.
    pub fn new() -> (r: Result<Self, GridError>)
        requires
            fits(W as nat, H as nat),
        ensures
            r is Ok <==> dims_ok(W as nat, H as nat),
            r matches Err(e) ==> e == (GridError::InvalidDimensions { width: W, height: H }),
            r matches Ok(g) ==> g@ == Seq::new((W * H) as nat, |i: int| 0i64),
    {
        if W > 0 && (H == 4 || H == 8 || H == 16) {
            let n = W * H;
            let v: Vec<i64> = vec![0i64; n];
            assert(v@ =~= Seq::new((W * H) as nat, |i: int| 0i64));
            Ok(Grid { cells: v })
        } else {
            Err(GridError::InvalidDimensions { width: W, height: H })
        }
    }

    /// Builds a key grid from a raw key of at least $2 W H$ values.
    ///
    /// Cell $i$ mixes the key parts $V_i$ and $V_{i + WH}$ (see [`key_cell`]); values beyond
    /// $2 W H$ are ignored.
    pub fn from_key(vec: &[i64]) -> (r: Result<Self, GridError>)
        requires
            fits(W as nat, H as nat),
        ensures
            vec@.len() < 2 * W * H ==> r == Err::<Self, GridError>(
                GridError::InvalidKeyLength { expected_len: (2 * W * H) as usize, actual_len: vec@.len() as usize },
            ),
            vec@.len() >= 2 * W * H && !dims_ok(W as nat, H as nat) ==> r == Err::<Self, GridError>(
                GridError::InvalidDimensions { width: W, height: H },
            ),
            vec@.len() >= 2 * W * H && dims_ok(W as nat, H as nat) ==> (r matches Ok(g) && g@
                == spec_from_key(vec@, (W * H) as nat)),
    {
        let grid_area = W * H;
        assert(grid_area * 2 == 2 * W * H) by (nonlinear_arith)
            requires
                grid_area == W * H,
        ;
        if vec.len() < grid_area * 2 {
            return Err(GridError::InvalidKeyLength { expected_len: grid_area * 2, actual_len: vec.len() });
        }
        let mut key_grid = Self::new()?;
        proof { use_type_invariant(&key_grid); }
        let mut cells: Vec<i64> = Vec::with_capacity(grid_area);
        let mut i: usize = 0;
        while i < grid_area
            invariant
                grid_area == W * H,
                fits(W as nat, H as nat),
                vec@.len() >= 2 * grid_area,
                i <= grid_area,
                cells@.len() == i,
                forall|k: int| 0 <= k < i ==> cells@[k] == #[trigger] key_cell(vec@[k], vec@[k + grid_area], k),
            decreases grid_area - i,
        {
            let mut a = vec[i].wrapping_add(vec[i + grid_area]);
            let mut b = vec[i] ^ vec[i + grid_area];
            let rot_a = (b as u64) & 63;
            let rot_b = (a as u64) & 63;
            proof {
                assert((b as u64) & 63u64 < 64u64) by (bit_vector);
                assert((a as u64) & 63u64 < 64u64) by (bit_vector);
            }
            let cell = (rotl(a as u64, rot_a) ^ rotr(b as u64, rot_b) ^ (i as u64)) as i64;
            cells.push(cell);
            i = i + 1;
        }
        assert(cells@ =~= spec_from_key(vec@, (W * H) as nat));
        key_grid.cells = cells;
        Ok(key_grid)
    }

    /// Builds a grid from the first $W H$ values of `vec`, leaving any remaining cells zero.
    ///
    /// Fails with [`GridError::InvalidDimensions`] on an unsupported shape.
    pub fn from_flat(vec: &[i64]) -> (r: Result<Self, GridError>)
        requires
            fits(W as nat, H as nat),
        ensures
            r is Ok <==> dims_ok(W as nat, H as nat),
            r matches Err(e) ==> e == (GridError::InvalidDimensions { width: W, height: H }),
            r matches Ok(g) ==> g@ == spec_from_flat(vec@, (W * H) as nat),
    {
        let mut grid = Self::new()?;
        proof { use_type_invariant(&grid); }
        let area = W * H;
        let mut cells: Vec<i64> = Vec::with_capacity(area);
        let mut i: usize = 0;
        while i < area
            invariant
                area == W * H,
                i <= area,
                cells@.len() == i,
                forall|k: int| 0 <= k < i ==> cells@[k] == #[trigger] spec_from_flat(vec@, area as nat)[k],
            decreases area - i,
        {
            if i < vec.len() {
                cells.push(vec[i]);
            } else {
                cells.push(0);
            }
            i = i + 1;
        }
        assert(cells@ =~= spec_from_flat(vec@, (W * H) as nat));
        grid.cells = cells;
        Ok(grid)
    }

    /// The cells in row-major order.
    pub fn to_flat(&self) -> (r: Vec<i64>)
        ensures
            r@ == self@,
    {
        self.cells.clone()
    }

    /// The rows of the grid, top to bottom.
    pub fn iter(&self) -> (r: Vec<Vec<i64>>)
        ensures
            r@.len() == H,
            forall|y: int| 0 <= y < H ==> (#[trigger] r@[y])@ == self@.subrange(y * W, y * W + W),
    {
        proof {
            use_type_invariant(self);
        }
        let mut rows: Vec<Vec<i64>> = Vec::with_capacity(H);
        let mut y: usize = 0;
        while y < H
            invariant
                y <= H,
                self@.len() == W * H,
                fits(W as nat, H as nat),
                rows@.len() == y,
                forall|j: int| 0 <= j < y ==> (#[trigger] rows@[j])@ == self@.subrange(j * W, j * W + W),
            decreases H - y,
        {
            let mut row: Vec<i64> = Vec::with_capacity(W);
            let mut x: usize = 0;
            assert(y * W + W <= W * H) by (nonlinear_arith)
                requires
                    y < H,
            ;
            assert(row@ =~= self@.subrange(y * W, y * W));
            while x < W
                invariant
                    y < H,
                    y * W + W <= W * H,
                    x <= W,
                    self@.len() == W * H,
                    fits(W as nat, H as nat),
                    row@ == self@.subrange(y * W, y * W + x),
                decreases W - x,
            {
                proof {
                    lemma_cell_index(y as int, x as int, W as int, H as int);
                }
                row.push(self.cells[y * W + x]);
                x = x + 1;
                assert(row@ =~= self@.subrange(y * W, y * W + x));
            }
            rows.push(row);
            y = y + 1;
        }
        rows
    }

    /// Number of columns.
    pub fn width(&self) -> (r: usize)
        ensures
            r == W,
    {
        W
    }

    /// Number of rows.
    pub fn height(&self) -> (r: usize)
        ensures
            r == H,
    {
        H
    }

    /// The cell in row `y`, column `x`.
    pub fn get(&self, y: usize, x: usize) -> (r: i64)
        requires
            y < H,
            x < W,
        ensures
            r == self@[y * W + x],
    {
        proof {
            use_type_invariant(self);
            lemma_cell_index(y as int, x as int, W as int, H as int);
        }
        self.cells[y * W + x]
    }

    /// Overwrites the cell in row `y`, column `x`.
    pub fn set(&mut self, y: usize, x: usize, value: i64)
        requires
            y < H,
            x < W,
        ensures
            final(self)@ == old(self)@.update(y * W + x, value),
    {
        proof {
            use_type_invariant(&*self);
            lemma_cell_index(y as int, x as int, W as int, H as int);
        }
        let mut cells = self.cells.clone();
        cells.set(y * W + x, value);
        self.cells = cells;
    }

    /// Overwrites row `y` with the `W` values of `row`; every other row is kept.
    pub fn set_row(&mut self, y: usize, row: &[i64])
        requires
            y < H,
            row@.len() == W,
        ensures
            final(self)@ == spec_with_row(old(self)@, y as int, W as int, row@),
    {
        proof {
            use_type_invariant(&*self);
        }
        let ghost before = self.cells@;
        let mut cells = self.cells.clone();
        let mut x: usize = 0;
        while x < W
            invariant
                y < H,
                x <= W,
                fits(W as nat, H as nat),
                row@.len() == W,
                before.len() == W * H,
                cells@.len() == W * H,
                forall|i: int|
                    0 <= i < W * H ==> #[trigger] cells@[i] == (if y * W <= i < y * W + x {
                        row@[i - y * W]
                    } else {
                        before[i]
                    }),
            decreases W - x,
        {
            proof {
                lemma_cell_index(y as int, x as int, W as int, H as int);
            }
            cells.set(y * W + x, row[x]);
            x = x + 1;
        }
        assert(cells@ =~= spec_with_row(before, y as int, W as int, row@));
        self.cells = cells;
    }

    /// Applies the nonlinear ARX transform [`spec_subcell_cell`] of round `round` to every cell.
    pub fn subcell(&mut self, round: usize)
        ensures
            final(self)@ == spec_subcell(old(self)@, round),
    {
        proof { use_type_invariant(&*self); }
        let n = self.cells.len();
        let mut cells: Vec<i64> = Vec::with_capacity(n);
        let mut i: usize = 0;
        while i < n
            invariant
                n == self.cells@.len(),
                i <= n,
                cells@.len() == i,
                forall|k: int| 0 <= k < i ==> cells@[k] == #[trigger] spec_subcell(self.cells@, round)[k],
            decreases n - i,
        {
            cells.push(subcell_cell(self.cells[i], round));
            i = i + 1;
        }
        assert(cells@ =~= spec_subcell(self.cells@, round));
        self.cells = cells;
    }

    /// The row shift amounts for this grid (see [`spec_shifts`]): the XOR-fold of each row,
    /// scaled into $[0, W)$ by the high half of a widening product.
    pub fn precalculate_shifts(&self) -> (r: Vec<usize>)
        ensures
            r@ == spec_shifts(self@, W as nat, H as nat),
            r@.len() == H,
            forall|y: int| 0 <= y < H ==> #[trigger] r@[y] < W,
    {
        proof { use_type_invariant(self); }
        let mut shifts: Vec<usize> = Vec::with_capacity(H);
        let mut y: usize = 0;
        while y < H
            invariant
                dims_ok(W as nat, H as nat),
                fits(W as nat, H as nat),
                self.cells@.len() == W * H,
                y <= H,
                shifts@.len() == y,
                forall|k: int| 0 <= k < y ==> shifts@[k] == #[trigger] spec_shifts(self.cells@, W as nat, H as nat)[k],
                forall|k: int| 0 <= k < y ==> #[trigger] shifts@[k] < W,
            decreases H - y,
        {
            let mut fold: i64 = 0;
            let mut x: usize = 0;
            proof { lemma_cell_index(y as int, (W - 1) as int, W as int, H as int); }
            let ghost row = row_of(self.cells@, W as nat, y as int);
            assert(row.len() == W);
            while x < W
                invariant
                    dims_ok(W as nat, H as nat),
                    fits(W as nat, H as nat),
                    row.len() == W,
                    (y as int) * (W as int) + (W as int) <= (W as int) * (H as int),
                    self.cells@.len() == W * H,
                    y < H,
                    x <= W,
                    row == row_of(self.cells@, W as nat, y as int),
                    fold == row_fold(row.take(x as int)),
                decreases W - x,
            {
                proof { lemma_cell_index(y as int, x as int, W as int, H as int); }
                assert(row.take(x + 1).drop_last() =~= row.take(x as int));
                assert(row == self.cells@.subrange(y as int * W as int, y as int * W as int + W as int));
                assert(row[x as int] == self.cells@[y as int * W as int + x as int]);
                fold = fold ^ self.cells[y * W + x];
                x = x + 1;
            }
            assert(row.take(W as int) =~= row);
            let f = fold as u64 as u128;
            proof {
                assert(f * (W as u128) <= 0x1_0000_0000_0000_0000u128 * (W as u128)) by (nonlinear_arith)
                    requires
                        f < 0x1_0000_0000_0000_0000u128,
                ;
                assert(0x1_0000_0000_0000_0000u128 * (W as u128) <= u128::MAX) by (nonlinear_arith)
                    requires
                        W <= u64::MAX,
                ;
            }
            let prod: u128 = f * (W as u128);
            proof {
                assert(f * (W as u128) < 0x1_0000_0000_0000_0000u128 * (W as u128)) by (nonlinear_arith)
                    requires
                        f < 0x1_0000_0000_0000_0000u128,
                        W > 0,
                ;
                assert(prod >> 64u128 == prod / 0x1_0000_0000_0000_0000u128) by (bit_vector);
                assert(prod / 0x1_0000_0000_0000_0000u128 < W) by (nonlinear_arith)
                    requires
                        prod < 0x1_0000_0000_0000_0000u128 * (W as u128),
                ;
            }
            let s = (prod >> 64u128) as usize;
            shifts.push(s);
            y = y + 1;
        }
        assert(shifts@ =~= spec_shifts(self.cells@, W as nat, H as nat));
        shifts
    }

    /// Rotates row `y` left by `shifts[y]` (see [`spec_shift_rows`]).
    ///
    /// Each row goes through a barrel shifter (see [`rotate_row_ct`]): the time taken and the
    /// cells read do not depend on the shift amounts, which come from round keys.
    pub fn shift_rows(&mut self, shifts: &[usize])
        requires
            shifts@.len() == H,
            forall|y: int| 0 <= y < H ==> #[trigger] shifts@[y] < W,
        ensures
            final(self)@ == spec_shift_rows(old(self)@, shifts@, W as nat),
    {
        proof { use_type_invariant(&*self); }
        let ghost old_cells = self.cells@;
        assert(W <= 0x0400_0000_0000_0000) by (nonlinear_arith)
            requires
                W * H * 64 <= usize::MAX,
                H >= 4,
                usize::MAX <= 0xFFFF_FFFF_FFFF_FFFF,
        ;
        let mut cells: Vec<i64> = Vec::with_capacity(W * H);
        let mut y: usize = 0;
        while y < H
            invariant
                dims_ok(W as nat, H as nat),
                fits(W as nat, H as nat),
                W <= 0x0400_0000_0000_0000,
                old_cells == self.cells@,
                self.cells@.len() == W * H,
                shifts@.len() == H,
                forall|k: int| 0 <= k < H ==> #[trigger] shifts@[k] < W,
                y <= H,
                cells@.len() == y * W,
                forall|k: int| 0 <= k < cells@.len() ==> cells@[k] == #[trigger] spec_shift_rows(old_cells, shifts@, W as nat)[k],
            decreases H - y,
        {
            let mut row: Vec<i64> = Vec::with_capacity(W);
            let mut x: usize = 0;
            while x < W
                invariant
                    dims_ok(W as nat, H as nat),
                    fits(W as nat, H as nat),
                    self.cells@.len() == W * H,
                    y < H,
                    x <= W,
                    row@.len() == x,
                    forall|i: int| 0 <= i < x ==> #[trigger] row@[i] == self.cells@[y * W + i],
                decreases W - x,
            {
                proof {
                    lemma_cell_index(y as int, x as int, W as int, H as int);
                }
                row.push(self.cells[y * W + x]);
                x = x + 1;
            }
            let rotated = rotate_row_ct(&row, shifts[y]);
            let ghost before = cells@;
            let mut x: usize = 0;
            while x < W
                invariant
                    dims_ok(W as nat, H as nat),
                    fits(W as nat, H as nat),
                    old_cells == self.cells@,
                    self.cells@.len() == W * H,
                    shifts@.len() == H,
                    forall|k: int| 0 <= k < H ==> #[trigger] shifts@[k] < W,
                    y < H,
                    x <= W,
                    rotated@.len() == W,
                    row@.len() == W,
                    forall|i: int| 0 <= i < W ==> #[trigger] row@[i] == self.cells@[y * W + i],
                    forall|j: int| 0 <= j < W ==> #[trigger] rotated@[j] == row@[(j + shifts@[y as int]) % (W as int)],
                    before.len() == y * W,
                    cells@.len() == y * W + x,
                    forall|k: int| 0 <= k < y * W ==> cells@[k] == before[k],
                    forall|k: int| 0 <= k < before.len() ==> before[k] == #[trigger] spec_shift_rows(old_cells, shifts@, W as nat)[k],
                    forall|i: int| 0 <= i < x ==> cells@[y * W + i] == #[trigger] rotated@[i],
                decreases W - x,
            {
                cells.push(rotated[x]);
                x = x + 1;
            }
            proof {
                assert forall|k: int| 0 <= k < cells@.len() implies cells@[k] == #[trigger] spec_shift_rows(
                    old_cells,
                    shifts@,
                    W as nat,
                )[k] by {
                    if k >= y * W {
                        let i = k - y * W;
                        lemma_cell_index(y as int, i, W as int, H as int);
                        let c = (i + shifts@[y as int]) % (W as int);
                        assert(0 <= c < W);
                        lemma_cell_index(y as int, c, W as int, H as int);
                        assert(cells@[y * W + i] == rotated@[i]);
                    }
                }
            }
            assert((y + 1) * W == y * W + W) by (nonlinear_arith);
            y = y + 1;
        }
        assert(H * W == W * H) by (nonlinear_arith);
        assert(cells@ =~= spec_shift_rows(old_cells, shifts@, W as nat));
        self.cells = cells;
    }

    /// Multiplies every column by the involutory Hadamard diffusion matrix over
    /// $\mathbb{F}_{2^{64}}$ (see [`spec_mix_columns`]).
    ///
    /// The matrix is Hadamard, so its first row is all of it, and every coefficient is a sum of
    /// small powers of $x$: the product walks the input rows, repeatedly multiplies the running
    /// value by $x$ with [`gf::xtime`], and XORs it into each output row whose coefficient uses
    /// that power.
    pub fn mix_columns(&mut self)
        ensures
            final(self)@ == spec_mix_columns(old(self)@, W as nat, H as nat),
    {
        proof { use_type_invariant(&*self); }
        let ghost cells0 = self.cells@;
        let ghost mds = consts::spec_mds_row(H as nat);
        let row = consts::mds_row(H);
        let mut out_cells: Vec<i64> = vec![0i64; W * H];
        let mut x: usize = 0;
        while x < W
            invariant
                dims_ok(W as nat, H as nat),
                fits(W as nat, H as nat),
                cells0 == self.cells@,
                self.cells@.len() == W * H,
                mds == consts::spec_mds_row(H as nat),
                row@ == mds,
                row@.len() == H,
                x <= W,
                out_cells@.len() == W * H,
                forall|y: int, c: int|
                    0 <= y < H && 0 <= c < x ==> #[trigger] cell_at(out_cells@, W as nat, y, c) == mix_cell(
                        mds,
                        cells0,
                        W as nat,
                        y,
                        c,
                        H as nat,
                    ) as i64,
            decreases W - x,
        {
            let mut out: Vec<u64> = vec![0u64; H];
            let mut k: usize = 0;
            while k < H
                invariant
                    dims_ok(W as nat, H as nat),
                    fits(W as nat, H as nat),
                    cells0 == self.cells@,
                    self.cells@.len() == W * H,
                    row@ == mds,
                    row@.len() == H,
                    x < W,
                    k <= H,
                    out@.len() == H,
                    forall|y: int| 0 <= y < H ==> #[trigger] out@[y] == mix_cell(mds, cells0, W as nat, y, x as int, k as nat),
                decreases H - k,
            {
                proof { lemma_cell_index(k as int, x as int, W as int, H as int); }
                let ghost xk = self.cells@[k * W + x] as u64;
                let mut s: u64 = self.cells[k * W + x] as u64;
                let mut e: u64 = 0;
                assert forall|y: int| 0 <= y < H implies #[trigger] out@[y] == mix_cell(mds, cells0, W as nat, y, x as int, k as nat)
                    ^ gf::mul_upto(mds[xor_index(y, k as int)], xk, 0) by {
                    lemma_xor_assoc(out@[y], 0u64, 0u64);
                }
                while e < 64
                    invariant
                        dims_ok(W as nat, H as nat),
                        row@ == mds,
                        row@.len() == H,
                        k < H,
                        e <= 64,
                        s == gf::xtime_pow(xk, e as nat),
                        out@.len() == H,
                        forall|y: int| 0 <= y < H ==> #[trigger] out@[y] == mix_cell(mds, cells0, W as nat, y, x as int, k as nat)
                            ^ gf::mul_upto(mds[xor_index(y, k as int)], xk, e as nat),
                    decreases 64 - e,
                {
                    let mut i: usize = 0;
                    while i < H
                        invariant
                            dims_ok(W as nat, H as nat),
                            row@ == mds,
                            row@.len() == H,
                            k < H,
                            e < 64,
                            s == gf::xtime_pow(xk, e as nat),
                            i <= H,
                            out@.len() == H,
                            forall|y: int| 0 <= y < i ==> #[trigger] out@[y] == mix_cell(mds, cells0, W as nat, y, x as int, k as nat)
                                ^ gf::mul_upto(mds[xor_index(y, k as int)], xk, (e + 1) as nat),
                            forall|y: int| i <= y < H ==> #[trigger] out@[y] == mix_cell(mds, cells0, W as nat, y, x as int, k as nat)
                                ^ gf::mul_upto(mds[xor_index(y, k as int)], xk, e as nat),
                        decreases H - i,
                    {
                        proof { lemma_xor_index(i as u64, k as u64, H as u64); }
                        let idx = ((i as u64) ^ (k as u64)) as usize;
                        let c = row[idx];
                        let ghost prev = mix_cell(mds, cells0, W as nat, i as int, x as int, k as nat);
                        let ghost up = gf::mul_upto(c, xk, e as nat);
                        proof {
                            lemma_xor_assoc(prev, up, gf::mul_term(c, xk, e as nat));
                            lemma_xor_assoc(prev ^ up, 0u64, 0u64);
                            assert(c == mds[xor_index(i as int, k as int)]);
                            assert(gf::mul_upto(c, xk, (e + 1) as nat) == up ^ gf::mul_term(c, xk, e as nat));
                        }
                        if (c >> e) & 1 == 1 {
                            out.set(i, out[i] ^ s);
                        }
                        i = i + 1;
                    }
                    s = gf::xtime(s);
                    e = e + 1;
                }
                k = k + 1;
            }
            let mut y: usize = 0;
            while y < H
                invariant
                    dims_ok(W as nat, H as nat),
                    fits(W as nat, H as nat),
                    x < W,
                    y <= H,
                    out@.len() == H,
                    out_cells@.len() == W * H,
                    forall|yy: int| 0 <= yy < H ==> #[trigger] out@[yy] == mix_cell(mds, cells0, W as nat, yy, x as int, H as nat),
                    forall|yy: int, c: int|
                        0 <= yy < H && 0 <= c < x ==> #[trigger] cell_at(out_cells@, W as nat, yy, c) == mix_cell(
                            mds,
                            cells0,
                            W as nat,
                            yy,
                            c,
                            H as nat,
                        ) as i64,
                    forall|yy: int| 0 <= yy < y ==> #[trigger] cell_at(out_cells@, W as nat, yy, x as int) == mix_cell(
                        mds,
                        cells0,
                        W as nat,
                        yy,
                        x as int,
                        H as nat,
                    ) as i64,
                decreases H - y,
            {
                proof { lemma_cell_index(y as int, x as int, W as int, H as int); }
                let ghost before = out_cells@;
                out_cells.set(y * W + x, out[y] as i64);
                proof {
                    assert forall|yy: int, c: int|
                        0 <= yy < H && 0 <= c < W && (yy != y || c != x) implies #[trigger] cell_at(out_cells@, W as nat, yy, c)
                            == cell_at(before, W as nat, yy, c) by {
                        lemma_cell_index(yy, c, W as int, H as int);
                        if yy * (W as int) + c == y * W + x {
                            lemma_cell_index(y as int, x as int, W as int, H as int);
                        }
                    }
                }
                y = y + 1;
            }
            x = x + 1;
        }
        assert forall|k: int| 0 <= k < out_cells@.len() implies out_cells@[k] == #[trigger] spec_mix_columns(
            cells0,
            W as nat,
            H as nat,
        )[k] by {
            lemma_split_index(k, W as int, H as int);
            assert(cell_at(out_cells@, W as nat, k / (W as int), k % (W as int)) == out_cells@[k]);
        }
        assert(out_cells@ =~= spec_mix_columns(cells0, W as nat, H as nat));
        self.cells = out_cells;
    }

    /// Adds `amount` to the grid read as one little-endian multi-limb integer (cell 0 least
    /// significant), modulo $2^{64 W H}$ (see [`add_limbs`]).
    ///
    /// The carry is propagated through every cell whatever its value, so the time taken does not
    /// depend on where the carry stops.
    pub fn increment(&mut self, amount: u64)
        ensures
            final(self)@ == add_limbs(old(self)@, amount as nat),
    {
        proof { use_type_invariant(&*self); }
        let ghost old_cells = self.cells@;
        let mut cells = self.cells.clone();
        let n = cells.len();
        let mut carry: u64 = amount;
        let mut i: usize = 0;
        assert(old_cells.skip(0) =~= old_cells);
        assert(cells@.take(0) =~= Seq::<i64>::empty());
        while i < n
            invariant
                n == cells@.len(),
                n == old_cells.len(),
                i <= n,
                cells@.skip(i as int) == old_cells.skip(i as int),
                cells@.take(i as int) + add_limbs(old_cells.skip(i as int), carry as nat) == add_limbs(
                    old_cells,
                    amount as nat,
                ),
            decreases n - i,
        {
            let x = cells[i] as u64;
            let sum = x.wrapping_add(carry);
            let next: u64 = if sum < carry { 1 } else { 0 };
            proof {
                let t = x as nat + carry as nat;
                assert(old_cells.skip(i as int)[0] == old_cells[i as int]);
                assert(cells@[i as int] == old_cells[i as int]) by {
                    assert(cells@.skip(i as int)[0] == cells@[i as int]);
                }
                assert(sum == (t % 0x1_0000_0000_0000_0000nat) as u64);
                assert(next as nat == t / 0x1_0000_0000_0000_0000nat);
                assert(old_cells.skip(i as int).drop_first() =~= old_cells.skip(i + 1));
            }
            let ghost before = cells@;
            cells.set(i, sum as i64);
            proof {
                assert(cells@.take(i + 1) =~= before.take(i as int).push(sum as i64));
                assert(cells@.skip(i + 1) =~= before.skip(i + 1));
                assert(before.skip(i + 1) =~= old_cells.skip(i + 1)) by {
                    assert forall|j: int| 0 <= j < before.len() - (i + 1) implies #[trigger] before.skip(i + 1)[j]
                        == old_cells.skip(i + 1)[j] by {
                        assert(before.skip(i as int)[j + 1] == old_cells.skip(i as int)[j + 1]);
                    }
                }
                let t = x as nat + carry as nat;
                assert(add_limbs(old_cells.skip(i as int), carry as nat) == seq![sum as i64] + add_limbs(
                    old_cells.skip(i + 1),
                    next as nat,
                ));
                assert(cells@.take(i + 1) + add_limbs(old_cells.skip(i + 1), next as nat) =~= before.take(
                    i as int,
                ) + add_limbs(old_cells.skip(i as int), carry as nat));
            }
            carry = next;
            i = i + 1;
        }
        assert(cells@.take(n as int) =~= cells@);
        assert(old_cells.skip(n as int) =~= Seq::<i64>::empty());
        assert(add_limbs(old_cells.skip(n as int), carry as nat) =~= Seq::<i64>::empty());
        assert(cells@ + Seq::<i64>::empty() =~= cells@);
        self.cells = cells;
    }

    /// Decodes a byte sequence into grids: each grid takes $8 W H$ bytes and each cell is a
    /// big-endian `i64`, row by row.
    ///
    /// Fails with [`GridError::InvalidByteLength`] when the length is not a multiple of
    /// $8 W H$, and with [`GridError::InvalidDimensions`] on an unsupported shape when there is
    /// anything to decode.
    pub fn from_bytes(bytes: &[u8]) -> (r: Result<Vec<Self>, GridError>)
        requires
            fits(W as nat, H as nat),
            W * H > 0,
        ensures
            bytes@.len() % ((8 * W * H) as nat) != 0 ==> r == Err::<Vec<Self>, GridError>(
                GridError::InvalidByteLength { expected_mod: (8 * W * H) as usize, actual_len: bytes@.len() as usize },
            ),
            bytes@.len() % ((8 * W * H) as nat) == 0 && bytes@.len() > 0 && !dims_ok(W as nat, H as nat) ==> r
                == Err::<Vec<Self>, GridError>(GridError::InvalidDimensions { width: W, height: H }),
            bytes@.len() % ((8 * W * H) as nat) == 0 && (bytes@.len() == 0 || dims_ok(W as nat, H as nat)) ==> (r matches Ok(v)
                && v@.len() == bytes@.len() / ((8 * W * H) as nat) && forall|g: int|
                0 <= g < v@.len() ==> (#[trigger] v@[g])@ == spec_grids_from_bytes(bytes@, (W * H) as nat)[g]),
    {
        let area = W * H;
        let matrix_size = area * 8;
        assert(matrix_size == 8 * W * H) by (nonlinear_arith)
            requires
                area == W * H,
                matrix_size == area * 8,
        ;
        if bytes.len() % matrix_size != 0 {
            return Err(GridError::InvalidByteLength { expected_mod: matrix_size, actual_len: bytes.len() });
        }
        let blen = bytes.len();
        let count = blen / matrix_size;
        let mut grids: Vec<Self> = Vec::with_capacity(count);
        let ghost spec = spec_grids_from_bytes(bytes@, area as nat);
        assert(spec.len() == count);
        let mut g: usize = 0;
        while g < count
            invariant
                area == W * H,
                area > 0,
                matrix_size == area * 8,
                matrix_size == 8 * W * H,
                fits(W as nat, H as nat),
                count == bytes@.len() / (matrix_size as nat),
                blen == bytes@.len(),
                bytes@.len() % (matrix_size as nat) == 0,
                spec == spec_grids_from_bytes(bytes@, area as nat),
                spec.len() == count,
                g <= count,
                grids@.len() == g,
                g > 0 ==> dims_ok(W as nat, H as nat),
                forall|j: int| 0 <= j < g ==> (#[trigger] grids@[j])@ == spec[j],
            decreases count - g,
        {
            let mut grid = Self::new()?;
            proof { use_type_invariant(&grid); }
            let mut cells: Vec<i64> = Vec::with_capacity(area);
            let mut c: usize = 0;
            proof {
                vstd::arithmetic::div_mod::lemma_fundamental_div_mod(bytes@.len() as int, matrix_size as int);
                assert((g as int + 1) * (matrix_size as int) <= bytes@.len()) by (nonlinear_arith)
                    requires
                        g < count,
                        count == (bytes@.len() as int) / (matrix_size as int),
                        bytes@.len() == (matrix_size as int) * ((bytes@.len() as int) / (matrix_size as int)) + (bytes@.len() as int) % (matrix_size as int),
                        (bytes@.len() as int) % (matrix_size as int) == 0,
                ;
            }
            while c < area
                invariant
                    area == W * H,
                    matrix_size == area * 8,
                    spec == spec_grids_from_bytes(bytes@, area as nat),
                    g < count,
                    spec.len() == count,
                    (g as int + 1) * (matrix_size as int) <= bytes@.len(),
                    blen == bytes@.len(),
                    c <= area,
                    cells@.len() == c,
                    forall|j: int| 0 <= j < c ==> cells@[j] == #[trigger] spec[g as int][j],
                decreases area - c,
            {
                assert((g as int * area as int + c as int) * 8 + 8 <= (g as int + 1) * (matrix_size as int)) by (nonlinear_arith)
                    requires
                        c < area,
                        matrix_size == area * 8,
                ;
                assert((g as int) * (area as int) + (c as int) <= (bytes@.len() as int)) by (nonlinear_arith)
                    requires
                        (g as int * area as int + c as int) * 8 + 8 <= (g as int + 1) * (matrix_size as int),
                        (g as int + 1) * (matrix_size as int) <= bytes@.len(),
                ;
                let ga = g * area;
                let q = ga + c;
                let p = q * 8;
                cells.push(read_be_i64(bytes, p));
                c = c + 1;
            }
            assert(cells@ =~= spec[g as int]);
            grid.cells = cells;
            grids.push(grid);
            g = g + 1;
        }
        proof {
            if bytes@.len() > 0 {
                vstd::arithmetic::div_mod::lemma_fundamental_div_mod(bytes@.len() as int, matrix_size as int);
                assert(count > 0) by (nonlinear_arith)
                    requires
                        bytes@.len() > 0,
                        count == (bytes@.len() as int) / (matrix_size as int),
                        bytes@.len() == (matrix_size as int) * ((bytes@.len() as int) / (matrix_size as int)) + (bytes@.len() as int) % (matrix_size as int),
                        (bytes@.len() as int) % (matrix_size as int) == 0,
                ;
            }
        }
        Ok(grids)
    }

    /// Compares two grids in constant time: every pair of cells is compared with `subtle`'s
    /// `ConstantTimeEq` and the results are ANDed, so the time taken does not depend on where
    /// the grids first differ.
    pub fn ct_eq(&self, other: &Self) -> (r: bool)
        ensures
            r == (self@ == other@),
    {
        proof {
            use_type_invariant(self);
            use_type_invariant(other);
        }
        let n = self.cells.len();
        let mut result: u8 = 1;
        let mut i: usize = 0;
        assert(self.cells@.take(0) =~= other.cells@.take(0));
        while i < n
            invariant
                n == self.cells@.len(),
                n == other.cells@.len(),
                i <= n,
                result == 0 || result == 1,
                (result == 1) <==> (self.cells@.take(i as int) == other.cells@.take(i as int)),
            decreases n - i,
        {
            let e = cell_ct_eq(&self.cells[i], &other.cells[i]);
            proof {
                let a = self.cells@[i as int];
                let b = other.cells@[i as int];
                assert(self.cells@.take(i + 1) == self.cells@.take(i as int).push(a));
                assert(other.cells@.take(i + 1) == other.cells@.take(i as int).push(b));
                if self.cells@.take(i + 1) == other.cells@.take(i + 1) {
                    assert(self.cells@.take(i + 1)[i as int] == other.cells@.take(i + 1)[i as int]);
                    assert(self.cells@.take(i as int) =~= self.cells@.take(i + 1).drop_last());
                    assert(other.cells@.take(i as int) =~= other.cells@.take(i + 1).drop_last());
                }
                assert((result & e == 1u8) == (result == 1u8 && e == 1u8) && (result & e == 0u8 || result & e == 1u8))
                    by (bit_vector)
                    requires
                        result == 0u8 || result == 1u8,
                        e == 0u8 || e == 1u8,
                ;
            }
            result = result & e;
            i = i + 1;
        }
        assert(self.cells@.take(n as int) =~= self.cells@);
        assert(other.cells@.take(n as int) =~= other.cells@);
        result == 1
    }

    /// Cell-wise XOR with `key_grid`: $G_{x,y} \leftarrow G_{x,y} \oplus K_{x,y}$.
    pub fn xor_grids(&mut self, key_grid: &Grid<W, H>)
        ensures
            final(self)@ == xor_seq(old(self)@, key_grid@),
    {
        proof {
            use_type_invariant(&*self);
            use_type_invariant(key_grid);
        }
        let n = self.cells.len();
        let mut cells: Vec<i64> = Vec::with_capacity(n);
        let mut i: usize = 0;
        while i < n
            invariant
                n == self.cells@.len(),
                n == key_grid.cells@.len(),
                i <= n,
                cells@.len() == i,
                forall|k: int| 0 <= k < i ==> cells@[k] == #[trigger] xor_seq(self.cells@, key_grid.cells@)[k],
            decreases n - i,
        {
            cells.push(self.cells[i] ^ key_grid.cells[i]);
            i = i + 1;
        }
        assert(cells@ =~= xor_seq(self.cells@, key_grid.cells@));
        self.cells = cells;
    }
}

impl<const W: usize, const H: usize> Clone for Grid<W, H> {
    fn clone(&self) -> (r: Self)
        ensures
            r@ == self@,
    {
        proof { use_type_invariant(self); }
        Grid { cells: self.cells.clone() }
    }
}

/// Index arithmetic of row-major cells.
/// The cells `cells` of a grid `w` cells wide with row `y` replaced by `row`.
pub open spec fn spec_with_row(cells: Seq<i64>, y: int, w: int, row: Seq<i64>) -> Seq<i64> {
    Seq::new(cells.len(), |i: int| if y * w <= i < y * w + w { row[i - y * w] } else { cells[i] })
}

pub proof fn lemma_cell_index(y: int, x: int, w: int, h: int)
    requires
        0 <= y < h,
        0 <= x < w,
    ensures
        0 <= y * w + x < w * h,
        (y * w + x) / w == y,
        (y * w + x) % w == x,
{
    assert(0 <= y * w + x < w * h) by (nonlinear_arith)
        requires
            0 <= y < h,
            0 <= x < w,
    ;
    vstd::arithmetic::div_mod::lemma_fundamental_div_mod_converse(y * w + x, w, y, x);
}

} // verus!
