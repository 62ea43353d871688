//! Arithmetic in $\mathbb{F}_{2^{64}}$ modulo $p(x) = x^{64} + x^4 + x^3 + x + 1$, which backs
//! the column diffusion of [`Grid::mix_columns`](crate::grid::Grid::mix_columns).
//!
//! Every coefficient of the diffusion matrix is a sum of small powers of $x$, so a product is a
//! short chain of [`xtime`] steps and XORs; no general field multiplication is needed.

use vstd::prelude::*;

verus! {

/// Columns processed together by the diffusion layer.
pub const LANE: usize = 4;

/// Multiplication by $x$: shift up one bit and fold the departing top bit back through $p(x)$.
pub open spec fn spec_xtime(v: u64) -> u64 {
    (v << 1u64) ^ (0u64.wrapping_sub(v >> 63u64) & 0x1Bu64)
}

/// Multiplies by $x$ once, folding the bit that leaves the top back through $p(x)$.
pub fn xtime(v: u64) -> (r: u64)
    ensures
        r == spec_xtime(v),
{
    (v << 1u64) ^ (0u64.wrapping_sub(v >> 63u64) & 0x1Bu64)
}

/// $v \cdot x^e$.
pub open spec fn xtime_pow(v: u64, e: nat) -> u64
    decreases e,
{
    if e == 0 {
        v
    } else {
        spec_xtime(xtime_pow(v, (e - 1) as nat))
    }
}

/// The contribution of bit `e` of the coefficient `c` to the product $c \cdot v$.
pub open spec fn mul_term(c: u64, v: u64, e: nat) -> u64 {
    if (c >> (e as u64)) & 1u64 == 1u64 {
        xtime_pow(v, e)
    } else {
        0u64
    }
}

/// $c \cdot v$ restricted to the lowest `n` bits of the coefficient `c`.
pub open spec fn mul_upto(c: u64, v: u64, n: nat) -> u64
    decreases n,
{
    if n == 0 {
        0u64
    } else {
        mul_upto(c, v, (n - 1) as nat) ^ mul_term(c, v, (n - 1) as nat)
    }
}

/// The field product $c \cdot v$ in $\mathbb{F}_{2^{64}}$.
pub open spec fn gf_mul(c: u64, v: u64) -> u64 {
    mul_upto(c, v, 64)
}

/// XOR of every element of `s`.
pub open spec fn xor_fold(s: Seq<u64>) -> u64
    decreases s.len(),
{
    if s.len() == 0 {
        0u64
    } else {
        xor_fold(s.drop_last()) ^ s.last()
    }
}

/// Whether the Hadamard matrix with first row `row` is its own inverse.
///
/// For a Hadamard matrix $M^2 = \left(\bigoplus_k m_k\right)^2 I$, so the matrix is involutory
/// exactly when its first row XORs to one.
pub fn is_involutory(row: &[u64]) -> (r: bool)
    ensures
        r == (xor_fold(row@) == 1u64),
{
    let mut x: u64 = 0;
    let mut i: usize = 0;
    while i < row.len()
        invariant
            i <= row@.len(),
            x == xor_fold(row@.take(i as int)),
        decreases row.len() - i,
    {
        assert(row@.take(i + 1).drop_last() =~= row@.take(i as int));
        x = x ^ row[i];
        i = i + 1;
    }
    assert(row@.take(i as int) =~= row@);
    x == 1
}

/// The rows of `m` as sequences.
pub open spec fn matrix_view(m: Seq<Vec<u64>>) -> Seq<Seq<u64>> {
    m.map_values(|row: Vec<u64>| row@)
}

/// Whether entry $(i, j)$ of `m` equals entry $(0, i \oplus j)$.
pub open spec fn hadamard_at(m: Seq<Seq<u64>>, i: int, j: int) -> bool {
    ((i as u64) ^ (j as u64)) < m.len() && m[i][j] == m[0][((i as u64) ^ (j as u64)) as int]
}

/// Whether the square matrix `m` satisfies $M_{i,j} = M_{0, i \oplus j}$.
pub fn is_hadamard(m: &Vec<Vec<u64>>) -> (r: bool)
    requires
        forall|i: int| 0 <= i < m@.len() ==> #[trigger] m@[i]@.len() == m@.len(),
    ensures
        r == (forall|i: int, j: int|
            0 <= i < m@.len() && 0 <= j < m@.len() ==> #[trigger] hadamard_at(
matrix_view(m@), i, j)),
{
    let ghost mm = matrix_view(m@);
    let n = m.len();
    let mut i: usize = 0;
    while i < n
        invariant
            n == m@.len(),
            mm == matrix_view(m@),
            i <= n,
            forall|k: int| 0 <= k < m@.len() ==> #[trigger] m@[k]@.len() == m@.len(),
            forall|a: int, b: int| 0 <= a < i && 0 <= b < n ==> #[trigger] hadamard_at(mm, a, b),
        decreases n - i,
    {
        let mut j: usize = 0;
        while j < n
            invariant
                n == m@.len(),
                mm == matrix_view(m@),
                i < n,
                j <= n,
                forall|k: int| 0 <= k < m@.len() ==> #[trigger] m@[k]@.len() == m@.len(),
                forall|a: int, b: int| 0 <= a < i && 0 <= b < n ==> #[trigger] hadamard_at(mm, a, b),
                forall|b: int| 0 <= b < j ==> #[trigger] hadamard_at(mm, i as int, b),
            decreases n - j,
        {
            let x = (i as u64) ^ (j as u64);
            if x >= n as u64 {
                assert(!hadamard_at(mm, i as int, j as int));
                return false;
            }
            if m[i][j] != m[0][x as usize] {
                assert(!hadamard_at(mm, i as int, j as int));
                return false;
            }
            assert(hadamard_at(mm, i as int, j as int));
            j = j + 1;
        }
        i = i + 1;
    }
    true
}

} // verus!
