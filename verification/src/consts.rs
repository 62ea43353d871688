//! Cryptographic constants and configuration parameters of the WHY2 cipher.

use vstd::prelude::*;

verus! {

/// Length of the round key schedule.
///
/// The schedule is consumed as *whitening key, rounds, whitening key*: the first key is XORed
/// into the counter block before any round runs, the last one after every round has run, and
/// each key between them drives one round of nonlinear and linear mixing. The number of keyed
/// rounds is therefore `ROUND_KEYS - 2`.
pub const ROUND_KEYS: usize = 17;

/// Number of ARX iterations applied to each cell by [`subcell`](crate::grid::Grid::subcell).
pub const SUBCELL_ROUNDS: u32 = 5;

/// $\lfloor 2^{32} / \varphi \rfloor$, the per-iteration increment of the ARX sum.
pub const DELTA_32: u32 = 0x9E3779B9;

/// $\lfloor 2^{64} / \varphi \rfloor$, the 64-bit counterpart of [`DELTA_32`].
pub const DELTA_64: u64 = 0x9E3779B97F4A7C15;

/// Default number of columns of a [`Grid`](crate::grid::Grid).
pub const DEFAULT_GRID_WIDTH: usize = 8;

/// Default number of rows of a [`Grid`](crate::grid::Grid).
pub const DEFAULT_GRID_HEIGHT: usize = 8;

/// Number of blocks below which the keystream is generated block by block on the calling thread.
pub const PARALLEL_THRESHOLD: usize = 4;

/// First row of the involutory Hadamard diffusion matrix of the given order.
///
/// A Hadamard matrix satisfies $M_{i,j} = M_{0, i \oplus j}$, so its first row is all of it.
/// Every coefficient is a sum of small powers of $x$ in $\mathbb{F}_{2^{64}}$, and the row XORs
/// to one, which makes the matrix its own inverse (see [`mds_is_involutory`](crate::gf::is_involutory)).
pub open spec fn spec_mds_row(order: nat) -> Seq<u64> {
    if order == 4 {
        seq![0x1u64, 0x2, 0x4, 0x6]
    } else if order == 8 {
        seq![0x1u64, 0x2, 0x4, 0x6, 0x8, 0xA, 0xC, 0xE]
    } else if order == 16 {
        seq![0x1u64, 0x2, 0x4, 0x6, 0x8, 0xA, 0xC, 0xE, 0x10, 0x12, 0x14, 0x16, 0x18, 0x1A, 0x1C, 0x1E]
    } else {
        Seq::empty()
    }
}

/// Executable form of [`spec_mds_row`].
pub fn mds_row(order: usize) -> (r: Vec<u64>)
    ensures
        r@ == spec_mds_row(order as nat),
{
    if order == 4 {
        let r = vec![0x1u64, 0x2, 0x4, 0x6];
        assert(r@ =~= spec_mds_row(4));
        r
    } else if order == 8 {
        let r = vec![0x1u64, 0x2, 0x4, 0x6, 0x8, 0xA, 0xC, 0xE];
        assert(r@ =~= spec_mds_row(8));
        r
    } else if order == 16 {
        let r = vec![0x1u64, 0x2, 0x4, 0x6, 0x8, 0xA, 0xC, 0xE, 0x10, 0x12, 0x14, 0x16, 0x18, 0x1A, 0x1C, 0x1E];
        assert(r@ =~= spec_mds_row(16));
        r
    } else {
        let r: Vec<u64> = Vec::new();
        assert(r@ =~= spec_mds_row(order as nat));
        r
    }
}

} // verus!
