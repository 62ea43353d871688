//! One-shot encryption: shaping data into grids and running the WHY2 block cipher over them in
//! counter mode.

use vstd::prelude::*;

use crate::crypto::{
    apply_ctr, drawn_grid, generate_key, generate_nonce, generate_round_keys, grids_view, spec_keystream,
    spec_round_keys,
};
use crate::grid::{dims_ok, fits, spec_from_key, xor_seq, Grid, GridError};
use crate::types::EncryptedData;

use vstd::string::group_string_axioms;

verus! {

/// Number of grids of area `area` needed to hold `len` cells.
pub open spec fn grid_count(len: nat, area: nat) -> nat {
    len / area + if len % area == 0 {
        0nat
    } else {
        1nat
    }
}

/// `input` cut into grids of area `w * h`, the last one filled up with zeros.
pub open spec fn spec_pad_grids(input: Seq<i64>, w: nat, h: nat) -> Seq<Seq<i64>> {
    let area = w * h;
    Seq::new(
        grid_count(input.len(), area),
        |g: int|
            Seq::new(
                area,
                |c: int|
                    if g * area + c < input.len() {
                        input[g * area + c]
                    } else {
                        0i64
                    },
            ),
    )
}

/// Counter mode over a sequence of blocks: block `i` is XORed with keystream block
/// `offset + i`.
pub open spec fn spec_ctr_grids(
    grids: Seq<Seq<i64>>,
    nonce: Seq<i64>,
    keys: Seq<Seq<i64>>,
    offset: nat,
    w: nat,
    h: nat,
) -> Seq<Seq<i64>> {
    Seq::new(grids.len(), |i: int| xor_seq(grids[i], spec_keystream(nonce, keys, offset + i as nat, w, h)))
}

/// Whether `key` is a raw key of the wrong length for a `w × h` grid: it must hold exactly
/// $2 w h$ values.
pub open spec fn key_wrong_length(key: Option<&[i64]>, w: nat, h: nat) -> bool {
    match key {
        Some(k) => k@.len() != 2 * w * h,
        None => false,
    }
}

/// Whether `e` is `data` encrypted under `key`: the data cut into zero-padded grids and run
/// through counter mode from block zero under the round keys of `e.key`; the key grid built from
/// `key` when one was given, and from a freshly drawn key otherwise; the nonce a key grid built
/// from a freshly drawn key.
pub open spec fn encrypted_as<const W: usize, const H: usize>(e: EncryptedData<W, H>, data: Seq<i64>, key: Option<&[i64]>) -> bool {
    &&& grids_view(e.output@) == spec_ctr_grids(
        spec_pad_grids(data, W as nat, H as nat),
        e.nonce@,
        spec_round_keys(e.key@, W as nat, H as nat),
        0,
        W as nat,
        H as nat,
    )
    &&& match key {
        Some(k) => e.key@ == spec_from_key(k@, (W * H) as nat),
        None => drawn_grid(e.key@, W as nat, H as nat),
    }
    &&& drawn_grid(e.nonce@, W as nat, H as nat)
}

/// Encrypts a sequence of `i64` values.
///
/// The input is cut into grids, the last one padded with zeros; the key (generated from system
/// entropy when `key` is `None`, otherwise exactly $2 W H$ values) is shaped into a key grid,
/// the round keys are derived from it, and every grid is encrypted in counter mode under a fresh
/// random nonce: $C_i = P_i \oplus E_K(\text{Nonce} + i)$.
///
/// Fails with [`GridError::InvalidDimensions`] on an unsupported shape, with
/// [`GridError::InvalidKeyLength`] on a key of the wrong length (the shape is reported first
/// when there is input to encrypt), and with [`GridError::EntropyUnavailable`] when the entropy
/// source fails.
pub fn encrypt<const W: usize, const H: usize>(input: &[i64], key: Option<&[i64]>) -> (r: Result<
    EncryptedData<W, H>,
    GridError,
>)
    requires
        W * H > 0,
        fits(W as nat, H as nat),
    ensures
        input@.len() > 0 && !dims_ok(W as nat, H as nat) ==> r == Err::<EncryptedData<W, H>, GridError>(
            GridError::InvalidDimensions { width: W, height: H },
        ),
        (input@.len() == 0 || dims_ok(W as nat, H as nat)) && key_wrong_length(key, W as nat, H as nat) ==> r
            == Err::<EncryptedData<W, H>, GridError>(
            GridError::InvalidKeyLength {
                expected_len: (2 * W * H) as usize,
                actual_len: key.unwrap()@.len() as usize,
            },
        ),
        input@.len() == 0 && !dims_ok(W as nat, H as nat) && !key_wrong_length(key, W as nat, H as nat) ==> (r
            == Err::<EncryptedData<W, H>, GridError>(GridError::InvalidDimensions { width: W, height: H }) || (
        key is None && r == Err::<EncryptedData<W, H>, GridError>(GridError::EntropyUnavailable))),
        dims_ok(W as nat, H as nat) && !key_wrong_length(key, W as nat, H as nat) ==> (r == Err::<
            EncryptedData<W, H>,
            GridError,
        >(GridError::EntropyUnavailable) || (r matches Ok(e) && encrypted_as(e, input@, key))),
{
    let area = W * H;
    let len = input.len();
    assert(len % area == 0 || len / area + 1 <= usize::MAX) by (nonlinear_arith)
        requires
            area > 0,
    {
        if len % area != 0 {
            vstd::arithmetic::div_mod::lemma_fundamental_div_mod(len as int, area as int);
            assert(area >= 2);
        }
    }
    let count = len / area + if len % area == 0 {
        0
    } else {
        1
    };
    assert(count > 0 ==> len > 0) by {
        if len == 0 {
            assert(0usize / area == 0 && 0usize % area == 0) by (nonlinear_arith)
                requires
                    area > 0,
            ;
        }
    }
    let ghost pad = spec_pad_grids(input@, W as nat, H as nat);
    let mut grids: Vec<Grid<W, H>> = Vec::with_capacity(count);
    let mut g: usize = 0;
    while g < count
        invariant
            area == W * H,
            area > 0,
            fits(W as nat, H as nat),
            len == input@.len(),
            count == grid_count(len as nat, area as nat),
            count > 0 ==> len > 0,
            pad == spec_pad_grids(input@, W as nat, H as nat),
            g <= count,
            g > 0 ==> dims_ok(W as nat, H as nat),
            grids@.len() == g,
            forall|j: int| 0 <= j < g ==> (#[trigger] grids@[j])@ == pad[j],
        decreases count - g,
    {
        assert(g * area <= len) by (nonlinear_arith)
            requires
                g < count,
                count == (len as int) / (area as int) + (if (len as int) % (area as int) == 0 { 0int } else { 1int }),
                area > 0,
        {
            vstd::arithmetic::div_mod::lemma_fundamental_div_mod(len as int, area as int);
            if (len as int) % (area as int) == 0 {
                assert(g <= (len as int) / (area as int) - 1);
            } else {
                assert(g <= (len as int) / (area as int));
            }
        }
        let start = g * area;
        let mut chunk: Vec<i64> = Vec::with_capacity(area);
        let mut c: usize = 0;
        while c < area && c < len - start
            invariant
                area == W * H,
                start == g * area,
                start <= len,
                start + c <= len,
                len == input@.len(),
                c <= area,
                chunk@.len() == c,
                forall|j: int| 0 <= j < c ==> chunk@[j] == #[trigger] input@[start + j],
            decreases area - c,
        {
            chunk.push(input[start + c]);
            c = c + 1;
        }
        let grid = Grid::<W, H>::from_flat(chunk.as_slice())?;
        proof {
            assert(grid@ =~= pad[g as int]) by {
                assert forall|j: int| 0 <= j < area implies grid@[j] == #[trigger] pad[g as int][j] by {
                    if start + j < len {
                        assert(j < c);
                    }
                }
            }
        }
        grids.push(grid);
        g = g + 1;
    }
    proof {
        if len > 0 {
            assert(count > 0) by (nonlinear_arith)
                requires
                    len > 0,
                    count == (len as int) / (area as int) + (if (len as int) % (area as int) == 0 { 0int } else { 1int }),
                    area > 0,
            {
                vstd::arithmetic::div_mod::lemma_fundamental_div_mod(len as int, area as int);
            }
        }
        assert(2 * W * H == area * 2) by (nonlinear_arith)
            requires
                area == W * H,
        ;
    }
    let key_used: Vec<i64> = match key {
        Some(k) => {
            if k.len() != area * 2 {
                return Err(GridError::InvalidKeyLength { expected_len: area * 2, actual_len: k.len() });
            }
            vstd::slice::slice_to_vec(k)
        },
        None => generate_key::<W, H>()?,
    };
    let key_grid = Grid::<W, H>::from_key(key_used.as_slice())?;
    proof { use_type_invariant(&key_grid); }
    let round_keys = generate_round_keys(&key_grid)?;
    let nonce = generate_nonce::<W, H>()?;
    proof {
        assert(grids_view(round_keys@).len() == crate::consts::ROUND_KEYS);
    }
    let ghost before = grids@;
    apply_ctr(&mut grids, &nonce, round_keys.as_slice(), None);
    proof {
        assert(grids_view(grids@) =~= spec_ctr_grids(pad, nonce@, spec_round_keys(key_grid@, W as nat, H as nat), 0, W as nat, H as nat)) by {
            assert forall|i: int| 0 <= i < grids@.len() implies #[trigger] grids_view(grids@)[i] == spec_ctr_grids(
                pad,
                nonce@,
                spec_round_keys(key_grid@, W as nat, H as nat),
                0,
                W as nat,
                H as nat,
            )[i] by {
                assert(before[i]@ == pad[i]);
            }
        }
    }
    Ok(EncryptedData { output: grids, key: key_grid, nonce: nonce })
}

/// Two characters packed into one cell: the first in the high 32 bits, the second in the low
/// 32 bits (the big-endian bytes of both code points, in order).
pub open spec fn pair_word(a: char, b: char) -> i64 {
    ((((a as u32) as u64) << 32u64) | ((b as u32) as u64)) as i64
}

/// The characters of `cs` packed two per cell, an odd tail paired with `'\0'`.
pub open spec fn spec_pack_chars(cs: Seq<char>) -> Seq<i64> {
    Seq::new(
        (cs.len() + 1) / 2,
        |k: int| pair_word(cs[2 * k], if 2 * k + 1 < cs.len() { cs[2 * k + 1] } else { '\0' }),
    )
}

/// Encrypts a string: its characters are packed two per `i64` cell (see [`spec_pack_chars`])
/// and the cells encrypted with [`encrypt`].
pub fn encrypt_string<const W: usize, const H: usize>(input: &str, key: Option<&[i64]>) -> (r: Result<
    EncryptedData<W, H>,
    GridError,
>)
    requires
        W * H > 0,
        fits(W as nat, H as nat),
    ensures
        input@.len() > 0 && !dims_ok(W as nat, H as nat) ==> r == Err::<EncryptedData<W, H>, GridError>(
            GridError::InvalidDimensions { width: W, height: H },
        ),
        (input@.len() == 0 || dims_ok(W as nat, H as nat)) && key_wrong_length(key, W as nat, H as nat) ==> r
            == Err::<EncryptedData<W, H>, GridError>(
            GridError::InvalidKeyLength {
                expected_len: (2 * W * H) as usize,
                actual_len: key.unwrap()@.len() as usize,
            },
        ),
        input@.len() == 0 && !dims_ok(W as nat, H as nat) && !key_wrong_length(key, W as nat, H as nat) ==> (r
            == Err::<EncryptedData<W, H>, GridError>(GridError::InvalidDimensions { width: W, height: H }) || (
        key is None && r == Err::<EncryptedData<W, H>, GridError>(GridError::EntropyUnavailable))),
        dims_ok(W as nat, H as nat) && !key_wrong_length(key, W as nat, H as nat) ==> (r == Err::<
            EncryptedData<W, H>,
            GridError,
        >(GridError::EntropyUnavailable) || (r matches Ok(e) && encrypted_as(e, spec_pack_chars(input@), key))),
{
    broadcast use group_string_axioms;

    let mut chars: Vec<char> = Vec::new();
    for c in it: input.chars()
        invariant
            chars@ == it.seq().take(it.index()),
    {
        chars.push(c);
    }
    assert(chars@ == input@);
    let n = chars.len();
    let mut words: Vec<i64> = Vec::with_capacity(n / 2 + 1);
    let pairs = n / 2 + n % 2;
    assert(pairs == (n + 1) / 2);
    let mut k: usize = 0;
    while k < pairs
        invariant
            n == chars@.len(),
            pairs == (n + 1) / 2,
            chars@ == input@,
            k <= pairs,
            words@.len() == k,
            forall|j: int| 0 <= j < k ==> words@[j] == #[trigger] spec_pack_chars(input@)[j],
        decreases pairs - k,
    {
        let a = chars[2 * k];
        let b = if 2 * k + 1 < n {
            chars[2 * k + 1]
        } else {
            '\0'
        };
        words.push(((((a as u32) as u64) << 32u64) | ((b as u32) as u64)) as i64);
        k = k + 1;
    }
    assert(words@ =~= spec_pack_chars(input@));
    encrypt::<W, H>(words.as_slice(), key)
}

} // verus!
