//! Key derivation, round key expansion and counter (CTR) mode for the WHY2 cipher.

use vstd::prelude::*;

use rand::{rngs::SysRng, TryRng};
use rand_chacha::rand_core::{Rng, SeedableRng};
use rand_chacha::ChaCha20Rng;
use sha2::{Digest, Sha256};

use crate::consts;
use crate::grid::{
    add_limbs, dims_ok, fits, lemma_add_limbs_compose, lemma_add_limbs_len, spec_from_key, spec_mix_columns, spec_shift_rows,
    spec_shifts, spec_subcell, xor_seq, Grid, GridError,
};

verus! {

/// The SHA-256 digest of `data`.
pub uninterp spec fn spec_sha256(data: Seq<u8>) -> Seq<u8>;

/// The first `count` words that a ChaCha20 generator seeded with `seed` yields from `next_u64`.
pub uninterp spec fn spec_chacha20_words(seed: Seq<u8>, count: nat) -> Seq<u64>;

/// Hashes `data` with `sha2::Sha256::digest`.
///
/// Trusted: the result is the SHA-256 digest of `data`, which is a function of `data` alone.
#[verifier::external_body]
fn sha256(data: &[u8]) -> (r: [u8; 32])
    ensures
        r@ == spec_sha256(data@),
{
    Sha256::digest(data).into()
}

/// Seeds `rand_chacha::ChaCha20Rng::from_seed` with `seed` and draws `count` words with
/// `next_u64`.
///
/// Trusted: the words are a function of the seed and the count alone, and there are `count`
/// of them.
#[verifier::external_body]
fn chacha20_words(seed: &[u8; 32], count: usize) -> (r: Vec<u64>)
    ensures
        r@ == spec_chacha20_words(seed@, count as nat),
        r@.len() == count,
{
    let mut rng = ChaCha20Rng::from_seed(*seed);
    let mut words = Vec::with_capacity(count);
    for _ in 0..count {
        words.push(rng.next_u64());
    }
    words
}

/// Fills a 32-byte seed from the operating system's entropy source with
/// `rand::rngs::SysRng::try_fill_bytes`; `None` when the source fails.
///
/// Trusted: nothing is claimed of the bytes beyond their number, which their type fixes, nor of
/// when the source fails.
#[verifier::external_body]
fn system_seed() -> (r: Option<[u8; 32]>) {
    let mut seed = [0u8; 32];
    match SysRng.try_fill_bytes(&mut seed) {
        Ok(()) => Some(seed),
        Err(_) => None,
    }
}

/// The eight big-endian bytes of a cell.
pub open spec fn i64_be_bytes(x: i64) -> Seq<u8> {
    let u = x as u64;
    seq![
        (u >> 56u64) as u8,
        (u >> 48u64) as u8,
        (u >> 40u64) as u8,
        (u >> 32u64) as u8,
        (u >> 24u64) as u8,
        (u >> 16u64) as u8,
        (u >> 8u64) as u8,
        u as u8,
    ]
}

/// The cells of `cells`, in order, each as eight big-endian bytes.
pub open spec fn spec_cells_be_bytes(cells: Seq<i64>) -> Seq<u8>
    decreases cells.len(),
{
    if cells.len() == 0 {
        Seq::empty()
    } else {
        spec_cells_be_bytes(cells.drop_last()) + i64_be_bytes(cells.last())
    }
}

/// Appends the big-endian bytes of every cell of `cells` to `out`.
pub fn push_cells_be_bytes(out: &mut Vec<u8>, cells: &[i64])
    ensures
        final(out)@ == old(out)@ + spec_cells_be_bytes(cells@),
{
    let mut i: usize = 0;
    let ghost start = out@;
    assert(cells@.take(0) =~= Seq::<i64>::empty());
    assert(start + spec_cells_be_bytes(Seq::<i64>::empty()) =~= start);
    while i < cells.len()
        invariant
            i <= cells@.len(),
            out@ == start + spec_cells_be_bytes(cells@.take(i as int)),
        decreases cells.len() - i,
    {
        let u = cells[i] as u64;
        out.push((u >> 56u64) as u8);
        out.push((u >> 48u64) as u8);
        out.push((u >> 40u64) as u8);
        out.push((u >> 32u64) as u8);
        out.push((u >> 24u64) as u8);
        out.push((u >> 16u64) as u8);
        out.push((u >> 8u64) as u8);
        out.push(u as u8);
        assert(cells@.take(i + 1).drop_last() =~= cells@.take(i as int));
        assert(out@ =~= start + spec_cells_be_bytes(cells@.take(i + 1)));
        i = i + 1;
    }
    assert(cells@.take(i as int) =~= cells@);
}

/// The SHA-256 digest of the grid's cells, row by row, each as eight big-endian bytes.
///
/// Deterministic: it seeds the round key expansion.
pub fn sha256_seed_grid<const W: usize, const H: usize>(key: &Grid<W, H>) -> (r: [u8; 32])
    ensures
        r@ == spec_sha256(spec_cells_be_bytes(key@)),
{
    let cells = key.to_flat();
    let mut bytes: Vec<u8> = Vec::new();
    push_cells_be_bytes(&mut bytes, cells.as_slice());
    assert(bytes@ =~= spec_cells_be_bytes(key@));
    sha256(bytes.as_slice())
}

/// The first `count` values of the ChaCha20 stream seeded with `seed`, as signed cells.
pub open spec fn spec_key_from_seed(seed: Seq<u8>, count: nat) -> Seq<i64> {
    spec_chacha20_words(seed, count).map_values(|w: u64| w as i64)
}

/// Raw key material of $2 W H$ values drawn from the ChaCha20 stream seeded with `seed`.
///
/// The output is deterministic for a given seed.
pub fn generate_key_deterministic<const W: usize, const H: usize>(seed: &[u8; 32]) -> (r: Vec<i64>)
    requires
        fits(W as nat, H as nat),
    ensures
        r@ == spec_key_from_seed(seed@, (2 * W * H) as nat),
        r@.len() == 2 * W * H,
{
    assert(W * H * 2 <= usize::MAX && W * H * 2 == 2 * W * H) by (nonlinear_arith)
        requires
            fits(W as nat, H as nat),
    ;
    let n = W * H * 2;
    let words = chacha20_words(seed, n);
    let mut out: Vec<i64> = Vec::with_capacity(n);
    let mut i: usize = 0;
    while i < n
        invariant
            words@.len() == n,
            words@ == spec_chacha20_words(seed@, n as nat),
            i <= n,
            out@.len() == i,
            forall|k: int| 0 <= k < i ==> out@[k] == #[trigger] spec_key_from_seed(seed@, n as nat)[k],
        decreases n - i,
    {
        out.push(words[i] as i64);
        i = i + 1;
    }
    assert(out@ =~= spec_key_from_seed(seed@, n as nat));
    out
}

/// Whether `key` is the key that [`generate_key_deterministic`] draws from some 32-byte seed.
pub open spec fn drawn_key(key: Seq<i64>, w: nat, h: nat) -> bool {
    exists|s: Seq<u8>| s.len() == 32 && key == #[trigger] spec_key_from_seed(s, 2 * w * h)
}

/// A fresh symmetric key of $2 W H$ values: a ChaCha20 stream seeded from the operating
/// system's entropy source. Fails with [`GridError::EntropyUnavailable`] when the source does.
pub fn generate_key<const W: usize, const H: usize>() -> (r: Result<Vec<i64>, GridError>)
    requires
        fits(W as nat, H as nat),
    ensures
        r matches Ok(k) ==> k@.len() == 2 * W * H && drawn_key(k@, W as nat, H as nat),
        r matches Err(e) ==> e == GridError::EntropyUnavailable,
{
    match system_seed() {
        Some(seed) => {
            let key = generate_key_deterministic::<W, H>(&seed);
            assert(spec_key_from_seed(seed@, 2 * (W as nat) * (H as nat)) == key@);
            Ok(key)
        },
        None => Err(GridError::EntropyUnavailable),
    }
}

/// Round key `r` derived from the master key cells `master` for a `w × h` grid.
///
/// The master key's SHA-256 digest seeds one ChaCha20 stream; round key $r$ is the key grid
/// (see [`spec_from_key`]) built from the stream's values $2 r A$ up to $2 (r + 1) A$, where
/// $A = w h$.
pub open spec fn spec_round_key(master: Seq<i64>, w: nat, h: nat, r: int) -> Seq<i64> {
    let area = w * h;
    let stream = spec_key_from_seed(
        spec_sha256(spec_cells_be_bytes(master)),
        consts::ROUND_KEYS as nat * (2 * area),
    );
    spec_from_key(stream.subrange(r * (2 * area), (r + 1) * (2 * area)), area)
}

/// The full round key schedule derived from `master`.
pub open spec fn spec_round_keys(master: Seq<i64>, w: nat, h: nat) -> Seq<Seq<i64>> {
    Seq::new(consts::ROUND_KEYS as nat, |r: int| spec_round_key(master, w, h, r))
}

/// The views of a sequence of grids.
pub open spec fn grids_view<const W: usize, const H: usize>(grids: Seq<Grid<W, H>>) -> Seq<Seq<i64>> {
    grids.map_values(|g: Grid<W, H>| g@)
}

/// Derives the [`ROUND_KEYS`](consts::ROUND_KEYS) round keys from a master key grid (see
/// [`spec_round_key`]). Never fails: a master grid always has a supported shape.
pub fn generate_round_keys<const W: usize, const H: usize>(master_key: &Grid<W, H>) -> (r: Result<
    Vec<Grid<W, H>>,
    GridError,
>)
    ensures
        r matches Ok(keys) && grids_view(keys@) == spec_round_keys(master_key@, W as nat, H as nat)
            && keys@.len() == consts::ROUND_KEYS,
{
    proof {
        use_type_invariant(master_key);
        Grid::lemma_wf(master_key);
    }
    let area = W * H;
    let key_len = 2 * area;
    assert(17 * key_len <= usize::MAX) by (nonlinear_arith)
        requires
            fits(W as nat, H as nat),
            area == W * H,
            key_len == 2 * area,
    ;
    let total = consts::ROUND_KEYS * key_len;
    let seed = sha256_seed_grid(master_key);
    let words = chacha20_words(&seed, total);
    let ghost stream = spec_key_from_seed(spec_sha256(spec_cells_be_bytes(master_key@)), total as nat);
    let mut keys: Vec<Grid<W, H>> = Vec::with_capacity(consts::ROUND_KEYS);
    let mut k: usize = 0;
    while k < consts::ROUND_KEYS
        invariant
            dims_ok(W as nat, H as nat),
            fits(W as nat, H as nat),
            area == W * H,
            key_len == 2 * area,
            total == consts::ROUND_KEYS * key_len,
            words@.len() == total,
            words@ == spec_chacha20_words(seed@, total as nat),
            seed@ == spec_sha256(spec_cells_be_bytes(master_key@)),
            stream == spec_key_from_seed(seed@, total as nat),
            k <= consts::ROUND_KEYS,
            keys@.len() == k,
            forall|j: int| 0 <= j < k ==> (#[trigger] keys@[j])@ == spec_round_key(master_key@, W as nat, H as nat, j),
        decreases consts::ROUND_KEYS - k,
    {
        assert((k + 1) * key_len <= total && k * key_len + key_len == (k + 1) * key_len) by (nonlinear_arith)
            requires
                k < 17,
                total == 17 * key_len,
        ;
        let base = k * key_len;
        let mut part: Vec<i64> = Vec::with_capacity(key_len);
        let mut j: usize = 0;
        while j < key_len
            invariant
                base == k * key_len,
                base + key_len <= total,
                words@.len() == total,
                stream == spec_key_from_seed(seed@, total as nat),
                words@ == spec_chacha20_words(seed@, total as nat),
                j <= key_len,
                part@.len() == j,
                forall|i: int| 0 <= i < j ==> part@[i] == #[trigger] stream.subrange(base as int, base + key_len)[i],
            decreases key_len - j,
        {
            part.push(words[base + j] as i64);
            j = j + 1;
        }
        assert(part@ =~= stream.subrange(k * (2 * area), (k + 1) * (2 * area)));
        assert(key_len == 2 * W * H) by (nonlinear_arith)
            requires
                area == W * H,
                key_len == 2 * area,
        ;
        let key = Grid::<W, H>::from_key(part.as_slice());
        let key = match key {
            Ok(g) => g,
            Err(e) => {
                assert(false);
                return Err(e);
            },
        };
        keys.push(key);
        k = k + 1;
    }
    let ghost spec = spec_round_keys(master_key@, W as nat, H as nat);
    assert(grids_view(keys@) =~= spec);
    Ok(keys)
}

/// Whether `grid` is the key grid built from a key that [`generate_key_deterministic`] draws from
/// some 32-byte seed.
pub open spec fn drawn_grid(grid: Seq<i64>, w: nat, h: nat) -> bool {
    exists|s: Seq<u8>| s.len() == 32 && grid == spec_from_key(#[trigger] spec_key_from_seed(s, 2 * w * h), w * h)
}

/// A fresh counter-mode nonce: a key grid built from a freshly drawn key (see
/// [`generate_key`]). Fails with [`GridError::EntropyUnavailable`] when the entropy source
/// does, and otherwise with [`GridError::InvalidDimensions`] exactly on an unsupported shape.
pub fn generate_nonce<const W: usize, const H: usize>() -> (r: Result<Grid<W, H>, GridError>)
    requires
        fits(W as nat, H as nat),
    ensures
        !dims_ok(W as nat, H as nat) ==> r is Err,
        dims_ok(W as nat, H as nat) ==> r is Ok || r == Err::<Grid<W, H>, GridError>(GridError::EntropyUnavailable),
        r matches Err(e) ==> e == GridError::EntropyUnavailable || e == (GridError::InvalidDimensions {
            width: W,
            height: H,
        }),
        r matches Ok(g) ==> drawn_grid(g@, W as nat, H as nat),
{
    let key = generate_key::<W, H>()?;
    let r = Grid::<W, H>::from_key(key.as_slice());
    proof {
        if r is Ok {
            let s = choose|s: Seq<u8>| s.len() == 32 && key@ == #[trigger] spec_key_from_seed(s, 2 * (W as nat) * (H as nat));
            assert(r->Ok_0@ == spec_from_key(spec_key_from_seed(s, 2 * (W as nat) * (H as nat)), (W * H) as nat));
        }
    }
    r
}

/// One keyed round: key addition, the ARX layer tweaked by `round`, the row shifts derived from
/// the round key, and the column diffusion.
pub open spec fn spec_round(state: Seq<i64>, key: Seq<i64>, round: int, w: nat, h: nat) -> Seq<i64> {
    spec_mix_columns(
        spec_shift_rows(spec_subcell(xor_seq(state, key), round as usize), spec_shifts(key, w, h), w),
        w,
        h,
    )
}

/// The keyed rounds driven by `keys[1]` up to `keys[n]`, round `r` tweaked by `r - 1`.
pub open spec fn spec_rounds(state: Seq<i64>, keys: Seq<Seq<i64>>, n: nat, w: nat, h: nat) -> Seq<i64>
    decreases n,
{
    if n == 0 {
        state
    } else {
        spec_round(spec_rounds(state, keys, (n - 1) as nat, w, h), keys[n as int], n - 1, w, h)
    }
}

/// The block cipher: whitening with the first key, one keyed round per key between the first
/// and the last, whitening with the last key.
pub open spec fn spec_permute(block: Seq<i64>, keys: Seq<Seq<i64>>, w: nat, h: nat) -> Seq<i64> {
    xor_seq(
        spec_rounds(xor_seq(block, keys[0]), keys, (keys.len() - 2) as nat, w, h),
        keys[keys.len() - 1],
    )
}

/// Keystream block `n`: the block cipher applied to the counter $\text{Nonce} + n$.
pub open spec fn spec_keystream(nonce: Seq<i64>, keys: Seq<Seq<i64>>, n: nat, w: nat, h: nat) -> Seq<i64> {
    spec_permute(add_limbs(nonce, n), keys, w, h)
}

/// The block counter offset that `apply_ctr` starts from.
pub open spec fn offset_of(offset: Option<u64>) -> nat {
    match offset {
        Some(o) => o as nat,
        None => 0,
    }
}

fn keystream_block<const W: usize, const H: usize>(
    nonce: &Grid<W, H>,
    keys: &[Grid<W, H>],
    shifts: &Vec<Vec<usize>>,
    offset: u64,
    index: u64,
) -> (r: Grid<W, H>)
    requires
        keys@.len() >= 2,
        shifts@.len() == keys@.len(),
        forall|k: int| 0 <= k < keys@.len() ==> (#[trigger] shifts@[k])@ == spec_shifts(keys@[k]@, W as nat, H as nat),
        forall|k: int| 0 <= k < keys@.len() ==> (#[trigger] shifts@[k])@.len() == H,
        forall|k: int, y: int| 0 <= k < keys@.len() && 0 <= y < H ==> #[trigger] shifts@[k]@[y] < W,
    ensures
        r@ == spec_keystream(nonce@, grids_view(keys@), offset as nat + index as nat, W as nat, H as nat),
{
    let ghost kv = grids_view(keys@);
    let mut block = nonce.clone();
    block.increment(offset);
    block.increment(index);
    proof { lemma_add_limbs_compose(nonce@, offset as nat, index as nat); }
    let ghost counter = add_limbs(nonce@, offset as nat + index as nat);
    block.xor_grids(&keys[0]);
    let n = keys.len();
    let mut r: usize = 1;
    while r < n - 1
        invariant
            n == keys@.len(),
            n >= 2,
            1 <= r <= n - 1,
            kv == grids_view(keys@),
            shifts@.len() == keys@.len(),
            forall|k: int| 0 <= k < keys@.len() ==> (#[trigger] shifts@[k])@ == spec_shifts(keys@[k]@, W as nat, H as nat),
            forall|k: int| 0 <= k < keys@.len() ==> (#[trigger] shifts@[k])@.len() == H,
            forall|k: int, y: int| 0 <= k < keys@.len() && 0 <= y < H ==> #[trigger] shifts@[k]@[y] < W,
            block@ == spec_rounds(xor_seq(counter, kv[0]), kv, (r - 1) as nat, W as nat, H as nat),
        decreases n - r,
    {
        let ghost before = block@;
        block.xor_grids(&keys[r]);
        block.subcell(r - 1);
        block.shift_rows(shifts[r].as_slice());
        block.mix_columns();
        proof {
            assert(kv[r as int] == keys@[r as int]@);
            assert(block@ == spec_round(before, kv[r as int], r - 1, W as nat, H as nat));
        }
        r = r + 1;
    }
    block.xor_grids(&keys[n - 1]);
    proof {
        assert(kv[n - 1] == keys@[n - 1]@);
        assert(kv.len() == n);
    }
    block
}

/// Counter-mode encryption and decryption in place.
///
/// Block $i$ becomes $G_i \oplus E_K(\text{Nonce} + o + i)$ (see [`spec_keystream`]), where
/// $o$ is `offset` (zero when absent) and $E_K$ is the WHY2 block cipher keyed with the round
/// key schedule `round_keys`. CTR mode is symmetric, so the same call both encrypts and
/// decrypts.
pub fn apply_ctr<const W: usize, const H: usize>(
    grids: &mut Vec<Grid<W, H>>,
    nonce: &Grid<W, H>,
    round_keys: &[Grid<W, H>],
    offset: Option<u64>,
)
    requires
        round_keys@.len() >= 2,
    ensures
        final(grids)@.len() == old(grids)@.len(),
        forall|i: int|
            0 <= i < old(grids)@.len() ==> (#[trigger] final(grids)@[i])@ == xor_seq(
                old(grids)@[i]@,
                spec_keystream(nonce@, grids_view(round_keys@), (offset_of(offset) + i) as nat, W as nat, H as nat),
            ),
{
    let off: u64 = match offset {
        Some(o) => o,
        None => 0,
    };
    let n = round_keys.len();
    let mut shifts: Vec<Vec<usize>> = Vec::with_capacity(n);
    let mut k: usize = 0;
    while k < n
        invariant
            n == round_keys@.len(),
            k <= n,
            shifts@.len() == k,
            forall|j: int| 0 <= j < k ==> (#[trigger] shifts@[j])@ == spec_shifts(round_keys@[j]@, W as nat, H as nat),
            forall|j: int| 0 <= j < k ==> (#[trigger] shifts@[j])@.len() == H,
            forall|j: int, y: int| 0 <= j < k && 0 <= y < H ==> #[trigger] shifts@[j]@[y] < W,
        decreases n - k,
    {
        let s = round_keys[k].precalculate_shifts();
        shifts.push(s);
        k = k + 1;
    }
    let count = grids.len();
    let mut out: Vec<Grid<W, H>> = Vec::with_capacity(count);
    let mut i: usize = 0;
    while i < count
        invariant
            count == grids@.len(),
            n == round_keys@.len(),
            n >= 2,
            off as nat == offset_of(offset),
            shifts@.len() == n,
            forall|j: int| 0 <= j < n ==> (#[trigger] shifts@[j])@ == spec_shifts(round_keys@[j]@, W as nat, H as nat),
            forall|j: int| 0 <= j < n ==> (#[trigger] shifts@[j])@.len() == H,
            forall|j: int, y: int| 0 <= j < n && 0 <= y < H ==> #[trigger] shifts@[j]@[y] < W,
            i <= count,
            out@.len() == i,
            forall|j: int|
                0 <= j < i ==> (#[trigger] out@[j])@ == xor_seq(
                    grids@[j]@,
                    spec_keystream(nonce@, grids_view(round_keys@), (offset_of(offset) + j) as nat, W as nat, H as nat),
                ),
        decreases count - i,
    {
        let ks = keystream_block(nonce, round_keys, &shifts, off, i as u64);
        let mut g = grids[i].clone();
        g.xor_grids(&ks);
        out.push(g);
        i = i + 1;
    }
    *grids = out;
}

/// The keyed rounds keep the number of cells.
pub proof fn lemma_rounds_len(state: Seq<i64>, keys: Seq<Seq<i64>>, n: nat, w: nat, h: nat)
    ensures
        spec_rounds(state, keys, n, w, h).len() == state.len(),
    decreases n,
{
    if n > 0 {
        lemma_rounds_len(state, keys, (n - 1) as nat, w, h);
    }
}

/// A keystream block has as many cells as the nonce.
pub proof fn lemma_keystream_len(nonce: Seq<i64>, keys: Seq<Seq<i64>>, n: nat, w: nat, h: nat)
    ensures
        spec_keystream(nonce, keys, n, w, h).len() == nonce.len(),
{
    lemma_add_limbs_len(nonce, n);
    lemma_rounds_len(xor_seq(add_limbs(nonce, n), keys[0]), keys, (keys.len() - 2) as nat, w, h);
}

/// The keyed rounds pair the round keys with the ARX tweaks in order: keyed round `k` (for
/// `k >= 1`) adds `keys[k]` to the state left by round `k - 1`, applies the ARX layer with tweak
/// `k - 1` (the first keyed round with tweak 0), shifts the rows by the shifts derived from
/// `keys[k]`, and mixes the columns. Before any keyed round the state is untouched.
pub proof fn law_keyed_round_tweaks(state: Seq<i64>, keys: Seq<Seq<i64>>, k: nat, w: nat, h: nat)
    requires
        k >= 1,
    ensures
        spec_rounds(state, keys, 0, w, h) == state,
        spec_rounds(state, keys, k, w, h) == spec_mix_columns(
            spec_shift_rows(
                spec_subcell(xor_seq(spec_rounds(state, keys, (k - 1) as nat, w, h), keys[k as int]), (k - 1) as usize),
                spec_shifts(keys[k as int], w, h),
                w,
            ),
            w,
            h,
        ),
{
}

/// Keystream block `n` is the block cipher on the counter `nonce + n`: whitening with the first
/// round key, the keyed rounds driven by the keys between the first and the last, and whitening
/// with the last round key. With the full schedule of [`consts::ROUND_KEYS`] keys that is
/// fifteen keyed rounds, tweaked 0 to 14, the last of them driven by `keys[15]` with tweak 14.
pub proof fn law_keystream_schedule(nonce: Seq<i64>, keys: Seq<Seq<i64>>, n: nat, w: nat, h: nat)
    requires
        keys.len() >= 2,
    ensures
        spec_keystream(nonce, keys, n, w, h) == xor_seq(
            spec_rounds(xor_seq(add_limbs(nonce, n), keys[0]), keys, (keys.len() - 2) as nat, w, h),
            keys[keys.len() - 1],
        ),
        keys.len() == consts::ROUND_KEYS ==> spec_keystream(nonce, keys, n, w, h) == xor_seq(
            spec_mix_columns(
                spec_shift_rows(
                    spec_subcell(
                        xor_seq(spec_rounds(xor_seq(add_limbs(nonce, n), keys[0]), keys, 14, w, h), keys[15]),
                        14usize,
                    ),
                    spec_shifts(keys[15], w, h),
                    w,
                ),
                w,
                h,
            ),
            keys[16],
        ),
{
    if keys.len() == consts::ROUND_KEYS {
        law_keyed_round_tweaks(xor_seq(add_limbs(nonce, n), keys[0]), keys, 15, w, h);
    }
}

/// A cell's eight bytes are its value most significant byte first: putting them back together
/// in that order gives the cell's 64 bits.
pub proof fn law_cell_bytes_big_endian(x: i64)
    ensures
        ({
            let b = i64_be_bytes(x);
            &&& b.len() == 8
            &&& ((b[0] as u64) << 56u64) | ((b[1] as u64) << 48u64) | ((b[2] as u64) << 40u64) | ((b[3] as u64) << 32u64)
                | ((b[4] as u64) << 24u64) | ((b[5] as u64) << 16u64) | ((b[6] as u64) << 8u64) | (b[7] as u64)
                == x as u64
        }),
{
    let u = x as u64;
    assert((((u >> 56u64) as u8 as u64) << 56u64) | (((u >> 48u64) as u8 as u64) << 48u64) | (((u >> 40u64) as u8
        as u64) << 40u64) | (((u >> 32u64) as u8 as u64) << 32u64) | (((u >> 24u64) as u8 as u64) << 24u64) | (((u
        >> 16u64) as u8 as u64) << 16u64) | (((u >> 8u64) as u8 as u64) << 8u64) | (u as u8 as u64) == u)
        by (bit_vector);
}

} // verus!
