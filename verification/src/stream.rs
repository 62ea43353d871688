//! Incremental counter-mode processing of arbitrarily long `i64` streams.
//!
//! A [`RexStream`] buffers incoming values until a whole grid is available, transforms whole
//! grids as they fill, and keeps a block counter that counts every grid processed since the
//! stream was created. Value $p$ of the stream (counting from zero over all calls) is XORed with
//! cell $p \bmod WH$ of keystream block $\lfloor p / WH \rfloor$ (see [`stream_key`]), so how the
//! data is cut into chunks does not change the result. Counter mode is symmetric: the same
//! stream type encrypts and decrypts.

use vstd::prelude::*;

use crate::consts;
use crate::crypto::{apply_ctr, generate_round_keys, grids_view, lemma_keystream_len, spec_keystream, spec_round_keys};
use crate::decrypter::{lemma_flatten_index, lemma_flatten_len, spec_flatten};
use crate::encrypter::{grid_count, spec_ctr_grids, spec_pad_grids};
use crate::grid::{dims_ok, fits, spec_from_flat, Grid, GridError};

verus! {

/// Keystream value for stream position `p`: cell `p mod (w h)` of keystream block
/// `p / (w h)`.
pub open spec fn stream_key(nonce: Seq<i64>, keys: Seq<Seq<i64>>, p: nat, w: nat, h: nat) -> i64 {
    spec_keystream(nonce, keys, p / (w * h), w, h)[(p % (w * h)) as int]
}

/// Counter mode over a run of stream values starting at stream position `start`.
pub open spec fn spec_ctr_stream(
    data: Seq<i64>,
    start: nat,
    nonce: Seq<i64>,
    keys: Seq<Seq<i64>>,
    w: nat,
    h: nat,
) -> Seq<i64> {
    Seq::new(data.len(), |i: int| data[i] ^ stream_key(nonce, keys, (start + i) as nat, w, h))
}

/// Number of whole grids of area `w h` in `len` values.
pub open spec fn whole_blocks(len: nat, w: nat, h: nat) -> nat {
    len / (w * h)
}

/// A stateful counter-mode transformer for streams of `i64` values.
///
/// Holds the round keys derived from the master key, the nonce, the number of grids processed
/// so far, and fewer than one grid's worth of buffered values.
pub struct RexStream<const W: usize, const H: usize> {
    round_keys: Vec<Grid<W, H>>,
    nonce: Grid<W, H>,
    block_counter: u64,
    buffer: Vec<i64>,
}

impl<const W: usize, const H: usize> RexStream<W, H> {
    /// The grid shape is supported, the whole key schedule is present, and the buffer never
    /// holds a whole grid.
    #[verifier::type_invariant]
    pub closed spec fn inv(self) -> bool {
        &&& dims_ok(W as nat, H as nat)
        &&& fits(W as nat, H as nat)
        &&& self.round_keys@.len() == consts::ROUND_KEYS
        &&& self.buffer@.len() < W * H
        &&& self.nonce@.len() == W * H
    }

    /// The round key schedule.
    pub closed spec fn keys(&self) -> Seq<Seq<i64>> {
        grids_view(self.round_keys@)
    }

    /// The cells of the nonce.
    pub closed spec fn nonce_cells(&self) -> Seq<i64> {
        self.nonce@
    }

    /// Number of grids processed since the stream was created.
    pub closed spec fn counter(&self) -> nat {
        self.block_counter as nat
    }

    /// Values received but not yet processed.
    pub closed spec fn pending(&self) -> Seq<i64> {
        self.buffer@
    }

    /// Creates a stream: derives the round keys from `key_grid` and starts the block counter at
    /// zero with an empty buffer.
    ///
    /// `nonce` must be unique for every stream under the same key. Never fails: a key grid
    /// always has a supported shape.
    pub fn new(key_grid: &Grid<W, H>, nonce: Grid<W, H>) -> (r: Result<Self, GridError>)
        ensures
            r matches Ok(s) && s.keys() == spec_round_keys(key_grid@, W as nat, H as nat)
                && s.nonce_cells() == nonce@ && s.counter() == 0 && s.pending() == Seq::<i64>::empty(),
    {
        proof {
            use_type_invariant(key_grid);
            Grid::lemma_wf(key_grid);
            use_type_invariant(&nonce);
            Grid::lemma_wf(&nonce);
        }
        let round_keys = generate_round_keys(key_grid)?;
        let buffer: Vec<i64> = Vec::with_capacity(W * H);
        Ok(RexStream { round_keys, nonce, block_counter: 0, buffer })
    }

    /// Processes a chunk of the stream and returns the transformed values that became available.
    ///
    /// The buffered values and `data` are taken together; every whole grid among them is
    /// transformed, the first with keystream block `counter()`, and the rest (fewer than one
    /// grid's worth) is buffered for the next call. The block counter grows by the number of
    /// grids processed. Never fails.
    pub fn update(&mut self, data: &[i64]) -> (r: Result<Vec<i64>, GridError>)
        requires
            old(self).counter() + whole_blocks((old(self).pending() + data@).len(), W as nat, H as nat)
                <= u64::MAX,
        ensures
            final(self).keys() == old(self).keys(),
            final(self).nonce_cells() == old(self).nonce_cells(),
            final(self).counter() == old(self).counter() + whole_blocks(
                (old(self).pending() + data@).len(),
                W as nat,
                H as nat,
            ),
            final(self).pending() == leftover(old(self).pending() + data@, W as nat, H as nat),
            r matches Ok(out) && out@ == spec_ctr_stream(
                processed(old(self).pending() + data@, W as nat, H as nat),
                old(self).counter() * (W * H) as nat,
                old(self).nonce_cells(),
                old(self).keys(),
                W as nat,
                H as nat,
            ),
    {
        proof {
            use_type_invariant(&*self);
        }
        let ghost b0 = self.buffer@;
        let ghost c0 = self.counter();
        let ghost total = b0 + data@;
        let ghost m = whole_blocks(total.len(), W as nat, H as nat);
        let area = W * H;
        proof {
            lemma_area_positive(W as nat, H as nat);
        }
        let mut output: Vec<i64> = Vec::new();
        let mut buf: Vec<i64> = Vec::new();
        std::mem::swap(&mut buf, &mut self.buffer);
        let mut pos: usize = 0;
        let ghost mut blocks1: nat = 0;
        if buf.len() > 0 {
            let needed = area - buf.len();
            let take = if needed < data.len() {
                needed
            } else {
                data.len()
            };
            while pos < take
                invariant
                    take <= data@.len(),
                    pos <= take,
                    buf@ == b0 + data@.take(pos as int),
                decreases take - pos,
            {
                buf.push(data[pos]);
                pos = pos + 1;
                assert(buf@ =~= b0 + data@.take(pos as int));
            }
            if buf.len() == area {
                proof {
                    vstd::arithmetic::div_mod::lemma_mod_self_0(area as int);
                    lemma_div_step(area as nat, (data@.len() - pos) as nat);
                    assert(total.len() == area + (data@.len() - pos));
                    blocks1 = 1;
                }
                output = self.ctr_blocks(buf.as_slice());
                self.block_counter = self.block_counter + 1;
                buf.clear();
            } else {
                proof {
                    assert(pos == data@.len());
                    lemma_div_small(total.len(), area as nat);
                }
            }
        }
        let ghost mid_out = output@;
        let ghost mid_pos = pos as nat;
        let ghost c1 = self.counter();
        let ghost buf1 = buf@;
        let rest = data.len() - pos;
        let full = rest / area;
        proof {
            lemma_whole_part(rest as nat, area as nat);
            if blocks1 == 1 {
                assert(m == 1 + full);
                assert(b0.len() + mid_pos == area);
                assert(mid_out == spec_ctr_stream(
                    b0 + data@.take(mid_pos as int),
                    c0 * area as nat,
                    self.nonce_cells(),
                    self.keys(),
                    W as nat,
                    H as nat,
                ));
                assert(buf1 == Seq::<i64>::empty());
                assert(c1 == c0 + 1);
            } else if b0.len() > 0 {
                assert(rest == 0);
                lemma_div_small(0, area as nat);
                assert(full == 0);
                assert(m == 0);
                assert(buf1 == b0 + data@.take(mid_pos as int));
            } else {
                assert(b0 =~= Seq::<i64>::empty());
                assert(total =~= data@);
                assert(m == full);
                assert(buf1 =~= Seq::<i64>::empty());
            }
            assert(c1 == c0 + blocks1);
            assert(mid_out.len() == blocks1 * area);
            assert(mid_pos + full * area <= data@.len());
        }
        if full > 0 {
            let chunk_size = full * area;
            let mut chunk: Vec<i64> = Vec::with_capacity(chunk_size);
            let mut i: usize = 0;
            let dlen = data.len();
            while i < chunk_size
                invariant
                    dlen == data@.len(),
                    pos + chunk_size <= data@.len(),
                    i <= chunk_size,
                    chunk@ == data@.subrange(pos as int, pos + i),
                decreases chunk_size - i,
            {
                chunk.push(data[pos + i]);
                i = i + 1;
                assert(chunk@ =~= data@.subrange(pos as int, pos + i));
            }
            proof {
                vstd::arithmetic::div_mod::lemma_mod_multiples_basic(full as int, area as int);
            }
            let mut out2 = self.ctr_blocks(chunk.as_slice());
            self.block_counter = self.block_counter + full as u64;
            output.append(&mut out2);
            pos = pos + chunk_size;
        }
        let ghost second = data@.subrange(mid_pos as int, mid_pos + full * area);
        proof {
            let first = if blocks1 == 1 {
                b0 + data@.take(mid_pos as int)
            } else {
                Seq::<i64>::empty()
            };
            assert(mid_out == spec_ctr_stream(first, c0 * area as nat, self.nonce_cells(), self.keys(), W as nat, H as nat));
            assert(first.len() == blocks1 * area);
            assert(c1 * area == c0 * area + blocks1 * area) by (nonlinear_arith)
                requires
                    c1 == c0 + blocks1,
            ;
            if full == 0 {
                assert(full * area == 0) by (nonlinear_arith)
                    requires
                        full == 0,
                ;
                assert(second =~= Seq::<i64>::empty());
                assert(spec_ctr_stream(second, c1 * area as nat, self.nonce_cells(), self.keys(), W as nat, H as nat)
                    =~= Seq::<i64>::empty());
                assert(output@ =~= mid_out + spec_ctr_stream(
                    second,
                    c1 * area as nat,
                    self.nonce_cells(),
                    self.keys(),
                    W as nat,
                    H as nat,
                ));
            }
            lemma_ctr_concat(first, second, c0 * area as nat, self.nonce_cells(), self.keys(), W as nat, H as nat);
            assert(m * area == blocks1 * area + full * area) by (nonlinear_arith)
                requires
                    m == blocks1 + full,
            ;
            assert(first + second =~= processed(total, W as nat, H as nat));
        }
        while pos < data.len()
            invariant
                mid_pos + full * area <= pos <= data@.len(),
                buf@ == buf1 + data@.subrange(mid_pos + full * area, pos as int),
            decreases data@.len() - pos,
        {
            buf.push(data[pos]);
            pos = pos + 1;
            assert(buf@ =~= buf1 + data@.subrange(mid_pos + full * area, pos as int));
        }
        proof {
            assert(buf@ =~= leftover(total, W as nat, H as nat));
            lemma_leftover_len(total, W as nat, H as nat);
        }
        self.buffer = buf;
        Ok(output)
    }

    /// Finishes the stream: transforms the buffered values, fewer than one grid, with the
    /// leading cells of keystream block `counter()`, and returns them.
    ///
    /// The buffer is emptied and, when it held anything, the block counter advances by one.
    /// With an empty buffer nothing is returned and nothing changes. Never fails.
    pub fn finalize(&mut self) -> (r: Result<Vec<i64>, GridError>)
        requires
            old(self).pending().len() > 0 ==> old(self).counter() + 1 <= u64::MAX,
        ensures
            final(self).keys() == old(self).keys(),
            final(self).nonce_cells() == old(self).nonce_cells(),
            final(self).counter() == old(self).counter() + if old(self).pending().len() > 0 {
                1nat
            } else {
                0nat
            },
            final(self).pending() == Seq::<i64>::empty(),
            r matches Ok(out) && out@ == spec_ctr_stream(
                old(self).pending(),
                old(self).counter() * (W * H) as nat,
                old(self).nonce_cells(),
                old(self).keys(),
                W as nat,
                H as nat,
            ),
    {
        proof {
            use_type_invariant(&*self);
            lemma_area_positive(W as nat, H as nat);
        }
        let ghost b0 = self.buffer@;
        let ghost c0 = self.counter();
        let area = W * H;
        if self.buffer.len() == 0 {
            assert(spec_ctr_stream(b0, c0 * area as nat, self.nonce_cells(), self.keys(), W as nat, H as nat)
                =~= Seq::<i64>::empty());
            return Ok(Vec::new());
        }
        let grid = Grid::<W, H>::from_flat(self.buffer.as_slice())?;
        let mut grids: Vec<Grid<W, H>> = Vec::new();
        grids.push(grid);
        apply_ctr(&mut grids, &self.nonce, self.round_keys.as_slice(), Some(self.block_counter));
        self.block_counter = self.block_counter + 1;
        let mut output = grids[0].to_flat();
        let n = self.buffer.len();
        output.truncate(n);
        let mut empty: Vec<i64> = Vec::new();
        std::mem::swap(&mut empty, &mut self.buffer);
        proof {
            lemma_keystream_len(self.nonce_cells(), self.keys(), c0, W as nat, H as nat);
            assert forall|i: int| 0 <= i < n implies output@[i] == b0[i] ^ stream_key(
                self.nonce_cells(),
                self.keys(),
                (c0 * area + i) as nat,
                W as nat,
                H as nat,
            ) by {
                lemma_position(c0, i as nat, area as nat);
            }
            assert(output@ =~= spec_ctr_stream(b0, c0 * area as nat, self.nonce_cells(), self.keys(), W as nat, H as nat));
        }
        Ok(output)
    }

    /// Counter mode over `vals`, a whole number of grids, starting at block `self.block_counter`.
    fn ctr_blocks(&self, vals: &[i64]) -> (out: Vec<i64>)
        requires
            vals@.len() % (W * H) as nat == 0,
        ensures
            out@ == spec_ctr_stream(
                vals@,
                self.counter() * (W * H) as nat,
                self.nonce_cells(),
                self.keys(),
                W as nat,
                H as nat,
            ),
    {
        proof {
            use_type_invariant(self);
            use_type_invariant(&self.nonce);
            Grid::lemma_wf(&self.nonce);
        }
        let area = W * H;
        let len = vals.len();
        let k = len / area;
        assert(k * area == len) by (nonlinear_arith)
            requires
                area > 0,
                k == len / area,
                len % area == 0,
        {
            vstd::arithmetic::div_mod::lemma_fundamental_div_mod(len as int, area as int);
        }
        let mut grids: Vec<Grid<W, H>> = Vec::with_capacity(k);
        let mut g: usize = 0;
        while g < k
            invariant
                area == W * H,
                area > 0,
                k * area == len,
                len == vals@.len(),
                dims_ok(W as nat, H as nat),
                fits(W as nat, H as nat),
                g <= k,
                grids@.len() == g,
                forall|j: int|
                    0 <= j < g ==> (#[trigger] grids@[j])@ == vals@.subrange(j * area, j * area + area),
            decreases k - g,
        {
            assert((g + 1) * area <= k * area) by (nonlinear_arith)
                requires
                    g < k,
                    area > 0,
            ;
            assert((g + 1) * area == g * area + area) by (nonlinear_arith);
            let start = g * area;
            let mut chunk: Vec<i64> = Vec::with_capacity(area);
            let mut c: usize = 0;
            while c < area
                invariant
                    area == W * H,
                    start + area <= len,
                    len == vals@.len(),
                    c <= area,
                    chunk@.len() == c,
                    forall|j: int| 0 <= j < c ==> chunk@[j] == #[trigger] vals@[start + j],
                decreases area - c,
            {
                chunk.push(vals[start + c]);
                c = c + 1;
            }
            let grid = match Grid::<W, H>::from_flat(chunk.as_slice()) {
                Ok(grid) => grid,
                Err(_) => {
                    assert(false);
                    return Vec::new();
                },
            };
            assert(chunk@.len() == area);
            assert(grid@ == spec_from_flat(chunk@, area as nat));
            assert forall|i: int| 0 <= i < area implies grid@[i] == vals@.subrange(start as int, start + area)[i] by {
                assert(chunk@[i] == vals@[start + i]);
            }
            assert(grid@ =~= vals@.subrange(start as int, start + area));
            grids.push(grid);
            g = g + 1;
        }
        let ghost before = grids@;
        apply_ctr(&mut grids, &self.nonce, self.round_keys.as_slice(), Some(self.block_counter));
        proof {
            assert forall|t: int| 0 <= t < k implies (#[trigger] grids@[t])@ == xor_blocks(
                vals@,
                t,
                area as nat,
                spec_keystream(self.nonce_cells(), self.keys(), self.counter() + t as nat, W as nat, H as nat),
            ) by {
                lemma_keystream_len(self.nonce_cells(), self.keys(), self.counter() + t as nat, W as nat, H as nat);
                lemma_block_fits(t as nat, k as nat, area as nat);
                assert(before[t]@.len() == area);
                assert(grids@[t]@ =~= xor_blocks(
                    vals@,
                    t,
                    area as nat,
                    spec_keystream(self.nonce_cells(), self.keys(), self.counter() + t as nat, W as nat, H as nat),
                ));
            }
        }
        let ghost start = self.counter() * (area as nat);
        let mut out: Vec<i64> = Vec::with_capacity(len);
        let mut j: usize = 0;
        while j < k
            invariant
                area == W * H,
                area > 0,
                k * area == len,
                len == vals@.len(),
                grids@.len() == k,
                j <= k,
                start == self.counter() * (area as nat),
                out@.len() == j * area,
                forall|t: int|
                    0 <= t < k ==> (#[trigger] grids@[t])@ == xor_blocks(
                        vals@,
                        t,
                        area as nat,
                        spec_keystream(
                            self.nonce_cells(),
                            self.keys(),
                            self.counter() + t as nat,
                            W as nat,
                            H as nat,
                        ),
                    ),
                forall|p: int|
                    0 <= p < j * area ==> #[trigger] out@[p] == vals@[p] ^ stream_key(
                        self.nonce_cells(),
                        self.keys(),
                        (start + p) as nat,
                        W as nat,
                        H as nat,
                    ),
            decreases k - j,
        {
            let cells = grids[j].to_flat();
            let mut c: usize = 0;
            assert((j + 1) * area <= k * area) by (nonlinear_arith)
                requires
                    j < k,
                    area > 0,
            ;
            assert((j + 1) * area == j * area + area) by (nonlinear_arith);
            while c < area
                invariant
                    area == W * H,
                    area > 0,
                    k * area == len,
                    len == vals@.len(),
                    j < k,
                    (j + 1) * area <= len,
                    cells@ == grids@[j as int]@,
                    cells@ == xor_blocks(
                        vals@,
                        j as int,
                        area as nat,
                        spec_keystream(self.nonce_cells(), self.keys(), self.counter() + j as nat, W as nat, H as nat),
                    ),
                    start == self.counter() * (area as nat),
                    c <= area,
                    out@.len() == j * area + c,
                    forall|p: int|
                        0 <= p < j * area + c ==> #[trigger] out@[p] == vals@[p] ^ stream_key(
                            self.nonce_cells(),
                            self.keys(),
                            (start + p) as nat,
                            W as nat,
                            H as nat,
                        ),
                decreases area - c,
            {
                proof {
                    let p = j * area + c;
                    lemma_position((self.counter() + j) as nat, c as nat, area as nat);
                    assert(start + p == (self.counter() + j) * area + c) by (nonlinear_arith)
                        requires
                            start == self.counter() * (area as nat),
                            p == j * area + c,
                    ;
                }
                out.push(cells[c]);
                c = c + 1;
            }
            j = j + 1;
        }
        assert(out@ =~= spec_ctr_stream(vals@, start, self.nonce_cells(), self.keys(), W as nat, H as nat));
        out
    }
}

/// The whole grids at the front of `vals`: what a call of `update` transforms.
pub open spec fn processed(vals: Seq<i64>, w: nat, h: nat) -> Seq<i64> {
    vals.take((whole_blocks(vals.len(), w, h) * (w * h)) as int)
}

/// What is left of `vals` after its whole grids: what a call of `update` buffers.
pub open spec fn leftover(vals: Seq<i64>, w: nat, h: nat) -> Seq<i64> {
    vals.skip((whole_blocks(vals.len(), w, h) * (w * h)) as int)
}

/// Splitting the input of a stream into chunks does not change what comes out: two calls of
/// `update` with `d1` and then `d2` leave the same counter and buffer as one call with
/// `d1 + d2`, and their outputs, concatenated, are that call's output.
///
/// The state before the calls is given by its counter `counter` and its buffered values
/// `pending`, fewer than one grid; the keys and the nonce do not change.
pub proof fn law_update_chunking(
    pending: Seq<i64>,
    counter: nat,
    d1: Seq<i64>,
    d2: Seq<i64>,
    nonce: Seq<i64>,
    keys: Seq<Seq<i64>>,
    w: nat,
    h: nat,
)
    requires
        w * h > 0,
        pending.len() < w * h,
    ensures
        leftover(leftover(pending + d1, w, h) + d2, w, h) == leftover(pending + d1 + d2, w, h),
        counter + whole_blocks((pending + d1).len(), w, h) + whole_blocks(
            (leftover(pending + d1, w, h) + d2).len(),
            w,
            h,
        ) == counter + whole_blocks((pending + d1 + d2).len(), w, h),
        spec_ctr_stream(processed(pending + d1, w, h), counter * (w * h), nonce, keys, w, h) + spec_ctr_stream(
            processed(leftover(pending + d1, w, h) + d2, w, h),
            (counter + whole_blocks((pending + d1).len(), w, h)) * (w * h),
            nonce,
            keys,
            w,
            h,
        ) == spec_ctr_stream(processed(pending + d1 + d2, w, h), counter * (w * h), nonce, keys, w, h),
{
    let area = w * h;
    let t1 = pending + d1;
    let m1 = whole_blocks(t1.len(), w, h);
    let l1 = leftover(t1, w, h);
    let t2 = l1 + d2;
    let m2 = whole_blocks(t2.len(), w, h);
    let t = pending + d1 + d2;
    let m = whole_blocks(t.len(), w, h);
    lemma_leftover_len(t1, w, h);
    lemma_leftover_len(t2, w, h);
    lemma_leftover_len(t, w, h);
    // t.len() == m1 * area + t2.len(), so the whole grids of t are those of t1 and of t2.
    assert(t.len() == m1 * area + t2.len());
    vstd::arithmetic::div_mod::lemma_fundamental_div_mod(t2.len() as int, area as int);
    vstd::arithmetic::div_mod::lemma_mod_pos_bound(t2.len() as int, area as int);
    assert(t.len() == (m1 + m2) * area + t2.len() % area) by (nonlinear_arith)
        requires
            t.len() == m1 * area + t2.len(),
            m2 == t2.len() / area,
            t2.len() == area * (t2.len() / area) + t2.len() % area,
    ;
    vstd::arithmetic::div_mod::lemma_fundamental_div_mod_converse(
        t.len() as int,
        area as int,
        (m1 + m2) as int,
        (t2.len() % area) as int,
    );
    assert(m == m1 + m2);
    assert(m * area == m1 * area + m2 * area) by (nonlinear_arith)
        requires
            m == m1 + m2,
    ;
    assert(t =~= processed(t1, w, h) + t2);
    assert(leftover(t2, w, h) =~= leftover(t, w, h));
    assert(processed(t1, w, h) + processed(t2, w, h) =~= processed(t, w, h));
    lemma_ctr_concat(processed(t1, w, h), processed(t2, w, h), counter * area, nonce, keys, w, h);
    assert(counter * area + m1 * area == (counter + m1) * area) by (nonlinear_arith);
}

/// A whole stream, `update` with `data` followed by `finalize`, transforms every value: the two
/// outputs together are counter mode over the buffered values and `data`, starting at the
/// stream's counter.
pub proof fn law_update_finalize(
    pending: Seq<i64>,
    counter: nat,
    data: Seq<i64>,
    nonce: Seq<i64>,
    keys: Seq<Seq<i64>>,
    w: nat,
    h: nat,
)
    requires
        w * h > 0,
    ensures
        spec_ctr_stream(processed(pending + data, w, h), counter * (w * h), nonce, keys, w, h) + spec_ctr_stream(
            leftover(pending + data, w, h),
            (counter + whole_blocks((pending + data).len(), w, h)) * (w * h),
            nonce,
            keys,
            w,
            h,
        ) == spec_ctr_stream(pending + data, counter * (w * h), nonce, keys, w, h),
{
    let t = pending + data;
    let area = w * h;
    let m = whole_blocks(t.len(), w, h);
    lemma_leftover_len(t, w, h);
    assert(processed(t, w, h) + leftover(t, w, h) =~= t);
    lemma_ctr_concat(processed(t, w, h), leftover(t, w, h), counter * area, nonce, keys, w, h);
    assert(counter * area + m * area == (counter + m) * area) by (nonlinear_arith);
}

/// What a run of `update` calls with the chunks `chunks` gives, from a state with buffered values
/// `pending` and block counter `counter`: the outputs of the calls concatenated, the values
/// buffered afterwards, and the block counter afterwards.
pub open spec fn run_updates(
    pending: Seq<i64>,
    counter: nat,
    chunks: Seq<Seq<i64>>,
    nonce: Seq<i64>,
    keys: Seq<Seq<i64>>,
    w: nat,
    h: nat,
) -> (Seq<i64>, Seq<i64>, nat)
    decreases chunks.len(),
{
    if chunks.len() == 0 {
        (Seq::empty(), pending, counter)
    } else {
        let t = pending + chunks[0];
        let out = spec_ctr_stream(processed(t, w, h), counter * (w * h), nonce, keys, w, h);
        let rest = run_updates(
            leftover(t, w, h),
            counter + whole_blocks(t.len(), w, h),
            chunks.drop_first(),
            nonce,
            keys,
            w,
            h,
        );
        (out + rest.0, rest.1, rest.2)
    }
}

/// A stream fed in any number of chunks transforms exactly the values it was fed, in order: the
/// outputs of the `update` calls, followed by what `finalize` then returns (counter mode over
/// the buffered values at the final counter), are counter mode over the buffered values at the
/// start and all the chunks, from the starting counter. How the data was cut into chunks
/// changes nothing: the buffer and the counter at the end depend only on the whole data.
pub proof fn law_stream_chunks(
    pending: Seq<i64>,
    counter: nat,
    chunks: Seq<Seq<i64>>,
    nonce: Seq<i64>,
    keys: Seq<Seq<i64>>,
    w: nat,
    h: nat,
)
    requires
        w * h > 0,
        pending.len() < w * h,
    ensures
        ({
            let r = run_updates(pending, counter, chunks, nonce, keys, w, h);
            &&& r.0 + spec_ctr_stream(r.1, r.2 * (w * h), nonce, keys, w, h) == spec_ctr_stream(
                pending + chunks.flatten(),
                counter * (w * h),
                nonce,
                keys,
                w,
                h,
            )
            &&& r.1 == leftover(pending + chunks.flatten(), w, h)
            &&& r.2 == counter + whole_blocks((pending + chunks.flatten()).len(), w, h)
        }),
    decreases chunks.len(),
{
    let area = w * h;
    if chunks.len() == 0 {
        lemma_div_small(pending.len(), area);
        let none = whole_blocks(pending.len(), w, h);
        assert(none == 0);
        assert(none * area == 0) by (nonlinear_arith)
            requires
                none == 0,
        ;
        assert(pending + chunks.flatten() =~= pending);
        assert(leftover(pending, w, h) =~= pending.skip(0));
        assert(pending.skip(0) =~= pending);
    } else {
        let d0 = chunks[0];
        let rest = chunks.drop_first();
        let t = pending + d0;
        let m = whole_blocks(t.len(), w, h);
        lemma_leftover_len(t, w, h);
        law_stream_chunks(leftover(t, w, h), counter + m, rest, nonce, keys, w, h);
        law_update_chunking(pending, counter, d0, rest.flatten(), nonce, keys, w, h);
        assert(chunks.flatten() == d0 + rest.flatten());
        assert(pending + chunks.flatten() =~= t + rest.flatten());
        assert(processed(t, w, h) + (leftover(t, w, h) + rest.flatten()) =~= t + rest.flatten());
        lemma_ctr_concat(processed(t, w, h), leftover(t, w, h) + rest.flatten(), counter * area, nonce, keys, w, h);
        assert(counter * area + m * area == (counter + m) * area) by (nonlinear_arith);
        let r = run_updates(leftover(t, w, h), counter + m, rest, nonce, keys, w, h);
        let out = spec_ctr_stream(processed(t, w, h), counter * area, nonce, keys, w, h);
        assert(out + r.0 + spec_ctr_stream(r.1, r.2 * area, nonce, keys, w, h) =~= out + (r.0
            + spec_ctr_stream(r.1, r.2 * area, nonce, keys, w, h)));
    }
}

/// Counter mode undoes itself: transforming the output again, from the same position with the
/// same keys and nonce, gives back the input. A decrypting stream thus recovers what an
/// encrypting stream was fed.
pub proof fn law_stream_involutive(
    data: Seq<i64>,
    start: nat,
    nonce: Seq<i64>,
    keys: Seq<Seq<i64>>,
    w: nat,
    h: nat,
)
    ensures
        spec_ctr_stream(spec_ctr_stream(data, start, nonce, keys, w, h), start, nonce, keys, w, h) == data,
{
    let once = spec_ctr_stream(data, start, nonce, keys, w, h);
    let twice = spec_ctr_stream(once, start, nonce, keys, w, h);
    assert forall|i: int| 0 <= i < data.len() implies #[trigger] twice[i] == data[i] by {
        let a = data[i];
        let b = stream_key(nonce, keys, (start + i) as nat, w, h);
        assert((a ^ b) ^ b == a) by (bit_vector);
    }
    assert(twice =~= data);
}

/// A stream started at counter zero transforms its values exactly as one-shot encryption does:
/// counter mode over the zero-padded grids of `data`, flattened and cut back to the length of
/// `data`.
pub proof fn law_stream_matches_one_shot(data: Seq<i64>, nonce: Seq<i64>, keys: Seq<Seq<i64>>, w: nat, h: nat)
    requires
        w * h > 0,
        nonce.len() == w * h,
    ensures
        spec_ctr_stream(data, 0, nonce, keys, w, h) == spec_flatten(
            spec_ctr_grids(spec_pad_grids(data, w, h), nonce, keys, 0, w, h),
        ).take(data.len() as int),
{
    let area = w * h;
    let pad = spec_pad_grids(data, w, h);
    let gs = spec_ctr_grids(pad, nonce, keys, 0, w, h);
    let count = grid_count(data.len(), area);
    vstd::arithmetic::div_mod::lemma_fundamental_div_mod(data.len() as int, area as int);
    vstd::arithmetic::div_mod::lemma_mod_pos_bound(data.len() as int, area as int);
    assert(count * area >= data.len()) by (nonlinear_arith)
        requires
            count == data.len() / area + (if data.len() % area == 0 { 0nat } else { 1nat }),
            data.len() == area * (data.len() / area) + data.len() % area,
            area > 0,
            0 <= data.len() % area < area,
    ;
    assert forall|i: int| 0 <= i < gs.len() implies (#[trigger] gs[i]).len() == area by {}
    lemma_flatten_len(gs, area);
    let flat = spec_flatten(gs);
    let lhs = spec_ctr_stream(data, 0, nonce, keys, w, h);
    assert forall|k: int| 0 <= k < data.len() implies #[trigger] lhs[k] == flat[k] by {
        crate::grid::lemma_split_index(k, area as int, count as int);
        let g = k / (area as int);
        let c = k % (area as int);
        lemma_flatten_index(gs, area, g, c);
        lemma_keystream_len(nonce, keys, g as nat, w, h);
    }
    assert(lhs =~= flat.take(data.len() as int));
}

/// Block `t` of `vals` (blocks of `area` values) XORed cell by cell with `ks`.
pub open spec fn xor_blocks(vals: Seq<i64>, t: int, area: nat, ks: Seq<i64>) -> Seq<i64> {
    Seq::new(area, |c: int| vals[t * area + c] ^ ks[c])
}

/// Block `t < k` of `k` blocks of `area` values ends within them.
proof fn lemma_block_fits(t: nat, k: nat, area: nat)
    requires
        t < k,
    ensures
        t * area + area <= k * area,
{
    assert(t * area + area <= k * area) by (nonlinear_arith)
        requires
            t < k,
    ;
}

/// A supported grid shape has a positive area.
proof fn lemma_area_positive(w: nat, h: nat)
    requires
        dims_ok(w, h),
    ensures
        w * h > 0,
{
    assert(w * h > 0) by (nonlinear_arith)
        requires
            w > 0,
            h > 0,
    ;
}

/// One more grid's worth of values makes one more whole grid.
proof fn lemma_div_step(area: nat, r: nat)
    requires
        area > 0,
    ensures
        (area + r) / area == 1 + r / area,
        (area + r) % area == r % area,
{
    vstd::arithmetic::div_mod::lemma_fundamental_div_mod(r as int, area as int);
    vstd::arithmetic::div_mod::lemma_mod_pos_bound(r as int, area as int);
    assert(area + r == (1 + r / area) * area + r % area) by (nonlinear_arith)
        requires
            r == area * (r / area) + r % area,
    ;
    vstd::arithmetic::div_mod::lemma_fundamental_div_mod_converse(
        (area + r) as int,
        area as int,
        (1 + r / area) as int,
        (r % area) as int,
    );
}

/// Fewer values than a grid make no whole grid.
proof fn lemma_div_small(x: nat, area: nat)
    requires
        x < area,
    ensures
        x / area == 0,
        x % area == x,
{
    vstd::arithmetic::div_mod::lemma_fundamental_div_mod_converse(x as int, area as int, 0, x as int);
}

/// The whole grids of `r` values take at most `r` values, leaving fewer than a grid.
proof fn lemma_whole_part(r: nat, area: nat)
    requires
        area > 0,
    ensures
        (r / area) * area <= r,
        r - (r / area) * area == r % area,
        r % area < area,
{
    vstd::arithmetic::div_mod::lemma_fundamental_div_mod(r as int, area as int);
    vstd::arithmetic::div_mod::lemma_mod_pos_bound(r as int, area as int);
    assert((r / area) * area == area * (r / area)) by (nonlinear_arith);
}

/// What `update` buffers is fewer than one grid.
proof fn lemma_leftover_len(vals: Seq<i64>, w: nat, h: nat)
    requires
        w * h > 0,
    ensures
        leftover(vals, w, h).len() == vals.len() % (w * h),
        leftover(vals, w, h).len() < w * h,
        processed(vals, w, h).len() == whole_blocks(vals.len(), w, h) * (w * h),
        whole_blocks(vals.len(), w, h) * (w * h) <= vals.len(),
{
    lemma_whole_part(vals.len(), w * h);
}

/// Counter mode over two adjacent runs is counter mode over their concatenation.
pub proof fn lemma_ctr_concat(
    x: Seq<i64>,
    y: Seq<i64>,
    start: nat,
    nonce: Seq<i64>,
    keys: Seq<Seq<i64>>,
    w: nat,
    h: nat,
)
    ensures
        spec_ctr_stream(x, start, nonce, keys, w, h) + spec_ctr_stream(y, start + x.len(), nonce, keys, w, h)
            == spec_ctr_stream(x + y, start, nonce, keys, w, h),
{
    assert(spec_ctr_stream(x, start, nonce, keys, w, h) + spec_ctr_stream(y, start + x.len(), nonce, keys, w, h)
        =~= spec_ctr_stream(x + y, start, nonce, keys, w, h));
}

/// Position `b * area + c`, with `c < area`, lies in block `b` at offset `c`.
proof fn lemma_position(b: nat, c: nat, area: nat)
    requires
        c < area,
    ensures
        (b * area + c) / area == b,
        (b * area + c) % area == c,
{
    vstd::arithmetic::div_mod::lemma_fundamental_div_mod_converse((b * area + c) as int, area as int, b as int, c as int);
}

} // verus!
