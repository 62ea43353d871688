//! One-shot decryption: regenerating the round keys from the key grid and running counter mode
//! over the encrypted grids, which undoes encryption.

use vstd::prelude::*;

use crate::crypto::{apply_ctr, generate_round_keys, grids_view, lemma_keystream_len, spec_keystream, spec_round_keys};
use crate::encrypter::{grid_count, pair_word, spec_pack_chars, spec_pad_grids};
use crate::grid::xor_seq;
use crate::encrypter::spec_ctr_grids;
use crate::grid::GridError;
use crate::types::{DecryptedData, EncryptedData};

verus! {

/// The cells of a sequence of grids, one grid after another.
pub open spec fn spec_flatten(gs: Seq<Seq<i64>>) -> Seq<i64>
    decreases gs.len(),
{
    if gs.len() == 0 {
        Seq::empty()
    } else {
        spec_flatten(gs.drop_last()) + gs.last()
    }
}

/// What [`decrypt`] yields for encrypted data: the flattened counter-mode transform of the
/// encrypted grids under the round keys of the key grid.
pub open spec fn spec_decrypt<const W: usize, const H: usize>(input: EncryptedData<W, H>) -> Seq<i64> {
    spec_flatten(
        spec_ctr_grids(
            grids_view(input.output@),
            input.nonce@,
            spec_round_keys(input.key@, W as nat, H as nat),
            0,
            W as nat,
            H as nat,
        ),
    )
}

/// Decrypts WHY2-encrypted grids into raw `i64` values.
///
/// The round keys are regenerated from the key grid and counter mode is applied again, which
/// undoes it: $P_i = C_i \oplus E_K(\text{Nonce} + i)$. The grids are flattened into `output`
/// and the key grid's cells returned in `key`. Never fails.
pub fn decrypt<const W: usize, const H: usize>(input: EncryptedData<W, H>) -> (r: Result<DecryptedData, GridError>)
    ensures
        r matches Ok(d) && d.output@ == spec_decrypt(input) && d.key@ == input.key@,
{
    let ghost given = input;
    let EncryptedData { output, key, nonce } = input;
    let mut grids = output;
    let round_keys = generate_round_keys(&key)?;
    apply_ctr(&mut grids, &nonce, round_keys.as_slice(), None);
    let ghost ctr = spec_ctr_grids(
        grids_view(given.output@),
        nonce@,
        spec_round_keys(key@, W as nat, H as nat),
        0,
        W as nat,
        H as nat,
    );
    assert(grids_view(grids@) =~= ctr);
    let mut flat: Vec<i64> = Vec::new();
    let mut i: usize = 0;
    while i < grids.len()
        invariant
            i <= grids@.len(),
            grids_view(grids@) == ctr,
            flat@ == spec_flatten(ctr.take(i as int)),
        decreases grids.len() - i,
    {
        let mut cells = grids[i].to_flat();
        assert(ctr.take(i + 1).drop_last() =~= ctr.take(i as int));
        assert(ctr[i as int] == grids@[i as int]@);
        flat.append(&mut cells);
        i = i + 1;
    }
    assert(ctr.take(i as int) =~= ctr);
    let key_cells = key.to_flat();
    Ok(DecryptedData { output: flat, key: key_cells })
}

/// Whether `v` is a Unicode scalar value.
pub open spec fn is_scalar(v: u32) -> bool {
    v <= 0xD7FFu32 || (0xE000u32 <= v && v <= 0x10FFFFu32)
}

/// The nonzero code points packed in a cell: the high 32 bits, then the low 32 bits.
pub open spec fn word_codes(v: i64) -> Seq<u32> {
    let hi = ((v as u64) >> 32u64) as u32;
    let lo = (v as u64) as u32;
    (if hi != 0 {
        seq![hi]
    } else {
        Seq::empty()
    }) + (if lo != 0 {
        seq![lo]
    } else {
        Seq::empty()
    })
}

/// The nonzero code points packed in `vals`, in order.
pub open spec fn spec_char_codes(vals: Seq<i64>) -> Seq<u32>
    decreases vals.len(),
{
    if vals.len() == 0 {
        Seq::empty()
    } else {
        spec_char_codes(vals.drop_last()) + word_codes(vals.last())
    }
}

/// The first code point of `codes` that is not a Unicode scalar value, if any.
pub open spec fn first_invalid(codes: Seq<u32>) -> Option<u32>
    decreases codes.len(),
{
    if codes.len() == 0 {
        None
    } else if !is_scalar(codes[0]) {
        Some(codes[0])
    } else {
        first_invalid(codes.drop_first())
    }
}

/// The code points of a character sequence.
pub open spec fn codes_of(cs: Seq<char>) -> Seq<u32> {
    cs.map_values(|c: char| c as u32)
}

/// Converts a code point with `char::from_u32`.
///
/// Trusted: as documented, the result is `Some` exactly for a Unicode scalar value, and then
/// holds the character with that code point.
#[verifier::external_body]
fn char_from_u32(v: u32) -> (r: Option<char>)
    ensures
        r is Some <==> is_scalar(v),
        r matches Some(c) ==> c as u32 == v,
{
    char::from_u32(v)
}

/// Appends a character with `String::push`.
///
/// Trusted: as documented, the string gains exactly that character at its end.
#[verifier::external_body]
fn push_char(s: &mut String, c: char)
    ensures
        final(s)@ == old(s)@.push(c),
{
    s.push(c)
}

proof fn lemma_first_invalid_append(a: Seq<u32>, b: Seq<u32>)
    ensures
        first_invalid(a + b) == (if first_invalid(a) is Some {
            first_invalid(a)
        } else {
            first_invalid(b)
        }),
    decreases a.len(),
{
    if a.len() == 0 {
        assert(a + b =~= b);
    } else {
        assert((a + b)[0] == a[0]);
        assert((a + b).drop_first() =~= a.drop_first() + b);
        lemma_first_invalid_append(a.drop_first(), b);
    }
}

proof fn lemma_char_codes_append(a: Seq<i64>, b: Seq<i64>)
    ensures
        spec_char_codes(a + b) == spec_char_codes(a) + spec_char_codes(b),
    decreases b.len(),
{
    if b.len() == 0 {
        assert(a + b =~= a);
        assert(spec_char_codes(a) + spec_char_codes(b) =~= spec_char_codes(a));
    } else {
        assert((a + b).drop_last() =~= a + b.drop_last());
        assert((a + b).last() == b.last());
        lemma_char_codes_append(a, b.drop_last());
        assert(spec_char_codes(a) + spec_char_codes(b) =~= spec_char_codes(a) + spec_char_codes(b.drop_last())
            + word_codes(b.last()));
    }
}

/// Decrypts WHY2-encrypted data and rebuilds the string it held.
///
/// Every decrypted cell holds two code points, high half first; a zero half is padding and is
/// skipped. Fails with [`GridError::InvalidUnicode`], carrying the first offending value, when a
/// nonzero half is not a Unicode scalar value (typically the sign of a wrong key).
pub fn decrypt_string<const W: usize, const H: usize>(input: EncryptedData<W, H>) -> (r: Result<String, GridError>)
    ensures
        first_invalid(spec_char_codes(spec_decrypt(input))) matches Some(v) ==> r == Err::<String, GridError>(
            GridError::InvalidUnicode { value: v },
        ),
        first_invalid(spec_char_codes(spec_decrypt(input))) is None ==> (r matches Ok(s) && codes_of(s@)
            == spec_char_codes(spec_decrypt(input))),
{
    let ghost vals = spec_decrypt(input);
    let decrypted = decrypt(input)?;
    let out_vals = decrypted.output;
    let mut output = String::new();
    let mut i: usize = 0;
    assert(out_vals@.take(0) =~= Seq::<i64>::empty());
    while i < out_vals.len()
        invariant
            vals == spec_decrypt(input),
            out_vals@ == vals,
            i <= out_vals@.len(),
            codes_of(output@) == spec_char_codes(vals.take(i as int)),
            first_invalid(spec_char_codes(vals.take(i as int))) is None,
        decreases out_vals.len() - i,
    {
        let n = out_vals[i];
        let hi = ((n as u64) >> 32u64) as u32;
        let lo = (n as u64) as u32;
        let ghost prefix = spec_char_codes(vals.take(i as int));
        proof {
            assert(vals.take(i + 1) =~= vals.take(i as int) + seq![n]);
            lemma_char_codes_append(vals.take(i as int), seq![n]);
            assert(spec_char_codes(seq![n]) =~= word_codes(n)) by {
                assert(seq![n].drop_last() =~= Seq::<i64>::empty());
                assert(spec_char_codes(Seq::<i64>::empty()) == Seq::<u32>::empty());
                assert(Seq::<u32>::empty() + word_codes(n) =~= word_codes(n));
            }
            assert(vals =~= vals.take(i + 1) + vals.skip(i + 1));
            lemma_char_codes_append(vals.take(i + 1), vals.skip(i + 1));
            lemma_first_invalid_append(prefix, word_codes(n));
            lemma_first_invalid_append(spec_char_codes(vals.take(i + 1)), spec_char_codes(vals.skip(i + 1)));
        }
        if hi != 0 {
            let ch = char_from_u32(hi);
            match ch {
                Some(c) => push_char(&mut output, c),
                None => {
                    proof {
                        let w = word_codes(n);
                        assert(w =~= seq![hi] + (if lo != 0 { seq![lo] } else { Seq::<u32>::empty() }));
                        assert(w.len() > 0);
                        assert(w[0] == hi);
                        assert(first_invalid(w) == Some(hi));
                        assert(spec_char_codes(vals.take(i + 1)) == prefix + w);
                        assert(first_invalid(prefix + w) == Some(hi));
                        assert(spec_char_codes(vals) == spec_char_codes(vals.take(i + 1)) + spec_char_codes(vals.skip(i + 1)));
                        assert(first_invalid(spec_char_codes(vals)) == Some(hi));
                    }
                    return Err(GridError::InvalidUnicode { value: hi });
                },
            }
            assert(is_scalar(hi));
        }
        if lo != 0 {
            let cl = char_from_u32(lo);
            match cl {
                Some(c) => push_char(&mut output, c),
                None => {
                    proof {
                        let w = word_codes(n);
                        if hi != 0 {
                            assert(w =~= seq![hi, lo]);
                            assert(w.drop_first() =~= seq![lo]);
                            assert(first_invalid(seq![lo]) == Some(lo));
                        } else {
                            assert(w =~= seq![lo]);
                        }
                        assert(first_invalid(w) == Some(lo));
                        assert(spec_char_codes(vals.take(i + 1)) == prefix + w);
                        assert(first_invalid(prefix + w) == Some(lo));
                        assert(first_invalid(spec_char_codes(vals)) == Some(lo));
                    }
                    return Err(GridError::InvalidUnicode { value: lo });
                },
            }
            assert(is_scalar(lo));
        }
        proof {
            let w = word_codes(n);
            if hi != 0 && lo != 0 {
                assert(w =~= seq![hi, lo]);
                assert(w.drop_first() =~= seq![lo]);
                assert(seq![lo].drop_first() =~= Seq::<u32>::empty());
            } else if hi != 0 {
                assert(w =~= seq![hi]);
                assert(w.drop_first() =~= Seq::<u32>::empty());
            } else if lo != 0 {
                assert(w =~= seq![lo]);
                assert(w.drop_first() =~= Seq::<u32>::empty());
            } else {
                assert(w =~= Seq::<u32>::empty());
            }
            assert(codes_of(output@) =~= prefix + w);
            if hi != 0 && lo != 0 {
                assert(first_invalid(seq![lo]) == first_invalid(seq![lo].drop_first()));
            } else if hi != 0 {
                assert(first_invalid(w) == first_invalid(w.drop_first()));
            } else if lo != 0 {
                assert(first_invalid(w) == first_invalid(w.drop_first()));
            }
            assert(first_invalid(w) is None);
            assert(spec_char_codes(vals.take(i + 1)) == prefix + w);
        }
        i = i + 1;
    }
    assert(vals.take(i as int) =~= vals);
    Ok(output)
}

/// Counter mode undoes itself: applying it twice with the same nonce, round keys and offset
/// gives back the blocks, whenever each block is as long as the nonce.
pub proof fn law_ctr_involutive(
    grids: Seq<Seq<i64>>,
    nonce: Seq<i64>,
    keys: Seq<Seq<i64>>,
    offset: nat,
    w: nat,
    h: nat,
)
    requires
        forall|i: int| 0 <= i < grids.len() ==> (#[trigger] grids[i]).len() == nonce.len(),
    ensures
        spec_ctr_grids(spec_ctr_grids(grids, nonce, keys, offset, w, h), nonce, keys, offset, w, h) == grids,
{
    let once = spec_ctr_grids(grids, nonce, keys, offset, w, h);
    let twice = spec_ctr_grids(once, nonce, keys, offset, w, h);
    assert forall|i: int| 0 <= i < grids.len() implies #[trigger] twice[i] == grids[i] by {
        let ks = spec_keystream(nonce, keys, offset + i as nat, w, h);
        lemma_keystream_len(nonce, keys, offset + i as nat, w, h);
        assert forall|j: int| 0 <= j < grids[i].len() implies #[trigger] twice[i][j] == grids[i][j] by {
            let a = grids[i][j];
            let b = ks[j];
            assert((a ^ b) ^ b == a) by (bit_vector);
        }
        assert(twice[i] =~= grids[i]);
    }
    assert(twice =~= grids);
}

/// The cells of `input` followed by zeros up to a whole number of `w × h` grids.
pub open spec fn spec_padded(input: Seq<i64>, w: nat, h: nat) -> Seq<i64> {
    input + Seq::new((grid_count(input.len(), w * h) * (w * h) - input.len()) as nat, |i: int| 0i64)
}

/// Flattening grids of `area` cells each gives `area` cells per grid.
pub proof fn lemma_flatten_len(gs: Seq<Seq<i64>>, area: nat)
    requires
        forall|i: int| 0 <= i < gs.len() ==> (#[trigger] gs[i]).len() == area,
    ensures
        spec_flatten(gs).len() == gs.len() * area,
    decreases gs.len(),
{
    if gs.len() > 0 {
        lemma_flatten_len(gs.drop_last(), area);
        assert((gs.len() - 1) * area + area == gs.len() * area) by (nonlinear_arith);
    }
}

/// Cell `c` of grid `g` sits at position `g * area + c` of the flattened grids.
pub proof fn lemma_flatten_index(gs: Seq<Seq<i64>>, area: nat, g: int, c: int)
    requires
        forall|i: int| 0 <= i < gs.len() ==> (#[trigger] gs[i]).len() == area,
        0 <= g < gs.len(),
        0 <= c < area,
    ensures
        g * area + c < gs.len() * area,
        spec_flatten(gs)[g * area + c] == gs[g][c],
    decreases gs.len(),
{
    lemma_flatten_len(gs, area);
    lemma_flatten_len(gs.drop_last(), area);
    assert(g * area + c < gs.len() * area) by (nonlinear_arith)
        requires
            0 <= g < gs.len(),
            0 <= c < area,
    ;
    if g < gs.len() - 1 {
        lemma_flatten_index(gs.drop_last(), area, g, c);
    } else {
        assert(g * area == (gs.len() - 1) * area);
    }
}

/// Flattening the padded grids gives the input followed by zeros.
pub proof fn lemma_flatten_pad(input: Seq<i64>, w: nat, h: nat)
    requires
        w * h > 0,
    ensures
        spec_flatten(spec_pad_grids(input, w, h)) == spec_padded(input, w, h),
{
    let area = w * h;
    let gs = spec_pad_grids(input, w, h);
    let count = grid_count(input.len(), area);
    vstd::arithmetic::div_mod::lemma_fundamental_div_mod(input.len() as int, area as int);
    assert(count * area >= input.len()) by (nonlinear_arith)
        requires
            count == input.len() / area + (if input.len() % area == 0 { 0nat } else { 1nat }),
            input.len() == area * (input.len() / area) + input.len() % area,
            area > 0,
            0 <= input.len() % area < area,
    ;
    assert forall|i: int| 0 <= i < gs.len() implies (#[trigger] gs[i]).len() == area by {}
    lemma_flatten_len(gs, area);
    let flat = spec_flatten(gs);
    let padded = spec_padded(input, w, h);
    assert(flat.len() == padded.len());
    assert forall|k: int| 0 <= k < flat.len() implies #[trigger] flat[k] == padded[k] by {
        crate::grid::lemma_split_index(k, area as int, count as int);
        let g = k / (area as int);
        let c = k % (area as int);
        lemma_flatten_index(gs, area, g, c);
    }
    assert(flat =~= padded);
}

/// Decrypting what [`encrypt`](crate::encrypter::encrypt) produced gives back its input,
/// followed by zero cells up to a whole number of grids.
///
/// The premise is exactly what `encrypt` ensures of its output, and the conclusion speaks of
/// [`spec_decrypt`], which is what [`decrypt`] yields.
pub proof fn law_decrypt_inverts_encrypt<const W: usize, const H: usize>(
    input: Seq<i64>,
    encrypted: EncryptedData<W, H>,
)
    requires
        W * H > 0,
        encrypted.nonce@.len() == W * H,
        grids_view(encrypted.output@) == crate::encrypter::spec_ctr_grids(
            spec_pad_grids(input, W as nat, H as nat),
            encrypted.nonce@,
            spec_round_keys(encrypted.key@, W as nat, H as nat),
            0,
            W as nat,
            H as nat,
        ),
    ensures
        spec_decrypt(encrypted) == spec_padded(input, W as nat, H as nat),
{
    let pad = spec_pad_grids(input, W as nat, H as nat);
    assert forall|i: int| 0 <= i < pad.len() implies (#[trigger] pad[i]).len() == encrypted.nonce@.len() by {}
    law_ctr_involutive(pad, encrypted.nonce@, spec_round_keys(encrypted.key@, W as nat, H as nat), 0, W as nat, H as nat);
    lemma_flatten_pad(input, W as nat, H as nat);
}

proof fn lemma_char_nonzero(c: char)
    requires
        c != '\0',
    ensures
        c as u32 != 0,
{
    vstd::utf8::char_u32_cast(c, c as u32);
    vstd::utf8::char_u32_cast('\0', 0u32);
}

proof fn lemma_char_scalar(c: char)
    ensures
        is_scalar(c as u32),
{
    vstd::utf8::char_is_scalar(c);
}

proof fn lemma_pair_word(a: char, b: char)
    ensures
        (((pair_word(a, b) as u64) >> 32u64) as u32) == a as u32,
        ((pair_word(a, b) as u64) as u32) == b as u32,
{
    let x = a as u32;
    let y = b as u32;
    assert(((((((x as u64) << 32u64) | (y as u64)) as i64) as u64) >> 32u64) as u32 == x) by (bit_vector);
    assert((((((x as u64) << 32u64) | (y as u64)) as i64) as u64) as u32 == y) by (bit_vector);
}

proof fn lemma_zero_codes(n: nat)
    ensures
        spec_char_codes(Seq::new(n, |i: int| 0i64)) == Seq::<u32>::empty(),
    decreases n,
{
    if n > 0 {
        let z = Seq::new(n, |i: int| 0i64);
        assert(z.drop_last() =~= Seq::new((n - 1) as nat, |i: int| 0i64));
        lemma_zero_codes((n - 1) as nat);
        assert((0i64 as u64) >> 32u64 == 0u64) by (bit_vector);
        assert(word_codes(0i64) =~= Seq::<u32>::empty());
    }
}

proof fn lemma_pack_codes(s: Seq<char>, k: nat)
    requires
        k <= (s.len() + 1) / 2,
        forall|i: int| 0 <= i < s.len() ==> #[trigger] s[i] != '\0',
    ensures
        spec_char_codes(spec_pack_chars(s).take(k as int)) == codes_of(
            s.take(if 2 * k <= s.len() { 2 * k as int } else { s.len() as int }),
        ),
    decreases k,
{
    let p = spec_pack_chars(s);
    if k == 0 {
        assert(p.take(0) =~= Seq::<i64>::empty());
        assert(codes_of(s.take(0)) =~= Seq::<u32>::empty());
    } else {
        let j = (k - 1) as int;
        lemma_pack_codes(s, (k - 1) as nat);
        assert(p.take(k as int).drop_last() =~= p.take(j));
        assert(p.take(k as int).last() == p[j]);
        let a = s[2 * j];
        let b = if 2 * j + 1 < s.len() { s[2 * j + 1] } else { '\0' };
        lemma_pair_word(a, b);
        lemma_char_nonzero(a);
        if 2 * j + 1 < s.len() {
            lemma_char_nonzero(b);
            assert(word_codes(p[j]) =~= seq![a as u32, b as u32]);
            assert(codes_of(s.take(2 * j + 2)) =~= codes_of(s.take(2 * j)) + seq![a as u32, b as u32]);
        } else {
            assert(word_codes(p[j]) =~= seq![a as u32]);
            assert(s.len() == 2 * j + 1);
            assert(codes_of(s.take(2 * j + 1)) =~= codes_of(s.take(2 * j)) + seq![a as u32]);
        }
    }
}

proof fn lemma_codes_valid(s: Seq<char>)
    ensures
        first_invalid(codes_of(s)) is None,
    decreases s.len(),
{
    if s.len() > 0 {
        lemma_char_scalar(s[0]);
        assert(codes_of(s).drop_first() =~= codes_of(s.drop_first()));
        lemma_codes_valid(s.drop_first());
    }
}

/// Decrypting what [`encrypt_string`](crate::encrypter::encrypt_string) produced from a string
/// without `'\0'` characters gives back that string: the decrypted code points are exactly the
/// string's, all valid, and any character sequence with those code points is the string itself.
///
/// The premise is what `encrypt_string` ensures of its output; [`decrypt_string`] ensures that
/// the code points of its result are `spec_char_codes(spec_decrypt(..))` whenever
/// `first_invalid` finds nothing.
pub proof fn law_decrypt_string_inverts_encrypt_string<const W: usize, const H: usize>(
    text: Seq<char>,
    encrypted: EncryptedData<W, H>,
)
    requires
        W * H > 0,
        encrypted.nonce@.len() == W * H,
        forall|i: int| 0 <= i < text.len() ==> #[trigger] text[i] != '\0',
        grids_view(encrypted.output@) == crate::encrypter::spec_ctr_grids(
            spec_pad_grids(spec_pack_chars(text), W as nat, H as nat),
            encrypted.nonce@,
            spec_round_keys(encrypted.key@, W as nat, H as nat),
            0,
            W as nat,
            H as nat,
        ),
    ensures
        first_invalid(spec_char_codes(spec_decrypt(encrypted))) is None,
        spec_char_codes(spec_decrypt(encrypted)) == codes_of(text),
        forall|out: Seq<char>| codes_of(out) == spec_char_codes(spec_decrypt(encrypted)) ==> out == text,
{
    let packed = spec_pack_chars(text);
    law_decrypt_inverts_encrypt(packed, encrypted);
    let padded = spec_padded(packed, W as nat, H as nat);
    let zeros = Seq::new((grid_count(packed.len(), (W * H) as nat) * (W * H) - packed.len()) as nat, |i: int| 0i64);
    assert(padded == packed + zeros);
    lemma_char_codes_append(packed, zeros);
    lemma_zero_codes((grid_count(packed.len(), (W * H) as nat) * (W * H) - packed.len()) as nat);
    lemma_pack_codes(text, ((text.len() + 1) / 2) as nat);
    assert(packed.take(packed.len() as int) =~= packed);
    assert(text.take(text.len() as int) =~= text);
    assert(spec_char_codes(packed) + Seq::<u32>::empty() =~= spec_char_codes(packed));
    lemma_codes_valid(text);
    assert forall|out: Seq<char>| codes_of(out) == spec_char_codes(spec_decrypt(encrypted)) implies out == text by {
        assert(out.len() == text.len()) by {
            assert(codes_of(out).len() == out.len());
        }
        assert forall|i: int| 0 <= i < out.len() implies out[i] == text[i] by {
            assert(codes_of(out)[i] == codes_of(text)[i]);
            vstd::utf8::char_u32_cast(out[i], out[i] as u32);
            vstd::utf8::char_u32_cast(text[i], text[i] as u32);
        }
        assert(out =~= text);
    }
}

} // verus!
