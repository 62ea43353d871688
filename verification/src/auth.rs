//! HMAC-SHA256 authentication of encrypted data (encrypt-then-MAC).
//!
//! The tag is computed over the nonce and then every encrypted grid, each cell as eight
//! big-endian bytes, and travels beside the encrypted data.

use vstd::prelude::*;

use hmac::{Hmac, Mac};
use sha2::Sha256;

use crate::crypto::{i64_be_bytes, push_cells_be_bytes, spec_cells_be_bytes};
use crate::grid::Grid;
use crate::types::EncryptedData;

verus! {

/// The HMAC-SHA256 tag of `msg` under `key`.
pub uninterp spec fn spec_hmac_sha256(key: Seq<u8>, msg: Seq<u8>) -> Seq<u8>;

/// Computes HMAC-SHA256 with `hmac::Hmac::<sha2::Sha256>`: `new_from_slice`, `update`,
/// `finalize`.
///
/// Trusted: the tag is a function of the key and the message alone. `new_from_slice` accepts
/// keys of any length, so the `expect` never fires.
#[verifier::external_body]
fn hmac_sha256(key: &[u8; 32], msg: &[u8]) -> (r: [u8; 32])
    ensures
        r@ == spec_hmac_sha256(key@, msg@),
{
    let mut mac = Hmac::<Sha256>::new_from_slice(key).expect("HMAC initialization failed");
    mac.update(msg);
    mac.finalize().into_bytes().into()
}

/// Checks a tag with `hmac::Hmac::<sha2::Sha256>`: `new_from_slice`, `update`, then the
/// constant-time `verify_slice`.
///
/// Trusted: as the `digest` crate's source shows, `verify_slice` succeeds exactly when the tag
/// has the output's length and equals the computed tag byte for byte.
#[verifier::external_body]
fn hmac_sha256_verify(key: &[u8; 32], msg: &[u8], tag: &[u8; 32]) -> (r: bool)
    ensures
        r == (tag@ == spec_hmac_sha256(key@, msg@)),
{
    let mut mac = Hmac::<Sha256>::new_from_slice(key).expect("HMAC initialization failed");
    mac.update(msg);
    mac.verify_slice(tag).is_ok()
}

/// The big-endian bytes of every cell of every grid, grid after grid.
pub open spec fn spec_grids_be_bytes(grids: Seq<Seq<i64>>) -> Seq<u8>
    decreases grids.len(),
{
    if grids.len() == 0 {
        Seq::empty()
    } else {
        spec_grids_be_bytes(grids.drop_last()) + spec_cells_be_bytes(grids.last())
    }
}

/// The authenticated bytes of encrypted data: the nonce's cells, then every encrypted grid's.
pub open spec fn spec_auth_message<const W: usize, const H: usize>(data: EncryptedData<W, H>) -> Seq<u8> {
    spec_cells_be_bytes(data.nonce@) + spec_grids_be_bytes(data.output@.map_values(|g: Grid<W, H>| g@))
}

/// The tag that [`AuthenticatedData::authenticate`] attaches to `data` under `mac_key`.
pub open spec fn spec_tag<const W: usize, const H: usize>(data: EncryptedData<W, H>, mac_key: Seq<u8>) -> Seq<u8> {
    spec_hmac_sha256(mac_key, spec_auth_message(data))
}

/// Serializes the nonce and the encrypted grids for the MAC.
fn auth_message<const W: usize, const H: usize>(data: &EncryptedData<W, H>) -> (r: Vec<u8>)
    ensures
        r@ == spec_auth_message(*data),
{
    let mut msg: Vec<u8> = Vec::new();
    let nonce_cells = data.nonce.to_flat();
    push_cells_be_bytes(&mut msg, nonce_cells.as_slice());
    let ghost gs = data.output@.map_values(|g: Grid<W, H>| g@);
    let mut i: usize = 0;
    assert(gs.take(0) =~= Seq::<Seq<i64>>::empty());
    while i < data.output.len()
        invariant
            i <= data.output@.len(),
            gs == data.output@.map_values(|g: Grid<W, H>| g@),
            msg@ == spec_cells_be_bytes(data.nonce@) + spec_grids_be_bytes(gs.take(i as int)),
        decreases data.output@.len() - i,
    {
        let cells = data.output[i].to_flat();
        push_cells_be_bytes(&mut msg, cells.as_slice());
        assert(gs.take(i + 1).drop_last() =~= gs.take(i as int));
        assert(gs.take(i + 1).last() == data.output@[i as int]@);
        i = i + 1;
    }
    assert(gs.take(i as int) =~= gs);
    msg
}

/// Encrypted data with the HMAC-SHA256 tag that authenticates it.
///
/// Laid out for transport as the 32-byte tag followed by the serialized grids.
pub struct AuthenticatedData<const W: usize, const H: usize> {
    pub mac: [u8; 32],
    pub encrypted_data: EncryptedData<W, H>,
}

impl<const W: usize, const H: usize> AuthenticatedData<W, H> {
    /// Tags `encrypted_data` with the HMAC-SHA256 of its nonce and grids (see
    /// [`spec_auth_message`]) under `mac_key`, which must be independent of the encryption key.
    /// The key grid takes no part in the tag.
    pub fn authenticate(encrypted_data: EncryptedData<W, H>, mac_key: &[u8; 32]) -> (r: Self)
        ensures
            r.mac@ == spec_tag(encrypted_data, mac_key@),
            r.encrypted_data == encrypted_data,
    {
        let msg = auth_message(&encrypted_data);
        let mac = hmac_sha256(mac_key, msg.as_slice());
        AuthenticatedData { mac, encrypted_data }
    }

    /// Whether the attached tag is the HMAC-SHA256 of the stored nonce and grids under
    /// `mac_key`, compared in constant time. Data that fails this check must be discarded.
    pub fn verify(&self, mac_key: &[u8; 32]) -> (r: bool)
        ensures
            r == (self.mac@ == spec_tag(self.encrypted_data, mac_key@)),
    {
        let msg = auth_message(&self.encrypted_data);
        hmac_sha256_verify(mac_key, msg.as_slice(), &self.mac)
    }
}

/// Data tagged by `authenticate` passes `verify` under the same key.
pub proof fn law_verify_authenticated<const W: usize, const H: usize>(
    data: EncryptedData<W, H>,
    mac_key: Seq<u8>,
    tagged: AuthenticatedData<W, H>,
)
    requires
        tagged.mac@ == spec_tag(data, mac_key),
        tagged.encrypted_data == data,
    ensures
        tagged.mac@ == spec_tag(tagged.encrypted_data, mac_key),
{
}

/// The bytes of two runs of cells, one after the other, are the bytes of each run, in order.
proof fn lemma_cells_bytes_concat(a: Seq<i64>, b: Seq<i64>)
    ensures
        spec_cells_be_bytes(a + b) == spec_cells_be_bytes(a) + spec_cells_be_bytes(b),
    decreases b.len(),
{
    if b.len() == 0 {
        assert(a + b =~= a);
        assert(spec_cells_be_bytes(a) + spec_cells_be_bytes(b) =~= spec_cells_be_bytes(a));
    } else {
        assert((a + b).drop_last() =~= a + b.drop_last());
        assert((a + b).last() == b.last());
        lemma_cells_bytes_concat(a, b.drop_last());
        assert(spec_cells_be_bytes(a) + spec_cells_be_bytes(b) =~= spec_cells_be_bytes(a) + spec_cells_be_bytes(
            b.drop_last(),
        ) + i64_be_bytes(b.last()));
    }
}

/// The bytes of grids, grid after grid, are the bytes of all their cells, in order.
proof fn lemma_grids_bytes_flatten(gs: Seq<Seq<i64>>)
    ensures
        spec_grids_be_bytes(gs) == spec_cells_be_bytes(gs.flatten()),
    decreases gs.len(),
{
    gs.lemma_flatten_and_flatten_alt_are_equivalent();
    if gs.len() > 0 {
        lemma_grids_bytes_flatten(gs.drop_last());
        gs.drop_last().lemma_flatten_and_flatten_alt_are_equivalent();
        lemma_cells_bytes_concat(gs.drop_last().flatten_alt(), gs.last());
    }
}

/// The bytes of cells are eight per cell, most significant first: byte `p` is byte `p % 8` of
/// cell `p / 8`.
proof fn lemma_cells_bytes_index(c: Seq<i64>)
    ensures
        spec_cells_be_bytes(c).len() == 8 * c.len(),
        forall|p: int| 0 <= p < 8 * c.len() ==> #[trigger] spec_cells_be_bytes(c)[p] == i64_be_bytes(c[p / 8])[p % 8],
    decreases c.len(),
{
    if c.len() > 0 {
        let prefix = c.drop_last();
        lemma_cells_bytes_index(prefix);
        let b = spec_cells_be_bytes(c);
        assert forall|p: int| 0 <= p < 8 * c.len() implies #[trigger] b[p] == i64_be_bytes(c[p / 8])[p % 8] by {
            if p < 8 * prefix.len() {
                assert(b[p] == spec_cells_be_bytes(prefix)[p]);
                vstd::arithmetic::div_mod::lemma_div_is_ordered(p, 8 * prefix.len() - 1, 8);
                assert(p / 8 < prefix.len()) by {
                    vstd::arithmetic::div_mod::lemma_fundamental_div_mod(p, 8);
                }
                assert(c[p / 8] == prefix[p / 8]);
            } else {
                let q = p - 8 * prefix.len();
                vstd::arithmetic::div_mod::lemma_fundamental_div_mod_converse(p, 8, prefix.len() as int, q);
                assert(b[p] == i64_be_bytes(c.last())[q]);
            }
        }
    }
}

/// What authenticated data is tagged over: the cells of the nonce followed by the cells of every
/// encrypted grid, in order, each cell as its eight bytes most significant first. Byte `p` of
/// the message is byte `p % 8` of cell `p / 8` of that run, so the message opens with the
/// nonce's bytes.
pub proof fn law_auth_message_layout<const W: usize, const H: usize>(data: EncryptedData<W, H>)
    ensures
        ({
            let cells = data.nonce@ + data.output@.map_values(|g: Grid<W, H>| g@).flatten();
            &&& spec_auth_message(data).len() == 8 * cells.len()
            &&& forall|p: int|
                0 <= p < 8 * cells.len() ==> #[trigger] spec_auth_message(data)[p] == i64_be_bytes(cells[p / 8])[p % 8]
        }),
        spec_auth_message(data).take((8 * data.nonce@.len()) as int) == spec_cells_be_bytes(data.nonce@),
{
    let gs = data.output@.map_values(|g: Grid<W, H>| g@);
    let cells = data.nonce@ + gs.flatten();
    lemma_grids_bytes_flatten(gs);
    lemma_cells_bytes_concat(data.nonce@, gs.flatten());
    lemma_cells_bytes_index(cells);
    lemma_cells_bytes_index(data.nonce@);
    assert(spec_auth_message(data) == spec_cells_be_bytes(cells));
    assert(spec_auth_message(data).take((8 * data.nonce@.len()) as int) =~= spec_cells_be_bytes(data.nonce@));
}

} // verus!
