//! Wire layout of the key exchange: the server's offer and the client's reply, as fixed-size
//! byte fields one after another.
//!
//! The fields hold encoded public keys, a signature and a ciphertext. Reading checks that the
//! keys and the signature are ones the `p521` and `ml-kem` crates accept; the ciphertext is
//! any string of its size.

use vstd::prelude::*;

use ml_kem::{EncapsulationKey768, TryKeyInit};

verus! {

/// Bytes of a NIST P-521 public key, SEC1 uncompressed.
pub const ECC_PUBKEY_SIZE: usize = 133;

/// Bytes of an ECDSA/P-521 signature, fixed-size `r || s`.
pub const ECC_SIGNATURE_SIZE: usize = 132;

/// Bytes of an ML-KEM-768 encapsulation key.
pub const PQ_PUBKEY_SIZE: usize = 1184;

/// Bytes of an ML-KEM-768 ciphertext.
pub const PQ_CIPHERTEXT_SIZE: usize = 1088;

/// Whether `p521::PublicKey::from_sec1_bytes` accepts `bytes` (a point of NIST P-521).
pub uninterp spec fn p521_point_accepted(bytes: Seq<u8>) -> bool;

/// Whether `p521::ecdsa::Signature::from_slice` accepts `bytes`.
pub uninterp spec fn p521_signature_accepted(bytes: Seq<u8>) -> bool;

/// Whether `ml_kem::EncapsulationKey768::new_from_slice` accepts `bytes`.
pub uninterp spec fn mlkem768_key_accepted(bytes: Seq<u8>) -> bool;

/// Checks a public key with `p521::PublicKey::from_sec1_bytes`.
///
/// Trusted: whether it is accepted is a function of the bytes alone.
#[verifier::external_body]
fn sec1_key_accepted(bytes: &[u8]) -> (r: bool)
    ensures
        r == p521_point_accepted(bytes@),
{
    p521::PublicKey::from_sec1_bytes(bytes).is_ok()
}

/// Checks a signature with `p521::ecdsa::Signature::from_slice`.
///
/// Trusted: whether it is accepted is a function of the bytes alone.
#[verifier::external_body]
fn signature_accepted(bytes: &[u8]) -> (r: bool)
    ensures
        r == p521_signature_accepted(bytes@),
{
    p521::ecdsa::Signature::from_slice(bytes).is_ok()
}

/// Checks an encapsulation key with `ml_kem::EncapsulationKey768::new_from_slice`.
///
/// Trusted: whether it is accepted is a function of the bytes alone.
#[verifier::external_body]
fn pq_key_accepted(bytes: &[u8]) -> (r: bool)
    ensures
        r == mlkem768_key_accepted(bytes@),
{
    EncapsulationKey768::new_from_slice(bytes).is_ok()
}

/// The server's half of the exchange.
pub struct Offer {
    pub static_ecc: Vec<u8>,
    pub eph_ecc: Vec<u8>,
    pub pq: Vec<u8>,
    pub sig: Vec<u8>,
}

/// The client's half of the exchange (unsigned).
pub struct Reply {
    pub eph_ecc: Vec<u8>,
    pub pq: Vec<u8>,
}

impl Offer {
    /// Every field has its fixed size.
    pub open spec fn wf(&self) -> bool {
        &&& self.static_ecc@.len() == ECC_PUBKEY_SIZE
        &&& self.eph_ecc@.len() == ECC_PUBKEY_SIZE
        &&& self.pq@.len() == PQ_PUBKEY_SIZE
        &&& self.sig@.len() == ECC_SIGNATURE_SIZE
    }

    /// The encoded offer: static key, ephemeral key, encapsulation key, signature.
    pub open spec fn encoded(&self) -> Seq<u8> {
        self.static_ecc@ + self.eph_ecc@ + self.pq@ + self.sig@
    }

    /// Whether the keys and the signature are ones the crates accept.
    pub open spec fn accepted(&self) -> bool {
        &&& p521_point_accepted(self.static_ecc@)
        &&& p521_point_accepted(self.eph_ecc@)
        &&& mlkem768_key_accepted(self.pq@)
        &&& p521_signature_accepted(self.sig@)
    }
}

impl Reply {
    /// Every field has its fixed size.
    pub open spec fn wf(&self) -> bool {
        &&& self.eph_ecc@.len() == ECC_PUBKEY_SIZE
        &&& self.pq@.len() == PQ_CIPHERTEXT_SIZE
    }

    /// The encoded reply: ephemeral key, ciphertext.
    pub open spec fn encoded(&self) -> Seq<u8> {
        self.eph_ecc@ + self.pq@
    }

    /// Whether the key is one the crate accepts.
    pub open spec fn accepted(&self) -> bool {
        p521_point_accepted(self.eph_ecc@)
    }
}

/// Copies `bytes[from..from + len]`.
fn copy_range(bytes: &[u8], from: usize, len: usize) -> (r: Vec<u8>)
    requires
        from + len <= bytes@.len(),
    ensures
        r@ == bytes@.subrange(from as int, from + len),
{
    let mut out: Vec<u8> = Vec::with_capacity(len);
    let mut i: usize = 0;
    let total = bytes.len();
    while i < len
        invariant
            total == bytes@.len(),
            from + len <= bytes@.len(),
            i <= len,
            out@ == bytes@.subrange(from as int, from + i),
        decreases len - i,
    {
        out.push(bytes[from + i]);
        i = i + 1;
        assert(out@ =~= bytes@.subrange(from as int, from + i));
    }
    out
}

/// Appends `src` to `out`.
fn append_bytes(out: &mut Vec<u8>, src: &Vec<u8>)
    ensures
        final(out)@ == old(out)@ + src@,
{
    let mut i: usize = 0;
    let ghost start = out@;
    while i < src.len()
        invariant
            i <= src@.len(),
            out@ == start + src@.take(i as int),
        decreases src@.len() - i,
    {
        out.push(src[i]);
        i = i + 1;
        assert(out@ =~= start + src@.take(i as int));
    }
    assert(src@.take(i as int) =~= src@);
}

/// Whether an offer can be read off the front of `bytes`: they are long enough, and hold keys
/// and a signature that the crates accept.
pub open spec fn offer_readable(bytes: Seq<u8>) -> bool {
    let a = ECC_PUBKEY_SIZE as int;
    let b = 2 * ECC_PUBKEY_SIZE as int;
    let c = b + PQ_PUBKEY_SIZE as int;
    let d = c + ECC_SIGNATURE_SIZE as int;
    &&& bytes.len() >= d
    &&& p521_point_accepted(bytes.subrange(0, a))
    &&& p521_point_accepted(bytes.subrange(a, b))
    &&& mlkem768_key_accepted(bytes.subrange(b, c))
    &&& p521_signature_accepted(bytes.subrange(c, d))
}

/// Whether a reply can be read off the front of `bytes`: they are long enough, and hold a key
/// that the crate accepts.
pub open spec fn reply_readable(bytes: Seq<u8>) -> bool {
    bytes.len() >= ECC_PUBKEY_SIZE + PQ_CIPHERTEXT_SIZE && p521_point_accepted(bytes.subrange(0, ECC_PUBKEY_SIZE as int))
}

/// The adapter that writes and reads an [`Offer`] in a packet.
pub struct BoxedOffer;

/// The adapter that writes and reads a [`Reply`] in a packet.
pub struct BoxedReply;

impl BoxedOffer {
    /// The encoded size of an offer.
    pub fn size_of() -> (r: usize)
        ensures
            r == 2 * ECC_PUBKEY_SIZE + PQ_PUBKEY_SIZE + ECC_SIGNATURE_SIZE,
    {
        2 * ECC_PUBKEY_SIZE + PQ_PUBKEY_SIZE + ECC_SIGNATURE_SIZE
    }

    /// Encodes an offer (see [`Offer::encoded`]).
    pub fn write(src: &Offer) -> (r: Vec<u8>)
        requires
            src.wf(),
        ensures
            r@ == src.encoded(),
            r@.len() == 2 * ECC_PUBKEY_SIZE + PQ_PUBKEY_SIZE + ECC_SIGNATURE_SIZE,
    {
        let mut out: Vec<u8> = Vec::new();
        append_bytes(&mut out, &src.static_ecc);
        append_bytes(&mut out, &src.eph_ecc);
        append_bytes(&mut out, &src.pq);
        append_bytes(&mut out, &src.sig);
        out
    }

    /// Cuts an offer off the front of `bytes` and returns it with the number of bytes it took;
    /// `None` when `bytes` is shorter than an offer, or when a key or the signature is not one
    /// the crates accept.
    pub fn read(bytes: &[u8]) -> (r: Option<(Offer, usize)>)
        ensures
            r is Some <==> offer_readable(bytes@),
            r matches Some((offer, used)) ==> offer.wf() && offer.accepted() && used == 2 * ECC_PUBKEY_SIZE
                + PQ_PUBKEY_SIZE + ECC_SIGNATURE_SIZE && offer.encoded() == bytes@.take(used as int),
    {
        let size = Self::size_of();
        if bytes.len() < size {
            return None;
        }
        let static_ecc = copy_range(bytes, 0, ECC_PUBKEY_SIZE);
        let eph_ecc = copy_range(bytes, ECC_PUBKEY_SIZE, ECC_PUBKEY_SIZE);
        let pq = copy_range(bytes, 2 * ECC_PUBKEY_SIZE, PQ_PUBKEY_SIZE);
        let sig = copy_range(bytes, 2 * ECC_PUBKEY_SIZE + PQ_PUBKEY_SIZE, ECC_SIGNATURE_SIZE);
        if !(sec1_key_accepted(static_ecc.as_slice()) && sec1_key_accepted(eph_ecc.as_slice()) && pq_key_accepted(
            pq.as_slice(),
        ) && signature_accepted(sig.as_slice())) {
            return None;
        }
        let offer = Offer { static_ecc, eph_ecc, pq, sig };
        assert(offer.encoded() =~= bytes@.take(size as int));
        Some((offer, size))
    }
}

impl BoxedReply {
    /// The encoded size of a reply.
    pub fn size_of() -> (r: usize)
        ensures
            r == ECC_PUBKEY_SIZE + PQ_CIPHERTEXT_SIZE,
    {
        ECC_PUBKEY_SIZE + PQ_CIPHERTEXT_SIZE
    }

    /// Encodes a reply (see [`Reply::encoded`]).
    pub fn write(src: &Reply) -> (r: Vec<u8>)
        requires
            src.wf(),
        ensures
            r@ == src.encoded(),
            r@.len() == ECC_PUBKEY_SIZE + PQ_CIPHERTEXT_SIZE,
    {
        let mut out: Vec<u8> = Vec::new();
        append_bytes(&mut out, &src.eph_ecc);
        append_bytes(&mut out, &src.pq);
        out
    }

    /// Cuts a reply off the front of `bytes` and returns it with the number of bytes it took;
    /// `None` when `bytes` is shorter than a reply, or when its key is not one the crate accepts.
    pub fn read(bytes: &[u8]) -> (r: Option<(Reply, usize)>)
        ensures
            r is Some <==> reply_readable(bytes@),
            r matches Some((reply, used)) ==> reply.wf() && reply.accepted() && used == ECC_PUBKEY_SIZE
                + PQ_CIPHERTEXT_SIZE && reply.encoded() == bytes@.take(used as int),
    {
        let size = Self::size_of();
        if bytes.len() < size {
            return None;
        }
        let eph_ecc = copy_range(bytes, 0, ECC_PUBKEY_SIZE);
        if !sec1_key_accepted(eph_ecc.as_slice()) {
            return None;
        }
        let pq = copy_range(bytes, ECC_PUBKEY_SIZE, PQ_CIPHERTEXT_SIZE);
        let reply = Reply { eph_ecc, pq };
        assert(reply.encoded() =~= bytes@.take(size as int));
        Some((reply, size))
    }
}

/// An offer whose keys and signature the crates accept reads back from its encoding, and
/// reading back an encoded offer gives an offer with the same fields.
pub proof fn law_offer_roundtrip(offer: Offer, back: Offer)
    requires
        offer.wf(),
        back.wf(),
        back.encoded() == offer.encoded(),
    ensures
        offer.accepted() ==> offer_readable(offer.encoded()),
        back.static_ecc@ == offer.static_ecc@,
        back.eph_ecc@ == offer.eph_ecc@,
        back.pq@ == offer.pq@,
        back.sig@ == offer.sig@,
{
    let e = offer.encoded();
    let a = ECC_PUBKEY_SIZE as int;
    let b = 2 * ECC_PUBKEY_SIZE as int;
    let c = b + PQ_PUBKEY_SIZE as int;
    let d = c + ECC_SIGNATURE_SIZE as int;
    assert(back.static_ecc@ =~= e.subrange(0, a));
    assert(offer.static_ecc@ =~= e.subrange(0, a));
    assert(back.eph_ecc@ =~= e.subrange(a, b));
    assert(offer.eph_ecc@ =~= e.subrange(a, b));
    assert(back.pq@ =~= e.subrange(b, c));
    assert(offer.pq@ =~= e.subrange(b, c));
    assert(back.sig@ =~= e.subrange(c, d));
    assert(offer.sig@ =~= e.subrange(c, d));
}

/// A reply whose key the crate accepts reads back from its encoding, and reading back an
/// encoded reply gives a reply with the same fields.
pub proof fn law_reply_roundtrip(reply: Reply, back: Reply)
    requires
        reply.wf(),
        back.wf(),
        back.encoded() == reply.encoded(),
    ensures
        reply.accepted() ==> reply_readable(reply.encoded()),
        back.eph_ecc@ == reply.eph_ecc@,
        back.pq@ == reply.pq@,
{
    let e = reply.encoded();
    let a = ECC_PUBKEY_SIZE as int;
    let b = a + PQ_CIPHERTEXT_SIZE as int;
    assert(back.eph_ecc@ =~= e.subrange(0, a));
    assert(reply.eph_ecc@ =~= e.subrange(0, a));
    assert(back.pq@ =~= e.subrange(a, b));
    assert(reply.pq@ =~= e.subrange(a, b));
}

} // verus!
