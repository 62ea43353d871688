//! Screen sharing: H.264 Annex-B bitstream handling on the relay, frames, and the packets that
//! carry them.

use vstd::prelude::*;

verus! {

/// Whether an Annex-B start code `00 00 01` begins at `i` and a NAL header byte follows it.
pub open spec fn start_code_at(b: Seq<u8>, i: int) -> bool {
    &&& 0 <= i
    &&& i + 3 < b.len()
    &&& b[i] == 0
    &&& b[i + 1] == 0
    &&& b[i + 2] == 1
}

/// The NAL unit type announced after the start code at `i`.
pub open spec fn nal_type_at(b: Seq<u8>, i: int) -> u8 {
    b[i + 3] & 0x1fu8
}

/// Whether a sequence parameter set (NAL type 7), which opens every frame, starts at `i`.
pub open spec fn sps_at(b: Seq<u8>, i: int) -> bool {
    start_code_at(b, i) && nal_type_at(b, i) == 7
}

/// The positions below `n` where a sequence parameter set starts, in increasing order.
pub open spec fn sps_positions(b: Seq<u8>, n: int) -> Seq<int>
    decreases n,
{
    if n <= 0 {
        Seq::empty()
    } else {
        sps_positions(b, n - 1) + if sps_at(b, n - 1) {
            seq![n - 1]
        } else {
            Seq::empty()
        }
    }
}

/// Position `p` moved back over the zero bytes just before it (the leading zero of a
/// four-byte start code, and any trailing zeros of the unit before).
pub open spec fn back_over_zeros(b: Seq<u8>, p: int) -> int
    decreases p,
{
    if p > 0 && b[p - 1] == 0 {
        back_over_zeros(b, p - 1)
    } else {
        p
    }
}

/// The access units of an Annex-B stream: one per sequence parameter set, each running from
/// its start code (moved back over the zeros before it) to the next one's, the last to the
/// end of the stream. Bytes before the first sequence parameter set belong to no unit.
pub open spec fn access_units(b: Seq<u8>) -> Seq<Seq<u8>> {
    let ps = sps_positions(b, b.len() as int);
    Seq::new(
        ps.len(),
        |j: int|
            b.subrange(
                back_over_zeros(b, ps[j]),
                if j + 1 < ps.len() {
                    back_over_zeros(b, ps[j + 1])
                } else {
                    b.len() as int
                },
            ),
    )
}

/// Whether a NAL unit of type 5 (an IDR picture) or 7 (a sequence parameter set) starts
/// anywhere in `b`: only such an access unit can be decoded without the frames before it.
pub open spec fn spec_is_keyframe(b: Seq<u8>) -> bool {
    exists|i: int| start_code_at(b, i) && (nal_type_at(b, i) == 5 || nal_type_at(b, i) == 7)
}

proof fn lemma_back_bounds(b: Seq<u8>, p: int, m: int)
    requires
        0 < m <= p <= b.len(),
        b[m - 1] != 0,
    ensures
        m <= back_over_zeros(b, p) <= p,
    decreases p,
{
    if p > m && b[p - 1] == 0 {
        lemma_back_bounds(b, p - 1, m);
    }
}

proof fn lemma_back_le(b: Seq<u8>, p: int)
    requires
        0 <= p,
    ensures
        0 <= back_over_zeros(b, p) <= p,
    decreases p,
{
    if p > 0 && b[p - 1] == 0 {
        lemma_back_le(b, p - 1);
    }
}

/// A start code's last byte is 1, so no start code begins one or two bytes after another.
proof fn lemma_no_overlap(b: Seq<u8>, i: int)
    requires
        start_code_at(b, i),
    ensures
        !start_code_at(b, i + 1),
        !start_code_at(b, i + 2),
{
}

proof fn lemma_sps_positions_props(b: Seq<u8>, n: int)
    ensures
        forall|j: int| 0 <= j < sps_positions(b, n).len() ==> sps_at(b, #[trigger] sps_positions(b, n)[j]),
        forall|j: int| 0 <= j < sps_positions(b, n).len() ==> #[trigger] sps_positions(b, n)[j] < n,
    decreases n,
{
    if n > 0 {
        lemma_sps_positions_props(b, n - 1);
        let prev = sps_positions(b, n - 1);
        let cur = sps_positions(b, n);
        assert forall|j: int| 0 <= j < cur.len() implies sps_at(b, #[trigger] cur[j]) && cur[j] < n by {
            if j < prev.len() {
                assert(cur[j] == prev[j]);
            }
        }
    }
}

proof fn lemma_sps_positions_stable(b: Seq<u8>, m: int, n: int)
    requires
        0 <= m <= n,
        forall|i: int| m <= i < n ==> !sps_at(b, i),
    ensures
        sps_positions(b, n) == sps_positions(b, m),
    decreases n - m,
{
    if n > m {
        lemma_sps_positions_stable(b, m, n - 1);
        assert(sps_positions(b, n) =~= sps_positions(b, n - 1));
    }
}

/// Cuts an Annex-B stream into one buffer per frame (see [`access_units`]).
pub fn split_access_units(bitstream: &[u8]) -> (r: Vec<Vec<u8>>)
    ensures
        r@.map_values(|u: Vec<u8>| u@) == access_units(bitstream@),
{
    let ghost b = bitstream@;
    let len = bitstream.len();
    let mut units: Vec<Vec<u8>> = Vec::new();
    let mut start: Option<usize> = None;
    let mut index: usize = 0;
    while index < len && len - index > 3
        invariant
            b == bitstream@,
            len == b.len(),
            index <= len,
            ({
                let ps = sps_positions(b, index as int);
                &&& ps.len() == 0 ==> start is None && units@.len() == 0
                &&& ps.len() > 0 ==> start == Some(back_over_zeros(b, ps[ps.len() - 1]) as usize)
                    && units@.len() == ps.len() - 1 && ps[ps.len() - 1] + 3 <= index
                &&& forall|j: int|
                    0 <= j < units@.len() ==> (#[trigger] units@[j])@ == b.subrange(
                        back_over_zeros(b, ps[j]),
                        back_over_zeros(b, ps[j + 1]),
                    )
            }),
        decreases len - index,
    {
        proof {
            lemma_sps_positions_props(b, index as int);
        }
        let ghost ps = sps_positions(b, index as int);
        if !(bitstream[index] == 0 && bitstream[index + 1] == 0 && bitstream[index + 2] == 1) {
            proof {
                assert(sps_positions(b, index + 1) =~= ps);
            }
            index = index + 1;
        } else {
            proof {
                lemma_no_overlap(b, index as int);
            }
            if bitstream[index + 3] & 0x1f == 7 {
                let mut boundary = index;
                while boundary > 0 && bitstream[boundary - 1] == 0
                    invariant
                        b == bitstream@,
                        len == b.len(),
                        boundary <= index,
                        index + 3 < len,
                        back_over_zeros(b, boundary as int) == back_over_zeros(b, index as int),
                    decreases boundary,
                {
                    boundary = boundary - 1;
                }
                assert(boundary == back_over_zeros(b, index as int));
                let ghost nps = ps.push(index as int);
                assert(sps_positions(b, index + 1) =~= nps);
                match start {
                    Some(s) => {
                        proof {
                            let p = ps[ps.len() - 1];
                            lemma_back_le(b, p);
                            lemma_back_bounds(b, index as int, p + 3);
                        }
                        let piece = vstd::slice::slice_subrange(bitstream, s, boundary);
                        let unit = vstd::slice::slice_to_vec(piece);
                        units.push(unit);
                    },
                    None => {},
                }
                start = Some(boundary);
                proof {
                    assert(sps_positions(b, index + 3) =~= nps) by {
                        assert(!sps_at(b, index + 1));
                        assert(!sps_at(b, index + 2));
                        assert(sps_positions(b, index + 2) =~= nps);
                    }
                    assert forall|j: int| 0 <= j < units@.len() implies (#[trigger] units@[j])@ == b.subrange(
                        back_over_zeros(b, nps[j]),
                        back_over_zeros(b, nps[j + 1]),
                    ) by {
                        if j + 1 < units@.len() {
                            assert(nps[j] == ps[j] && nps[j + 1] == ps[j + 1]);
                        }
                    }
                }
            } else {
                proof {
                    assert(!sps_at(b, index as int));
                    assert(sps_positions(b, index + 1) =~= ps);
                    assert(sps_positions(b, index + 2) =~= ps);
                    assert(sps_positions(b, index + 3) =~= ps);
                }
            }
            index = index + 3;
        }
    }
    proof {
        lemma_sps_positions_stable(b, index as int, len as int);
        lemma_sps_positions_props(b, index as int);
    }
    let ghost ps = sps_positions(b, index as int);
    match start {
        Some(s) => {
            proof {
                lemma_back_le(b, ps[ps.len() - 1]);
            }
            let piece = vstd::slice::slice_subrange(bitstream, s, len);
            let unit = vstd::slice::slice_to_vec(piece);
            units.push(unit);
        },
        None => {},
    }
    proof {
        let us = units@.map_values(|u: Vec<u8>| u@);
        let want = access_units(b);
        assert(us.len() == want.len());
        assert forall|j: int| 0 <= j < us.len() implies us[j] == want[j] by {
            if j + 1 < ps.len() {
                assert(units@[j]@ == b.subrange(back_over_zeros(b, ps[j]), back_over_zeros(b, ps[j + 1])));
            }
        }
        assert(us =~= want);
    }
    units
}

/// Whether an access unit stands on its own (see [`spec_is_keyframe`]).
pub fn is_keyframe(bitstream: &[u8]) -> (r: bool)
    ensures
        r == spec_is_keyframe(bitstream@),
{
    let ghost b = bitstream@;
    let len = bitstream.len();
    let mut index: usize = 0;
    while index < len && len - index > 3
        invariant
            b == bitstream@,
            len == b.len(),
            index <= len,
            forall|i: int|
                0 <= i < index ==> !(start_code_at(b, i) && (nal_type_at(b, i) == 5 || nal_type_at(b, i) == 7)),
        decreases len - index,
    {
        if !(bitstream[index] == 0 && bitstream[index + 1] == 0 && bitstream[index + 2] == 1) {
            index = index + 1;
        } else {
            let t = bitstream[index + 3] & 0x1f;
            if t == 5 || t == 7 {
                assert(start_code_at(b, index as int) && (nal_type_at(b, index as int) == 5 || nal_type_at(
                    b,
                    index as int,
                ) == 7));
                return true;
            }
            proof {
                lemma_no_overlap(b, index as int);
            }
            index = index + 3;
        }
    }
    proof {
        if spec_is_keyframe(b) {
            let i = choose|i: int| start_code_at(b, i) && (nal_type_at(b, i) == 5 || nal_type_at(b, i) == 7);
            assert(i < index);
        }
    }
    false
}

/// What a screen packet carries.
pub enum ScreenPacketCode {
    /// Encoded video.
    Video { data: Vec<u8> },
    /// Encoded audio.
    Audio { data: Vec<u8> },
}

/// A screen-sharing packet.
pub struct ScreenPacket {
    pub code: ScreenPacketCode,
    /// The sequence number.
    pub seq: usize,
}

impl crate::chat::network::SequencedPacket for ScreenPacket {
    open spec fn spec_seq(&self) -> usize {
        self.seq
    }

    fn seq(&self) -> (r: usize) {
        self.seq
    }

    fn set_seq(&mut self, seq: usize) {
        self.seq = seq;
    }
}

/// The value of four bytes read little-endian.
pub open spec fn le_u32(b0: u8, b1: u8, b2: u8, b3: u8) -> u32 {
    (b0 as u32) | ((b1 as u32) << 8u32) | ((b2 as u32) << 16u32) | ((b3 as u32) << 24u32)
}

/// The value of four bytes read big-endian.
pub open spec fn be_u32_of(b0: u8, b1: u8, b2: u8, b3: u8) -> u32 {
    ((b0 as u32) << 24u32) | ((b1 as u32) << 16u32) | ((b2 as u32) << 8u32) | (b3 as u32)
}

/// Reads four bytes with `u32::from_ne_bytes`.
///
/// Trusted: as documented, the bytes are read in the machine's byte order, which is
/// little-endian or big-endian; which one is not stated, since it depends on the machine, and
/// nothing ties the order of one call to that of another.
#[verifier::external_body]
fn u32_from_ne_bytes(bytes: [u8; 4]) -> (r: u32)
    ensures
        r == le_u32(bytes[0], bytes[1], bytes[2], bytes[3]) || r == be_u32_of(bytes[0], bytes[1], bytes[2], bytes[3]),
{
    u32::from_ne_bytes(bytes)
}

/// The two orders in which the four bytes of a word can be laid out.
#[derive(Clone, Copy, Debug, PartialEq, Eq, Structural)]
pub enum ByteOrder {
    /// Least significant byte first.
    Little,
    /// Most significant byte first.
    Big,
}

/// The machine's byte order, found by reading the bytes `1, 0, 0, 0` natively: little-endian
/// when they read as `1`.
fn native_order() -> ByteOrder {
    if u32_from_ne_bytes([1u8, 0u8, 0u8, 0u8]) == 1 {
        ByteOrder::Little
    } else {
        ByteOrder::Big
    }
}

/// The four bytes of `word` laid out in `order`.
pub open spec fn word_bytes(order: ByteOrder, word: u32) -> Seq<u8> {
    match order {
        ByteOrder::Little => vstd::bytes::spec_u32_to_le_bytes(word),
        ByteOrder::Big => vstd::bytes::spec_u32_to_le_bytes(word).reverse(),
    }
}

/// The word that four bytes laid out in `order` stand for.
pub open spec fn word_from(order: ByteOrder, b: Seq<u8>) -> u32 {
    match order {
        ByteOrder::Little => vstd::bytes::spec_u32_from_le_bytes(b),
        ByteOrder::Big => vstd::bytes::spec_u32_from_le_bytes(b.reverse()),
    }
}

/// The pixels that `bytes` hold in `order`, four bytes each; a trailing partial pixel is
/// dropped.
pub open spec fn words_of(order: ByteOrder, bytes: Seq<u8>) -> Seq<u32> {
    Seq::new(bytes.len() / 4, |i: int| word_from(order, bytes.subrange(4 * i, 4 * i + 4)))
}

/// The bytes of `words`, four per word in `order`.
pub open spec fn bytes_of(order: ByteOrder, words: Seq<u32>) -> Seq<u8>
    decreases words.len(),
{
    if words.len() == 0 {
        Seq::empty()
    } else {
        bytes_of(order, words.drop_last()) + word_bytes(order, words.last())
    }
}

/// Writing a word in one order and reading it back in the same order gives the word; reading
/// four bytes and writing the word back gives the bytes.
proof fn lemma_word_roundtrip(order: ByteOrder, word: u32, b: Seq<u8>)
    requires
        b.len() == 4,
    ensures
        word_bytes(order, word).len() == 4,
        word_from(order, word_bytes(order, word)) == word,
        word_bytes(order, word_from(order, b)) == b,
{
    vstd::bytes::lemma_auto_spec_u32_to_from_le_bytes();
    let le = vstd::bytes::spec_u32_to_le_bytes(word);
    assert(le.reverse().reverse() =~= le);
    assert(b.reverse().len() == 4);
    assert(b.reverse().reverse() =~= b);
}

/// The bytes of `words` in `order` are four per word, word `i` at `4 i`.
proof fn lemma_bytes_of_index(order: ByteOrder, words: Seq<u32>, i: int)
    requires
        0 <= i < words.len(),
    ensures
        bytes_of(order, words).len() == 4 * words.len(),
        bytes_of(order, words).subrange(4 * i, 4 * i + 4) == word_bytes(order, words[i]),
    decreases words.len(),
{
    lemma_word_roundtrip(order, words.last(), seq![0u8, 0u8, 0u8, 0u8]);
    let prefix = words.drop_last();
    if i < words.len() - 1 {
        lemma_bytes_of_index(order, prefix, i);
        assert(bytes_of(order, words).subrange(4 * i, 4 * i + 4) =~= bytes_of(order, prefix).subrange(
            4 * i,
            4 * i + 4,
        ));
    } else {
        if prefix.len() > 0 {
            lemma_bytes_of_index(order, prefix, 0);
        }
        assert(bytes_of(order, prefix).len() == 4 * prefix.len());
        assert(bytes_of(order, words).subrange(4 * i, 4 * i + 4) =~= word_bytes(order, words[i]));
    }
}

/// The length of the bytes of `words`: four per word.
pub proof fn lemma_bytes_of_len(order: ByteOrder, words: Seq<u32>)
    ensures
        bytes_of(order, words).len() == 4 * words.len(),
{
    if words.len() > 0 {
        lemma_bytes_of_index(order, words, 0);
    }
}

/// Pixels written as bytes and read back in the same byte order are the same pixels, and bytes
/// read as pixels and written back in the same order are the same bytes, but for a trailing
/// partial pixel, which reading drops.
pub proof fn law_frame_bytes_roundtrip(order: ByteOrder, words: Seq<u32>, bytes: Seq<u8>)
    ensures
        words_of(order, bytes_of(order, words)) == words,
        bytes_of(order, words_of(order, bytes)) == bytes.take((4 * (bytes.len() / 4)) as int),
{
    let b = bytes_of(order, words);
    lemma_bytes_of_len(order, words);
    assert forall|i: int| 0 <= i < words.len() implies #[trigger] words_of(order, b)[i] == words[i] by {
        lemma_bytes_of_index(order, words, i);
        lemma_word_roundtrip(order, words[i], seq![0u8, 0u8, 0u8, 0u8]);
    }
    assert(words_of(order, b) =~= words);
    let ws = words_of(order, bytes);
    let n = bytes.len() / 4;
    let back = bytes_of(order, ws);
    lemma_bytes_of_len(order, ws);
    assert(4 * n <= bytes.len());
    assert forall|k: int| 0 <= k < 4 * n implies #[trigger] back[k] == bytes[k] by {
        let i = k / 4;
        assert(0 <= i < n && 4 * i <= k < 4 * i + 4);
        lemma_bytes_of_index(order, ws, i);
        let piece = bytes.subrange(4 * i, 4 * i + 4);
        lemma_word_roundtrip(order, 0u32, piece);
        assert(back[k] == back.subrange(4 * i, 4 * i + 4)[k - 4 * i]);
    }
    assert(back =~= bytes.take((4 * n) as int));
}

/// A captured frame: its size and its pixels as `0RGB` words.
pub struct Frame {
    pub width: u32,
    pub height: u32,
    pub data: Vec<u32>,
}

/// A compressed frame with the pixel count it decompresses to.
pub struct CompressedFrame {
    pub width: u32,
    pub height: u32,
    pub compressed_data: Vec<u8>,
    pub pixel_count: usize,
}

impl Frame {
    /// The pixels as bytes, four per pixel in `order`.
    fn as_bytes_in(&self, order: ByteOrder) -> (r: Vec<u8>)
        requires
            4 * self.data@.len() <= usize::MAX,
        ensures
            r@ == bytes_of(order, self.data@),
    {
        let mut out: Vec<u8> = Vec::with_capacity(4 * self.data.len());
        let mut i: usize = 0;
        proof {
            assert(self.data@.take(0) =~= Seq::<u32>::empty());
        }
        while i < self.data.len()
            invariant
                i <= self.data@.len(),
                out@ == bytes_of(order, self.data@.take(i as int)),
            decreases self.data@.len() - i,
        {
            let x = self.data[i];
            let le = vstd::bytes::u32_to_le_bytes(x);
            match order {
                ByteOrder::Little => {
                    out.push(le[0]);
                    out.push(le[1]);
                    out.push(le[2]);
                    out.push(le[3]);
                },
                ByteOrder::Big => {
                    out.push(le[3]);
                    out.push(le[2]);
                    out.push(le[1]);
                    out.push(le[0]);
                },
            }
            proof {
                let next = self.data@.take(i + 1);
                assert(next.drop_last() =~= self.data@.take(i as int));
                assert(out@ =~= bytes_of(order, self.data@.take(i as int)) + word_bytes(order, x));
            }
            i = i + 1;
        }
        proof {
            assert(self.data@.take(self.data@.len() as int) =~= self.data@);
        }
        out
    }

    /// The pixels as bytes, four per pixel in the machine's byte order, one order for all
    /// pixels.
    pub fn as_bytes(&self) -> (r: Vec<u8>)
        requires
            4 * self.data@.len() <= usize::MAX,
        ensures
            exists|order: ByteOrder| r@ == #[trigger] bytes_of(order, self.data@),
    {
        let order = native_order();
        self.as_bytes_in(order)
    }

    /// Rebuilds a frame from bytes, four per pixel in `order`; a trailing partial pixel is
    /// dropped.
    fn from_bytes_in(order: ByteOrder, width: u32, height: u32, bytes: &[u8]) -> (r: Self)
        ensures
            r.width == width,
            r.height == height,
            r.data@ == words_of(order, bytes@),
    {
        let blen = bytes.len();
        let n = blen / 4;
        let mut data: Vec<u32> = Vec::with_capacity(n);
        let mut i: usize = 0;
        while i < n
            invariant
                blen == bytes@.len(),
                n == bytes@.len() / 4,
                i <= n,
                data@.len() == i,
                forall|j: int| 0 <= j < i ==> #[trigger] data@[j] == words_of(order, bytes@)[j],
            decreases n - i,
        {
            assert(4 * i + 4 <= blen) by (nonlinear_arith)
                requires
                    i < n,
                    n == blen / 4,
            ;
            let at = 4 * i;
            let piece = match order {
                ByteOrder::Little => [bytes[at], bytes[at + 1], bytes[at + 2], bytes[at + 3]],
                ByteOrder::Big => [bytes[at + 3], bytes[at + 2], bytes[at + 1], bytes[at]],
            };
            let w = vstd::bytes::u32_from_le_bytes(piece.as_slice());
            proof {
                let sub = bytes@.subrange(4 * i, 4 * i + 4);
                match order {
                    ByteOrder::Little => {
                        assert(piece@ =~= sub);
                    },
                    ByteOrder::Big => {
                        assert(piece@ =~= sub.reverse());
                    },
                }
            }
            data.push(w);
            i = i + 1;
        }
        proof {
            assert(data@ =~= words_of(order, bytes@));
        }
        Frame { width, height, data }
    }

    /// Rebuilds a frame from bytes, four per pixel in the machine's byte order, one order for
    /// all pixels; a trailing partial pixel is dropped.
    pub fn from_bytes(width: u32, height: u32, bytes: &[u8]) -> (r: Self)
        ensures
            r.width == width,
            r.height == height,
            exists|order: ByteOrder| r.data@ == #[trigger] words_of(order, bytes@),
    {
        let order = native_order();
        Frame::from_bytes_in(order, width, height, bytes)
    }
}

/// Whether the GPU converter handles a frame size: four luma and four chroma samples are
/// packed per word, so rows must be whole words in both planes.
pub open spec fn spec_supports(width: u32, height: u32) -> bool {
    width % 8 == 0 && height % 2 == 0 && width > 0 && height > 0
}

/// Whether the GPU converter handles frames of `width × height` (see [`spec_supports`]).
pub fn supports(width: u32, height: u32) -> (r: bool)
    ensures
        r == spec_supports(width, height),
{
    width % 8 == 0 && height % 2 == 0 && width > 0 && height > 0
}

/// An I420 picture: the luma plane, then the two quarter-size chroma planes, back to back.
pub struct I420Frame {
    data: Vec<u8>,
    width: usize,
    height: usize,
}

impl I420Frame {
    /// The three planes fit in the buffer.
    #[verifier::type_invariant]
    pub closed spec fn inv(self) -> bool {
        &&& self.width * self.height + (self.width * self.height) / 2 <= self.data@.len()
        &&& self.width * self.height + (self.width * self.height) / 2 <= usize::MAX
    }

    /// Width and height in pixels.
    pub closed spec fn size(&self) -> (usize, usize) {
        (self.width, self.height)
    }

    /// The buffer.
    pub closed spec fn bytes(&self) -> Seq<u8> {
        self.data@
    }

    /// A zeroed picture of a supported size; the buffer holds the luma words and the two
    /// chroma planes' words the converter writes.
    pub fn new(width: u32, height: u32) -> (r: Self)
        requires
            spec_supports(width, height),
            (width as nat) * (height as nat) * 2 <= usize::MAX,
        ensures
            r.size() == (width as usize, height as usize),
            r.bytes().len() == width * height + (width * height) / 2,
            forall|i: int| 0 <= i < r.bytes().len() ==> r.bytes()[i] == 0,
    {
        let pixels: u64 = (width as u64) * (height as u64);
        let y_words = pixels / 4;
        let c_words = pixels / 16;
        let output_bytes = (y_words + 2 * c_words) * 4;
        assert(output_bytes == pixels + pixels / 2) by (nonlinear_arith)
            requires
                width % 8 == 0,
                height % 2 == 0,
                pixels == width * height,
                y_words == pixels / 4,
                c_words == pixels / 16,
                output_bytes == (y_words + 2 * c_words) * 4,
        {
            let a = width / 8;
            let b = height / 2;
            assert(pixels == 16 * (a * b));
        }
        let data: Vec<u8> = vec![0u8; output_bytes as usize];
        I420Frame { data, width: width as usize, height: height as usize }
    }

    /// Width and height.
    pub fn dimensions(&self) -> (r: (usize, usize))
        ensures
            r == self.size(),
    {
        (self.width, self.height)
    }

    /// Row strides of the luma plane and of the two chroma planes.
    pub fn strides(&self) -> (r: (usize, usize, usize))
        ensures
            r == (self.size().0, (self.size().0 / 2) as usize, (self.size().0 / 2) as usize),
    {
        (self.width, self.width / 2, self.width / 2)
    }

    /// The luma plane: the first `width × height` bytes.
    pub fn y(&self) -> (r: &[u8])
        ensures
            r@ == self.bytes().subrange(0, self.size().0 * self.size().1),
    {
        proof {
            use_type_invariant(self);
        }
        vstd::slice::slice_subrange(self.data.as_slice(), 0, self.width * self.height)
    }

    /// The first chroma plane: a quarter of the luma plane's size, right after it.
    pub fn u(&self) -> (r: &[u8])
        ensures
            ({
                let base = self.size().0 * self.size().1;
                r@ == self.bytes().subrange(base, base + base / 4)
            }),
    {
        proof {
            use_type_invariant(self);
        }
        let base = self.width * self.height;
        vstd::slice::slice_subrange(self.data.as_slice(), base, base + base / 4)
    }

    /// The second chroma plane, right after the first.
    pub fn v(&self) -> (r: &[u8])
        ensures
            ({
                let base = self.size().0 * self.size().1;
                r@ == self.bytes().subrange(base + base / 4, base + base / 2)
            }),
    {
        proof {
            use_type_invariant(self);
        }
        let base = self.width * self.height;
        vstd::slice::slice_subrange(self.data.as_slice(), base + base / 4, base + base / 2)
    }
}

/// A chunk of encoded screen audio.
pub struct AudioFrame {
    pub data: Vec<u8>,
}

/// A decompressed frame and how it was sent.
pub enum DecompressedFrame {
    /// A difference against the previous frame, zstd-compressed.
    ZstdDiff(Frame),
    /// A whole frame, JPEG-compressed.
    JpegFull(Frame),
}

} // verus!
