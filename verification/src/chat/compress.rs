//! Compressed screen frames: a tag byte (`0` for a zstd-compressed difference frame, `1` for a
//! JPEG-compressed full frame) followed by the compressed bytes.

use vstd::prelude::*;

use crate::chat::screen::{bytes_of, words_of, ByteOrder, CompressedFrame, DecompressedFrame, Frame};

verus! {

/// What `zstd::bulk::compress` makes of `data` at compression `level`; `None` when it fails.
pub uninterp spec fn zstd_compressed(data: Seq<u8>, level: i32) -> Option<Seq<u8>>;

/// What `zstd::bulk::decompress` makes of `data` with room for `capacity` bytes; `None` when it
/// fails.
pub uninterp spec fn zstd_decompressed(data: Seq<u8>, capacity: usize) -> Option<Seq<u8>>;

/// Compresses with `zstd::bulk::compress`.
///
/// Trusted: the result, success or failure, is the named [`zstd_compressed`] of the arguments,
/// and, zstd being lossless, decompressing a result with room for at least the input's length
/// gives the input back.
#[verifier::external_body]
fn zstd_compress(data: &[u8], level: i32) -> (r: Option<Vec<u8>>)
    ensures
        match r {
            Some(c) => zstd_compressed(data@, level) == Some(c@),
            None => zstd_compressed(data@, level) is None,
        },
        r matches Some(c) ==> forall|capacity: usize|
            data@.len() <= capacity ==> #[trigger] zstd_decompressed(c@, capacity) == Some(data@),
{
    zstd::bulk::compress(data, level).ok()
}

/// Decompresses with `zstd::bulk::decompress`.
///
/// Trusted: the result is the named [`zstd_decompressed`] of the arguments, and holds at most
/// `capacity` bytes, as the crate documents.
#[verifier::external_body]
fn zstd_decompress(data: &[u8], capacity: usize) -> (r: Option<Vec<u8>>)
    ensures
        match r {
            Some(v) => zstd_decompressed(data@, capacity) == Some(v@) && v@.len() <= capacity,
            None => zstd_decompressed(data@, capacity) is None,
        },
{
    zstd::bulk::decompress(data, capacity).ok()
}

/// Whether `bytes` are the pixels of `frame`, four bytes a pixel, all in one byte order (see
/// [`bytes_of`]).
pub open spec fn pixel_bytes(frame: Frame, bytes: Seq<u8>) -> bool {
    exists|order: ByteOrder| bytes == #[trigger] bytes_of(order, frame.data@)
}

/// A difference frame of `frame` from what zstd made of its pixel bytes: `None` when zstd
/// failed (`packed` is `None`); otherwise the tag `0` followed by the compressed bytes, with the
/// frame's size and pixel count.
pub fn pack_zstd_frame(frame: &Frame, packed: Option<Vec<u8>>) -> (r: Option<CompressedFrame>)
    ensures
        packed is None ==> r is None,
        packed matches Some(p) ==> r matches Some(c) && c.width == frame.width && c.height == frame.height
            && c.pixel_count == frame.data@.len() && c.compressed_data@ == seq![0u8] + p@,
{
    let packed = match packed {
        Some(p) => p,
        None => {
            return None;
        },
    };
    let mut data: Vec<u8> = Vec::new();
    data.push(0);
    let mut i: usize = 0;
    while i < packed.len()
        invariant
            i <= packed@.len(),
            data@ == seq![0u8] + packed@.take(i as int),
        decreases packed@.len() - i,
    {
        data.push(packed[i]);
        proof {
            assert(packed@.take(i as int + 1) =~= packed@.take(i as int).push(packed@[i as int]));
        }
        i = i + 1;
    }
    proof {
        assert(packed@.take(packed@.len() as int) =~= packed@);
    }
    Some(CompressedFrame { width: frame.width, height: frame.height, compressed_data: data, pixel_count: frame.data.len() })
}

/// Compresses a difference frame: the tag `0`, then its pixel bytes (in the machine's byte
/// order) compressed by zstd at `level` (see [`pack_zstd_frame`]). `None` exactly when zstd
/// fails on those bytes.
pub fn compress_zstd(frame: &Frame, level: i32) -> (r: Option<CompressedFrame>)
    requires
        4 * frame.data@.len() <= usize::MAX,
    ensures
        exists|b: Seq<u8>| pixel_bytes(*frame, b) && (r is Some <==> #[trigger] zstd_compressed(b, level) is Some),
        r matches Some(c) ==> {
            &&& c.width == frame.width
            &&& c.height == frame.height
            &&& c.pixel_count == frame.data@.len()
            &&& c.compressed_data@.len() > 0
            &&& c.compressed_data@[0] == 0
            &&& exists|b: Seq<u8>|
                pixel_bytes(*frame, b) && #[trigger] zstd_compressed(b, level) == Some(c.compressed_data@.drop_first())
                    && forall|capacity: usize|
                    b.len() <= capacity ==> #[trigger] zstd_decompressed(c.compressed_data@.drop_first(), capacity)
                        == Some(b)
        },
{
    let raw = frame.as_bytes();
    let packed = zstd_compress(raw.as_slice(), level);
    let r = pack_zstd_frame(frame, packed);
    proof {
        assert(pixel_bytes(*frame, raw@));
        if r is Some {
            let c = r->0;
            assert(c.compressed_data@.drop_first() =~= packed->0@);
        }
    }
    r
}

/// Whether a compressed frame is a full (JPEG) frame rather than a difference frame.
pub fn is_full_frame(compressed: &CompressedFrame) -> (r: bool)
    requires
        compressed.compressed_data@.len() > 0,
    ensures
        r == (compressed.compressed_data@[0] == 1),
{
    compressed.compressed_data[0] == 1
}

/// Decompresses a difference frame (tag `0`): the bytes after the tag are zstd-decompressed with
/// room for `width × height` pixels and read back as pixels in the machine's byte order. `None`
/// when zstd fails.
pub fn decompress_zstd(compressed: &CompressedFrame) -> (r: Option<DecompressedFrame>)
    requires
        compressed.compressed_data@.len() > 0,
        compressed.width * compressed.height * 4 <= u32::MAX,
    ensures
        r is Some <==> zstd_decompressed(
            compressed.compressed_data@.drop_first(),
            (compressed.width * compressed.height * 4) as usize,
        ) is Some,
        r matches Some(DecompressedFrame::ZstdDiff(f)) ==> {
            let b = zstd_decompressed(
                compressed.compressed_data@.drop_first(),
                (compressed.width * compressed.height * 4) as usize,
            )->0;
            &&& f.width == compressed.width
            &&& f.height == compressed.height
            &&& exists|order: ByteOrder| f.data@ == #[trigger] words_of(order, b)
        },
        !(r matches Some(DecompressedFrame::JpegFull(_))),
{
    let w = compressed.width;
    let h = compressed.height;
    assert(w * h <= u32::MAX) by (nonlinear_arith)
        requires
            w * h * 4 <= u32::MAX,
    ;
    let capacity = (w * h * 4) as usize;
    let body = vstd::slice::slice_subrange(compressed.compressed_data.as_slice(), 1, compressed.compressed_data.len());
    assert(body@ =~= compressed.compressed_data@.drop_first());
    match zstd_decompress(body, capacity) {
        Some(bytes) => {
            let f = Frame::from_bytes(w, h, bytes.as_slice());
            proof {
                let order = choose|order: ByteOrder| f.data@ == #[trigger] words_of(order, bytes@);
                assert(f.data@ == words_of(order, bytes@));
                assert(bytes@ == zstd_decompressed(compressed.compressed_data@.drop_first(), capacity)->0);
                assert(capacity == (compressed.width * compressed.height * 4) as usize);
            }
            Some(DecompressedFrame::ZstdDiff(f))
        },
        None => None,
    }
}

/// The `0xFFRRGGBB` word of an RGBA pixel (the alpha byte is dropped and made opaque).
pub open spec fn argb(r: u8, g: u8, b: u8) -> u32 {
    0xFF00_0000u32 | ((r as u32) << 16u32) | ((g as u32) << 8u32) | (b as u32)
}

/// A full frame from the RGBA pixels a JPEG decoded to: each pixel becomes an opaque `0xFFRRGGBB`
/// word; a trailing partial pixel is dropped.
pub fn full_frame(width: u32, height: u32, rgba: &[u8]) -> (r: DecompressedFrame)
    ensures
        r matches DecompressedFrame::JpegFull(f) && f.width == width && f.height == height && f.data@.len()
            == rgba@.len() / 4 && forall|i: int|
            0 <= i < f.data@.len() ==> #[trigger] f.data@[i] == argb(rgba@[4 * i], rgba@[4 * i + 1], rgba@[4 * i + 2]),
{
    let len = rgba.len();
    let n = len / 4;
    let mut data: Vec<u32> = Vec::with_capacity(n);
    let mut i: usize = 0;
    while i < n
        invariant
            len == rgba@.len(),
            n == rgba@.len() / 4,
            i <= n,
            data@.len() == i,
            forall|j: int| 0 <= j < i ==> #[trigger] data@[j] == argb(rgba@[4 * j], rgba@[4 * j + 1], rgba@[4 * j + 2]),
        decreases n - i,
    {
        assert(4 * i + 4 <= len) by (nonlinear_arith)
            requires
                i < n,
                n == len / 4,
        ;
        let at = 4 * i;
        let word = 0xFF00_0000u32 | ((rgba[at] as u32) << 16u32) | ((rgba[at + 1] as u32) << 8u32) | (rgba[at
            + 2] as u32);
        data.push(word);
        i = i + 1;
    }
    DecompressedFrame::JpegFull(Frame { width, height, data })
}

/// A frame compressed with zstd decompresses to the same pixel bytes: decompressing what
/// [`compress_zstd`] made of a frame of `width × height` pixels succeeds and gives back the
/// bytes the pixels were written as, which read in the byte order they were written in are the
/// frame's pixels.
pub proof fn law_zstd_frame_roundtrip(frame: Frame, c: CompressedFrame, level: i32)
    requires
        frame.data@.len() == frame.width * frame.height,
        frame.width * frame.height * 4 <= u32::MAX,
        c.width == frame.width,
        c.height == frame.height,
        c.compressed_data@.len() > 0,
        c.compressed_data@[0] == 0,
        exists|b: Seq<u8>|
            pixel_bytes(frame, b) && #[trigger] zstd_compressed(b, level) == Some(c.compressed_data@.drop_first())
                && forall|capacity: usize|
                b.len() <= capacity ==> #[trigger] zstd_decompressed(c.compressed_data@.drop_first(), capacity) == Some(
                    b,
                ),
    ensures
        ({
            let cap = (c.width * c.height * 4) as usize;
            let out = zstd_decompressed(c.compressed_data@.drop_first(), cap);
            &&& out is Some
            &&& pixel_bytes(frame, out->0)
            &&& exists|order: ByteOrder| #[trigger] words_of(order, out->0) == frame.data@
        }),
{
    let b = choose|b: Seq<u8>|
        pixel_bytes(frame, b) && #[trigger] zstd_compressed(b, level) == Some(c.compressed_data@.drop_first()) && forall|
            capacity: usize,
        | b.len() <= capacity ==> #[trigger] zstd_decompressed(c.compressed_data@.drop_first(), capacity) == Some(b);
    let cap = (c.width * c.height * 4) as usize;
    let order = choose|order: ByteOrder| b == #[trigger] bytes_of(order, frame.data@);
    crate::chat::screen::lemma_bytes_of_len(order, frame.data@);
    assert(b.len() <= cap);
    assert(zstd_decompressed(c.compressed_data@.drop_first(), cap) == Some(b));
    crate::chat::screen::law_frame_bytes_roundtrip(order, frame.data@, b);
    assert(b == bytes_of(order, frame.data@));
    assert(words_of(order, b) == frame.data@);
    assert(zstd_decompressed(c.compressed_data@.drop_first(), cap)->0 == b);
}

} // verus!
