//! Packet framing and the per-packet rules of the chat connection: sequence numbers, the
//! obfuscation used before keys are agreed, the length prefix and the server's spam checks.

use vstd::prelude::*;

use crate::chat::codes::PacketCode;

verus! {

/// A packet that carries a sequence number.
pub trait SequencedPacket {
    /// The packet's sequence number.
    spec fn spec_seq(&self) -> usize;

    /// The packet's sequence number.
    fn seq(&self) -> (r: usize)
        ensures
            r == self.spec_seq(),
    ;

    /// Sets the packet's sequence number.
    fn set_seq(&mut self, seq: usize)
        ensures
            final(self).spec_seq() == seq,
    ;
}

/// A message packet: a control code and its sequence number.
pub struct Packet {
    pub code: PacketCode,
    pub seq: usize,
}

impl SequencedPacket for Packet {
    open spec fn spec_seq(&self) -> usize {
        self.seq
    }

    fn seq(&self) -> (r: usize) {
        self.seq
    }

    fn set_seq(&mut self, seq: usize) {
        self.seq = seq;
    }
}

/// What a file transfer packet carries.
pub enum FilePacketCode {
    /// A chunk of the file.
    Data { data: Vec<u8> },
    /// The file's size, name and hash.
    Metadata { size: u64, filename: String, hash: [u8; 32] },
}

/// A chunk of a file transfer.
pub struct FilePacket {
    /// The upload the chunk belongs to.
    pub uid: u64,
    pub code: FilePacketCode,
    pub seq: usize,
}

impl SequencedPacket for FilePacket {
    open spec fn spec_seq(&self) -> usize {
        self.seq
    }

    fn seq(&self) -> (r: usize) {
        self.seq
    }

    fn set_seq(&mut self, seq: usize) {
        self.seq = seq;
    }
}

/// Whether the client accepts a packet numbered `seq` after `last`.
pub open spec fn client_accepts(last: usize, seq: usize, is_disconnect: bool) -> bool {
    seq > last || last == 0 || is_disconnect
}

/// Whether a server-side counter at `last` accepts a packet numbered `seq`.
pub open spec fn server_accepts(last: usize, seq: usize) -> bool {
    seq > last
}

/// Whether a file or screen stream at `last` accepts a frame numbered `seq`.
pub open spec fn stream_accepts(last: usize, seq: usize) -> bool {
    seq > last || last == 0
}

/// Stamps an outgoing packet: the sequence counter moves on by one and the packet takes the
/// new value.
pub fn stamp_seq<P: SequencedPacket>(packet: &mut P, counter: &mut usize)
    requires
        *old(counter) < usize::MAX,
    ensures
        *final(counter) == *old(counter) + 1,
        final(packet).spec_seq() == *final(counter),
{
    *counter = *counter + 1;
    packet.set_seq(*counter);
}

/// Accepts a packet on the client when its sequence number is newer than the last one seen,
/// when nothing was seen yet, or when it is a disconnect; the counter then takes the packet's
/// number. Otherwise the packet is refused and the counter kept.
pub fn accept_client_seq(counter: &mut usize, packet_seq: usize, is_disconnect: bool) -> (r: bool)
    ensures
        r == client_accepts(*old(counter), packet_seq, is_disconnect),
        *final(counter) == if r {
            packet_seq
        } else {
            *old(counter)
        },
{
    if packet_seq > *counter || *counter == 0 || is_disconnect {
        *counter = packet_seq;
        true
    } else {
        false
    }
}

/// Accepts a packet on a server-side counter when its sequence number is newer than the last
/// one seen; the counter then takes the packet's number.
pub fn accept_seq(counter: &mut usize, packet_seq: usize) -> (r: bool)
    ensures
        r == server_accepts(*old(counter), packet_seq),
        *final(counter) == if r {
            packet_seq
        } else {
            *old(counter)
        },
{
    if packet_seq > *counter {
        *counter = packet_seq;
        true
    } else {
        false
    }
}

/// Accepts a frame of a file or screen stream when its sequence number is newer than the last
/// one seen or nothing was seen yet; the counter then takes the frame's number.
pub fn accept_stream_seq(counter: &mut usize, packet_seq: usize) -> (r: bool)
    ensures
        r == stream_accepts(*old(counter), packet_seq),
        *final(counter) == if r {
            packet_seq
        } else {
            *old(counter)
        },
{
    if packet_seq > *counter || *counter == 0 {
        *counter = packet_seq;
        true
    } else {
        false
    }
}

/// A replayed packet is refused: once a packet numbered `seq` (not zero) was accepted and
/// became the last number seen, the same number is refused by every check (a disconnect
/// excepted on the client), while the next number the sender stamps is accepted.
pub proof fn law_replay_refused(seq: usize)
    requires
        seq != 0,
    ensures
        !client_accepts(seq, seq, false),
        !server_accepts(seq, seq),
        !stream_accepts(seq, seq),
        seq < usize::MAX ==> client_accepts(seq, (seq + 1) as usize, false) && server_accepts(seq, (seq + 1) as usize)
            && stream_accepts(seq, (seq + 1) as usize),
{
}

/// `data` XORed with the obfuscation key repeated over its length.
pub open spec fn spec_obfuscate(data: Seq<u8>, key: Seq<u8>) -> Seq<u8> {
    Seq::new(data.len(), |i: int| data[i] ^ key[i % 32])
}

/// XORs every byte with the obfuscation key, repeated; used before keys are agreed.
pub fn obfuscate_data(data: &[u8], obfuscation_key: [u8; 32]) -> (r: Vec<u8>)
    ensures
        r@ == spec_obfuscate(data@, obfuscation_key@),
{
    let mut result: Vec<u8> = Vec::with_capacity(data.len());
    let mut i: usize = 0;
    while i < data.len()
        invariant
            i <= data@.len(),
            result@ == spec_obfuscate(data@.take(i as int), obfuscation_key@),
        decreases data@.len() - i,
    {
        result.push(data[i] ^ obfuscation_key[i % 32]);
        i = i + 1;
        assert(result@ =~= spec_obfuscate(data@.take(i as int), obfuscation_key@));
    }
    assert(data@.take(i as int) =~= data@);
    result
}

/// Obfuscating twice with the same key gives back the data.
pub proof fn law_obfuscate_involutive(data: Seq<u8>, key: Seq<u8>)
    ensures
        spec_obfuscate(spec_obfuscate(data, key), key) == data,
{
    let once = spec_obfuscate(data, key);
    let twice = spec_obfuscate(once, key);
    assert forall|i: int| 0 <= i < data.len() implies #[trigger] twice[i] == data[i] by {
        let a = data[i];
        let b = key[i % 32];
        assert((a ^ b) ^ b == a) by (bit_vector);
    }
    assert(twice =~= data);
}

/// The four big-endian bytes of `v`.
pub open spec fn u32_be_bytes(v: u32) -> Seq<u8> {
    seq![(v >> 24u32) as u8, (v >> 16u32) as u8, (v >> 8u32) as u8, v as u8]
}

/// The value of four big-endian bytes.
pub open spec fn be_u32(b: Seq<u8>) -> u32 {
    ((b[0] as u32) << 24u32) | ((b[1] as u32) << 16u32) | ((b[2] as u32) << 8u32) | (b[3] as u32)
}

/// Frames a payload for transmission: its length as a 32-bit big-endian number (truncated to
/// 32 bits), then the payload.
pub fn frame_packet(payload: Vec<u8>) -> (r: Vec<u8>)
    ensures
        r@ == u32_be_bytes(payload@.len() as u32) + payload@,
{
    let len = payload.len() as u32;
    let mut out: Vec<u8> = Vec::with_capacity(4);
    out.push((len >> 24u32) as u8);
    out.push((len >> 16u32) as u8);
    out.push((len >> 8u32) as u8);
    out.push(len as u8);
    let mut rest = payload;
    out.append(&mut rest);
    assert(out@ =~= u32_be_bytes(len) + payload@);
    out
}

/// The payload length announced by a frame's four-byte prefix.
pub fn packet_length(len_buf: [u8; 4]) -> (r: usize)
    ensures
        r == be_u32(len_buf@),
{
    let v: u32 = ((len_buf[0] as u32) << 24u32) | ((len_buf[1] as u32) << 16u32) | ((len_buf[2] as u32) << 8u32)
        | (len_buf[3] as u32);
    v as usize
}

/// The length prefix of a frame reads back as the payload's length (for payloads that fit the
/// 32-bit prefix).
pub proof fn law_length_prefix(len: u32)
    ensures
        be_u32(u32_be_bytes(len)) == len,
{
    let b = u32_be_bytes(len);
    assert(((((len >> 24u32) as u8) as u32) << 24u32) | ((((len >> 16u32) as u8) as u32) << 16u32) | ((((len
        >> 8u32) as u8) as u32) << 8u32) | (((len as u8) as u32)) == len) by (bit_vector);
}

/// The largest packet the server reads: unlimited on an auxiliary stream, or for an
/// authenticated client when spam protection is off; otherwise the configured maximum.
pub fn max_packet_size(spam_protection: bool, authenticated: bool, auxiliary: bool, configured: usize) -> (r: usize)
    ensures
        r == if (!spam_protection && authenticated) || auxiliary {
            usize::MAX
        } else {
            configured
        },
{
    if (!spam_protection && authenticated) || auxiliary {
        usize::MAX
    } else {
        configured
    }
}

/// How the server's spam checks see an incoming packet.
#[derive(Clone, Copy, PartialEq, Eq, Structural, Debug)]
pub enum PacketClass {
    /// A keep-alive: never counted.
    KeepAlive,
    /// Part of a key exchange: never counted.
    KeyExchange,
    /// A text message of `text_len` bytes.
    Message { text_len: usize },
    /// Anything else.
    Other,
}

/// The UTF-8 length of a text.
pub open spec fn utf8_len(text: Seq<char>) -> nat {
    vstd::utf8::encode_utf8(text).len()
}

/// How the server's spam checks see a packet code.
pub open spec fn spec_classify(code: &PacketCode) -> PacketClass {
    match code {
        PacketCode::KeepAlive => PacketClass::KeepAlive,
        PacketCode::KeyExchangeOffer { .. } => PacketClass::KeyExchange,
        PacketCode::KeyExchangeReply { .. } => PacketClass::KeyExchange,
        PacketCode::Message { text, .. } => PacketClass::Message { text_len: utf8_len(text@) as usize },
        _ => PacketClass::Other,
    }
}

/// Classifies a packet code for the spam checks.
pub fn classify(code: &PacketCode) -> (r: PacketClass)
    ensures
        r == spec_classify(code),
{
    match code {
        PacketCode::KeepAlive => PacketClass::KeepAlive,
        PacketCode::KeyExchangeOffer { .. } => PacketClass::KeyExchange,
        PacketCode::KeyExchangeReply { .. } => PacketClass::KeyExchange,
        PacketCode::Message { text, .. } => PacketClass::Message { text_len: text.as_str().len() },
        _ => PacketClass::Other,
    }
}

/// The server's spam settings.
#[derive(Clone, Copy)]
pub struct SpamPolicy {
    pub spam_protection: bool,
    /// The longest text message accepted, in bytes.
    pub max_message_length: usize,
    /// The shortest time allowed between two counted packets, in milliseconds.
    pub min_message_delay_ms: u64,
    /// How many violations are tolerated before a disconnect.
    pub max_violations: usize,
}

/// What the spam checks know of a connection.
#[derive(Clone, Copy)]
pub struct ConnectionState {
    pub authenticated: bool,
    pub spam_violations: usize,
    /// The last accepted sequence number.
    pub seq: usize,
    /// Time since the last counted packet, in nanoseconds.
    pub elapsed_nanos: u128,
}

/// The outcome of the spam checks.
#[derive(Clone, Copy)]
pub struct Verdict {
    /// Send the client a spam warning.
    pub spam_warning: bool,
    /// Disconnect the client.
    pub disconnect: bool,
    /// A disconnect is graceful (spam) rather than forced (a bad sequence number).
    pub grace: bool,
    /// Restart the connection's activity timer.
    pub reset_activity: bool,
    /// The connection's new violation count.
    pub spam_violations: usize,
    /// The connection's new last sequence number.
    pub seq: usize,
}

/// Whether a packet counts for spam: anything but keep-alives and key exchanges.
pub open spec fn counted(class: PacketClass) -> bool {
    !(class is KeepAlive) && !(class is KeyExchange)
}

/// Whether a packet is a text message longer than allowed.
pub open spec fn too_long(class: PacketClass, policy: SpamPolicy) -> bool {
    class matches PacketClass::Message { text_len } && text_len > policy.max_message_length
}

/// Whether a counted packet came too soon after the last one from an authenticated client
/// while spam protection is on.
pub open spec fn throttled(class: PacketClass, policy: SpamPolicy, conn: ConnectionState) -> bool {
    &&& counted(class)
    &&& !too_long(class, policy)
    &&& policy.spam_protection
    &&& conn.authenticated
    &&& conn.elapsed_nanos < policy.min_message_delay_ms as nat * 1_000_000
}

/// The server's checks on an incoming packet from a registered connection.
///
/// A counted packet restarts the activity timer; a too-long message disconnects; a packet
/// that came too soon is a violation, warned about, and one violation more than tolerated
/// disconnects. A sequence number that is not newer than the last one forces a disconnect;
/// otherwise it becomes the last one.
pub fn check_incoming(class: PacketClass, packet_seq: usize, conn: ConnectionState, policy: SpamPolicy) -> (r: Verdict)
    requires
        conn.spam_violations < usize::MAX,
    ensures
        r.reset_activity == counted(class),
        r.spam_warning == throttled(class, policy, conn),
        r.spam_violations == if throttled(class, policy, conn) {
            conn.spam_violations + 1
        } else {
            conn.spam_violations as int
        },
        r.seq == if packet_seq > conn.seq {
            packet_seq
        } else {
            conn.seq
        },
        r.grace == (packet_seq > conn.seq),
        r.disconnect == (!(packet_seq > conn.seq) || (counted(class) && too_long(class, policy)) || (throttled(
            class,
            policy,
            conn,
        ) && conn.spam_violations + 1 > policy.max_violations)),
{
    let mut spam_warning = false;
    let mut disconnect = false;
    let mut grace = true;
    let mut reset_activity = false;
    let mut violations = conn.spam_violations;
    let mut seq = conn.seq;
    let is_counted = match class {
        PacketClass::KeepAlive => false,
        PacketClass::KeyExchange => false,
        _ => true,
    };
    if is_counted {
        if let PacketClass::Message { text_len } = class {
            disconnect = text_len > policy.max_message_length;
        }
        let min_delay: u128 = (policy.min_message_delay_ms as u128) * 1_000_000u128;
        if !disconnect && policy.spam_protection && conn.authenticated && conn.elapsed_nanos < min_delay {
            violations = violations + 1;
            spam_warning = true;
            disconnect = violations > policy.max_violations;
        }
        reset_activity = true;
    }
    if packet_seq > seq {
        seq = packet_seq;
    } else {
        grace = false;
        disconnect = true;
    }
    Verdict { spam_warning, disconnect, grace, reset_activity, spam_violations: violations, seq }
}

/// How a key exchange ended on the client.
#[derive(Clone, Copy, PartialEq, Eq, Structural, Debug)]
pub enum Handshake {
    /// Keys agreed: the session can start.
    Ready,
    /// The user just pinned this key: connect again.
    Reconnect,
    /// Refused: the client is done.
    Failed,
}

} // verus!
