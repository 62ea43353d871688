use std::collections::HashMap;

use why2::chat::aec::{set_rate, skip_reference, stop, AecControl};
use why2::chat::codes::PacketCode;
use why2::chat::handshake::{max_handshakes, HandshakeBudget};
use why2::chat::network::{
    accept_client_seq, accept_seq, accept_stream_seq, check_incoming, classify, frame_packet, max_packet_size,
    obfuscate_data, packet_length, stamp_seq, ConnectionState, Packet, PacketClass, SequencedPacket, SpamPolicy,
};
use why2::chat::options::{
    get_channel, get_keys, get_obfuscation_key, get_server_username, set_channel, set_keys, set_obfuscation_key,
    set_server_username, ClientOptions,
};
use why2::chat::role::{parse_role, Role};
use why2::chat::schema::{BoxedOffer, BoxedReply, Offer, Reply};
use why2::chat::screen::{is_keyframe, split_access_units, supports, Frame, I420Frame};
use why2::chat::screen_options::{get_monitor, monitor_generation, set_monitor, ScreenOptions};
use why2::chat::server::{get_latest_id, is_inactive, password_acceptable, user_connected, username_acceptable};
use why2::chat::sfx::{advance_effects, clear_effects, is_playing, queue_effect, EffectQueue, SoundEffect};
use why2::chat::voice::{parse_opus_len, tokens_match, validate_opus_packet};
use why2::chat::voice_client::{remove_all_consumers, remove_consumer};
use why2::chat::voice_options::{
    clamp_volume, device_generation, get_input_volume, get_output_volume, mark_devices_changed, set_output_volume, set_input_volume, swap_use_voice, VoiceOptions,
};
use why2::chat::voice_server::{find_channel, find_key, reset_last_activity, ConnectionEntry};

#[test]
fn client_options_strings_and_keys() {
    let mut opts: ClientOptions<Vec<u8>> = ClientOptions::new();
    assert_eq!(get_server_username(&opts), "");
    set_server_username(&mut opts, "Server");
    assert_eq!(get_server_username(&opts), "Server");
    set_channel(&mut opts, String::from("lobby"));
    assert_eq!(get_channel(&opts), "lobby");
    assert_eq!(get_keys(&opts), None);
    set_keys(&mut opts, vec![1, 2]);
    assert_eq!(get_keys(&opts), Some(vec![1, 2]));
    assert_eq!(get_obfuscation_key(&opts), [0u8; 32]);
    set_obfuscation_key(&mut opts, &[9u8; 32]);
    assert_eq!(get_obfuscation_key(&opts), [9u8; 32]);
}

#[test]
fn voice_volumes_are_clamped() {
    assert_eq!(clamp_volume(250), 200);
    assert_eq!(clamp_volume(80), 80);
    let mut opts = VoiceOptions::new(300, 50, true, false);
    assert_eq!(get_input_volume(&opts), 200);
    set_input_volume(&mut opts, 120);
    assert_eq!(get_input_volume(&opts), 120);
    assert!(swap_use_voice(&mut opts));
    assert!(!swap_use_voice(&mut opts));
    assert_eq!(device_generation(&opts), 0);
    mark_devices_changed(&mut opts);
    assert_eq!(device_generation(&opts), 1);
    set_output_volume(&mut opts, 1000);
    assert_eq!(get_output_volume(&opts), 200);
}

#[test]
fn monitor_generation_moves_only_on_change() {
    let mut opts = ScreenOptions::new();
    set_monitor(&mut opts, None);
    assert_eq!(monitor_generation(&opts), 0);
    set_monitor(&mut opts, Some(String::from("HDMI-1")));
    assert_eq!(monitor_generation(&opts), 1);
    set_monitor(&mut opts, Some(String::from("HDMI-1")));
    assert_eq!(monitor_generation(&opts), 1);
    assert_eq!(get_monitor(&opts), Some(String::from("HDMI-1")));
    set_monitor(&mut opts, None);
    assert_eq!(monitor_generation(&opts), 2);
}

#[test]
fn opus_framing_checks() {
    assert_eq!(parse_opus_len(&[]), (0, 0));
    assert_eq!(parse_opus_len(&[10]), (10, 1));
    assert_eq!(parse_opus_len(&[252, 3]), (3 * 4 + 252, 2));
    assert_eq!(parse_opus_len(&[253]), (0, 0));
    assert!(!validate_opus_packet(&[]));
    assert!(validate_opus_packet(&[0x00]));
    assert!(validate_opus_packet(&[0x01, 1, 2]));
    assert!(!validate_opus_packet(&[0x01, 1]));
    assert!(validate_opus_packet(&[0x02, 2, 9, 9]));
    assert!(!validate_opus_packet(&[0x02, 5, 9]));
    assert!(!validate_opus_packet(&[0x02]));
    assert!(validate_opus_packet(&[0x03, 0x01]));
    assert!(!validate_opus_packet(&[0x03, 0x40]));
}

#[test]
fn tokens_compare_whole_arrays() {
    let a = [5u8; 32];
    let mut b = a;
    assert!(tokens_match(&a, &b));
    b[31] = 6;
    assert!(!tokens_match(&a, &b));
}

#[test]
fn obfuscation_xors_with_repeated_key() {
    let mut key = [0u8; 32];
    key[0] = 0xFF;
    key[1] = 0x0F;
    let data: Vec<u8> = (0..40).collect();
    let hidden = obfuscate_data(&data, key);
    assert_eq!(hidden[0], 0xFF);
    assert_eq!(hidden[1], 0x0E);
    assert_eq!(hidden[32], 32 ^ 0xFF);
    assert_eq!(obfuscate_data(&hidden, key), data);
}

#[test]
fn framing_prefixes_big_endian_length() {
    let framed = frame_packet(vec![7, 8, 9]);
    assert_eq!(framed, vec![0, 0, 0, 3, 7, 8, 9]);
    assert_eq!(packet_length([0, 0, 1, 2]), 258);
    assert_eq!(max_packet_size(true, true, false, 1000), 1000);
    assert_eq!(max_packet_size(false, true, false, 1000), usize::MAX);
    assert_eq!(max_packet_size(true, false, true, 1000), usize::MAX);
}

#[test]
fn sequence_numbers() {
    let mut packet = Packet { code: PacketCode::KeepAlive, seq: 0 };
    let mut counter = 4usize;
    stamp_seq(&mut packet, &mut counter);
    assert_eq!((counter, packet.seq()), (5, 5));
    let mut last = 5usize;
    assert!(!accept_seq(&mut last, 5));
    assert!(accept_seq(&mut last, 6));
    assert_eq!(last, 6);
    let mut client = 0usize;
    assert!(accept_client_seq(&mut client, 3, false));
    assert!(!accept_client_seq(&mut client, 2, false));
    assert!(accept_client_seq(&mut client, 1, true));
    let mut stream = 0usize;
    assert!(accept_stream_seq(&mut stream, 1));
    assert!(!accept_stream_seq(&mut stream, 1));
}

#[test]
fn spam_checks() {
    let policy = SpamPolicy { spam_protection: true, max_message_length: 5, min_message_delay_ms: 100, max_violations: 1 };
    let calm = ConnectionState { authenticated: true, spam_violations: 0, seq: 3, elapsed_nanos: 200_000_000 };
    let v = check_incoming(PacketClass::Other, 4, calm, policy);
    assert!(!v.disconnect && !v.spam_warning && v.reset_activity && v.seq == 4);
    let hasty = ConnectionState { elapsed_nanos: 1_000, ..calm };
    let v = check_incoming(PacketClass::Other, 4, hasty, policy);
    assert!(v.spam_warning && !v.disconnect && v.spam_violations == 1);
    let repeat = ConnectionState { spam_violations: 1, ..hasty };
    let v = check_incoming(PacketClass::Other, 4, repeat, policy);
    assert!(v.disconnect && v.grace);
    let v = check_incoming(PacketClass::Message { text_len: 6 }, 4, calm, policy);
    assert!(v.disconnect && v.grace && !v.spam_warning);
    let v = check_incoming(PacketClass::KeepAlive, 3, hasty, policy);
    assert!(v.disconnect && !v.grace && !v.reset_activity && !v.spam_warning);
    let text = PacketCode::Message {
        text: String::from("čau"),
        username: String::new(),
        id: 0,
        colors: why2::chat::codes::MessageColors { username_color: None, message_color: None },
    };
    assert_eq!(classify(&text), PacketClass::Message { text_len: 4 });
    assert_eq!(classify(&PacketCode::Rekey), PacketClass::Other);
}

#[test]
fn packet_code_names() {
    assert_eq!(PacketCode::KeepAlive.name(), "KeepAlive");
    assert_eq!(PacketCode::Re { message: String::new() }.name(), "Re");
    assert_eq!(PacketCode::VoiceLeave { id: 1 }.name(), "VoiceLeave");
}

#[test]
fn roles_parse_and_order() {
    assert_eq!(parse_role("  Moderator\n"), Some(Role::Moderator));
    assert_eq!(parse_role("OWNER"), Some(Role::Owner));
    assert_eq!(parse_role("admin"), None);
    assert_eq!("user".parse::<Role>(), Ok(Role::User));
    assert_eq!(Role::Owner.name(), "owner");
    assert!(Role::User < Role::Moderator && Role::Moderator < Role::Owner);
    assert_eq!(Role::default(), Role::User);
}

fn hex(text: &str) -> Vec<u8> {
    (0..text.len()).step_by(2).map(|i| u8::from_str_radix(&text[i..i + 2], 16).unwrap()).collect()
}

/// The generator of NIST P-521, SEC1 uncompressed.
fn p521_generator() -> Vec<u8> {
    let mut point = vec![4u8];
    point.extend(hex("00c6858e06b70404e9cd9e3ecb662395b4429c648139053fb521f828af606b4d3dbaa14b5e77efe75928fe1dc127a2ffa8de3348b3c1856a429bf97e7e31c2e5bd66"));
    point.extend(hex("011839296a789a3bc0045c8a5fb42c7d1bd998f54449579b446817afbd17273e662c97ee72995ef42640c550b9013fad0761353c7086a272c24088be94769fd16650"));
    point
}

/// A signature with r = s = 1.
fn small_signature() -> Vec<u8> {
    let mut sig = vec![0u8; 132];
    sig[65] = 1;
    sig[131] = 1;
    sig
}

#[test]
fn offer_and_reply_layout_round_trip() {
    let offer = Offer { static_ecc: p521_generator(), eph_ecc: p521_generator(), pq: vec![0; 1184], sig: small_signature() };
    let bytes = BoxedOffer::write(&offer);
    assert_eq!(bytes.len(), BoxedOffer::size_of());
    let (back, used) = BoxedOffer::read(&bytes).unwrap();
    assert_eq!(used, 1582);
    assert_eq!((back.static_ecc, back.eph_ecc, back.pq, back.sig), (offer.static_ecc, offer.eph_ecc, offer.pq, offer.sig));
    assert!(BoxedOffer::read(&bytes[..100]).is_none());
    let reply = Reply { eph_ecc: p521_generator(), pq: vec![6; 1088] };
    let bytes = BoxedReply::write(&reply);
    let (back, used) = BoxedReply::read(&bytes).unwrap();
    assert_eq!(used, 1221);
    assert_eq!((back.eph_ecc, back.pq), (reply.eph_ecc, reply.pq));
}

#[test]
fn offers_with_invalid_keys_are_refused() {
    let good = Offer { static_ecc: p521_generator(), eph_ecc: p521_generator(), pq: vec![0; 1184], sig: small_signature() };
    let not_a_point = Offer { static_ecc: vec![1; 133], ..clone_offer(&good) };
    assert!(BoxedOffer::read(&BoxedOffer::write(&not_a_point)).is_none());
    // coefficients of 4095 are not below the ML-KEM modulus
    let bad_key = Offer { pq: vec![0xFF; 1184], ..clone_offer(&good) };
    assert!(BoxedOffer::read(&BoxedOffer::write(&bad_key)).is_none());
    // r = s = 0 is no signature
    let bad_sig = Offer { sig: vec![0; 132], ..clone_offer(&good) };
    assert!(BoxedOffer::read(&BoxedOffer::write(&bad_sig)).is_none());
    let bad_reply = Reply { eph_ecc: vec![4; 133], pq: vec![0; 1088] };
    assert!(BoxedReply::read(&BoxedReply::write(&bad_reply)).is_none());
}

fn clone_offer(o: &Offer) -> Offer {
    Offer { static_ecc: o.static_ecc.clone(), eph_ecc: o.eph_ecc.clone(), pq: o.pq.clone(), sig: o.sig.clone() }
}

#[test]
fn access_units_split_at_sps() {
    let stream = vec![9, 0, 0, 0, 1, 0x67, 1, 2, 0, 0, 1, 0x65, 3, 0, 0, 0, 1, 0x67, 4];
    let units = split_access_units(&stream);
    assert_eq!(units, vec![vec![0, 0, 0, 1, 0x67, 1, 2, 0, 0, 1, 0x65, 3], vec![0, 0, 0, 1, 0x67, 4]]);
    assert!(split_access_units(&[0, 0, 1, 0x41, 5]).is_empty());
    assert!(is_keyframe(&[0, 0, 1, 0x65, 0]));
    assert!(!is_keyframe(&[0, 0, 1, 0x41, 0]));
    assert!(is_keyframe(&[0, 0, 1, 0x65]));
    assert!(!is_keyframe(&[0, 0, 1]));
}

#[test]
fn frame_bytes_follow_native_order() {
    let frame = Frame { width: 2, height: 1, data: vec![0x0102_0304, 0xAABB_CCDD] };
    let bytes = frame.as_bytes();
    let mut expected = 0x0102_0304u32.to_ne_bytes().to_vec();
    expected.extend_from_slice(&0xAABB_CCDDu32.to_ne_bytes());
    assert_eq!(bytes, expected);
    let back = Frame::from_bytes(2, 1, &[9, 8, 7, 6, 5, 4, 3, 2, 1]);
    assert_eq!(back.data, vec![u32::from_ne_bytes([9, 8, 7, 6]), u32::from_ne_bytes([5, 4, 3, 2])]);
    assert_eq!(back.as_bytes(), vec![9, 8, 7, 6, 5, 4, 3, 2]);
}

#[test]
fn frames_and_i420_planes() {
    let frame = Frame { width: 2, height: 1, data: vec![0x0102_0304, 0xAABB_CCDD] };
    let bytes = frame.as_bytes();
    assert_eq!(bytes.len(), 8);
    let back = Frame::from_bytes(2, 1, &bytes);
    assert_eq!(back.data, frame.data);
    assert_eq!(Frame::from_bytes(1, 1, &[1, 2, 3, 4, 5]).data.len(), 1);
    assert!(supports(8, 2));
    assert!(!supports(6, 2));
    let i420 = I420Frame::new(8, 2);
    assert_eq!(i420.dimensions(), (8, 2));
    assert_eq!(i420.strides(), (8, 4, 4));
    assert_eq!((i420.y().len(), i420.u().len(), i420.v().len()), (16, 4, 4));
}

#[test]
fn effects_queue_and_play() {
    let mut q = EffectQueue::new();
    assert!(!is_playing(&q));
    queue_effect(&mut q, SoundEffect::Join);
    queue_effect(&mut q, SoundEffect::Leave);
    assert!(is_playing(&q));
    let first = advance_effects(&mut q, 1, 2);
    assert_eq!(first.len(), 2);
    let second = advance_effects(&mut q, 1, 2);
    assert_eq!(second.len(), 1);
    assert_eq!(second[0].effect, SoundEffect::Leave);
    assert_eq!(second[0].position, 1);
    clear_effects(&mut q);
    assert!(!is_playing(&q));
}

#[test]
fn consumers_and_aec() {
    let mut consumers: HashMap<usize, &str> = HashMap::new();
    consumers.insert(3, "a");
    let mut effects = EffectQueue::new();
    remove_consumer(&mut consumers, &mut effects, &4);
    assert!(effects.effects.is_empty());
    remove_consumer(&mut consumers, &mut effects, &3);
    assert_eq!(effects.effects[0].effect, SoundEffect::Leave);
    remove_all_consumers(&mut consumers, &mut effects);
    assert_eq!(effects.effects[1].effect, SoundEffect::Join);
    let mut ctl = AecControl { active: false, skipped: 0, rate: 0, desync: false, reference_attached: true };
    skip_reference(&mut ctl, 5);
    assert_eq!(ctl.skipped, 0);
    ctl.active = true;
    skip_reference(&mut ctl, 5);
    assert_eq!(ctl.skipped, 5);
    set_rate(&mut ctl, 48000);
    assert!(ctl.desync && ctl.rate == 48000);
    stop(&mut ctl);
    assert!(!ctl.active && !ctl.reference_attached);
}

#[test]
fn voice_server_lookups() {
    let mut conns = vec![
        ConnectionEntry { id: None, keys: None, channel: None, last_activity: 0u64 },
        ConnectionEntry { id: Some(4), keys: Some(44u8), channel: Some(String::from("x")), last_activity: 10 },
    ];
    assert_eq!(find_key(&conns, &4), Some(44));
    assert_eq!(find_key(&conns, &5), None);
    assert_eq!(find_channel(&conns, &4), Some(Some(String::from("x"))));
    reset_last_activity(&mut conns, &4, 3);
    assert_eq!(conns[1].last_activity, 3);
    assert_eq!(conns[0].last_activity, 0);
}

#[test]
fn server_admission_rules() {
    assert!(username_acceptable("alice_1", 3, 10, false, "server"));
    assert!(!username_acceptable("al", 3, 10, false, "server"));
    assert!(!username_acceptable("bad name", 3, 10, false, "server"));
    assert!(!username_acceptable("server", 3, 10, false, "server"));
    assert!(!username_acceptable("alice", 3, 10, true, "server"));
    assert_eq!(get_latest_id(&[0, 1, 3]), 2);
    assert_eq!(get_latest_id(&[]), 0);
    assert!(user_connected(&vec![String::from("a"), String::from("b")], "b"));
    assert!(!user_connected(&vec![String::from("a")], "c"));
    assert!(is_inactive(true, 2_000_000_001, 0, 2, 1));
    assert!(!is_inactive(false, 0, 999, 2, 1));
    assert!(password_acceptable("hunter22", 8));
    assert!(!password_acceptable("short", 8));
}

#[test]
fn handshake_budget_limits_total_and_per_peer() {
    assert_eq!(max_handshakes(10, 5, 4), 60);
    let mut budget = HandshakeBudget::new();
    assert!(budget.reserve(7, 3, 2));
    assert!(budget.reserve(7, 3, 2));
    // the peer already holds its two slots
    assert!(!budget.reserve(7, 3, 2));
    assert_eq!(budget.total, 2);
    assert_eq!(budget.per_ip.get(&7), Some(&2));
    assert!(budget.reserve(9, 3, 2));
    // the whole budget is spent
    assert!(!budget.reserve(11, 3, 2));
    assert_eq!(budget.total, 3);
    assert_eq!(budget.per_ip.get(&11), None);
}

#[test]
fn handshake_release_undoes_reserve() {
    let mut budget = HandshakeBudget::new();
    assert!(budget.reserve(1, 8, 4));
    assert!(budget.reserve(1, 8, 4));
    budget.release(1);
    assert_eq!(budget.total, 1);
    assert_eq!(budget.per_ip.get(&1), Some(&1));
    budget.release(1);
    assert_eq!(budget.total, 0);
    assert!(budget.per_ip.get(&1).is_none());
    // releasing an unknown peer only moves the (wrapping) total
    budget.release(5);
    assert_eq!(budget.total, usize::MAX);
    assert!(budget.per_ip.is_empty());
}
