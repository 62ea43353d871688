use std::str::FromStr;
use why2::chat::client_flow::{client_step, ClientAction, ClientSession, ServerPacket};
use why2::chat::dispatch::{rekey_due, server_step, ClientRequest, ClientState, ServerAction, ServerRules};
use why2::chat::role::Role;
use std::collections::{HashMap, HashSet};

use why2::chat::animation::{collect_frames, frame_delays, AnimationLimits, DecodedFrame, FrameInfo};
use why2::chat::compress::{compress_zstd, decompress_zstd, full_frame, is_full_frame, pack_zstd_frame};
use why2::chat::screen::{DecompressedFrame, Frame};
use why2::chat::channels::{channel_events, count_members, valid_channel, voice_clients, ChatConnection};
use why2::chat::login::{auth_start, auth_step, AuthAction, AuthEvent, AuthPolicy, AuthStage, AuthState, PromptMemory};
use why2::chat::selection::{parse_selection, parse_usize, select_monitor, target_monitor};
use why2::chat::share::{delivered, muted_action, muted_frame, offer, still_attached, MutedAction, SharePacket, ViewerState};
use why2::chat::sfx::{EffectQueue, SoundEffect};
use why2::chat::sweep::{deattach, keepalive_round};
use why2::chat::upload::{admit_upload, advance_upload, UploadDigest, UploadLimits, UploadProgress, UploadVerdict};
use why2::chat::voice_server::{admit_voice_packet, relay_to, ConnectionEntry, PeerAddr, VoiceAdmit, VoiceBinding};
use why2::chat::voice_client::{add_consumer, is_usable, order_speakers, VoiceUser};

fn some(s: &str) -> Option<String> {
    Some(s.to_string())
}

#[test]
fn channel_members_are_counted() {
    let chans = vec![some("a"), None, some("b"), some("a")];
    assert_eq!(count_members(&chans, &"a".to_string()), 2);
    assert_eq!(count_members(&chans, &"b".to_string()), 1);
    assert_eq!(count_members(&chans, &"c".to_string()), 0);
}

#[test]
fn moving_between_channels_announces_creation_and_destruction() {
    // the mover left "old" empty and is alone in "new"
    let after = vec![some("new"), some("other")];
    let ev = channel_events(&some("old"), &some("new"), &after);
    assert_eq!(ev.destroyed, some("old"));
    assert_eq!(ev.created, some("new"));

    // somebody stays behind, somebody was already there
    let after = vec![some("new"), some("old"), some("new")];
    let ev = channel_events(&some("old"), &some("new"), &after);
    assert_eq!(ev.destroyed, None);
    assert_eq!(ev.created, None);

    // staying in the same channel announces nothing
    let after = vec![some("same")];
    let ev = channel_events(&some("same"), &some("same"), &after);
    assert_eq!(ev.destroyed, None);
    assert_eq!(ev.created, None);

    // leaving every channel
    let ev = channel_events(&some("old"), &None, &vec![None]);
    assert_eq!(ev.destroyed, some("old"));
    assert_eq!(ev.created, None);
}

#[test]
fn voice_peers_share_the_senders_channel() {
    let rows = vec![
        ChatConnection { id: Some(0), username: some("me"), channel: some("lobby") },
        ChatConnection { id: Some(1), username: some("ann"), channel: some("lobby") },
        ChatConnection { id: Some(2), username: some("bob"), channel: some("other") },
        ChatConnection { id: Some(3), username: some("cid"), channel: some("lobby") },
        ChatConnection { id: None, username: None, channel: some("lobby") },
    ];
    let mut in_voice = HashSet::new();
    in_voice.insert(0);
    in_voice.insert(1);
    in_voice.insert(2);
    let peers = voice_clients(&rows, 0, &in_voice).unwrap();
    assert_eq!(peers, vec![(1, "ann".to_string())]);
    assert!(voice_clients(&rows, 9, &in_voice).is_none());
}

#[test]
fn numbers_parse_like_std() {
    for text in ["0", "7", "+7", "007", "18446744073709551615", "", "+", "-1", " 1", "1a", "18446744073709551616"] {
        assert_eq!(parse_usize(text), text.parse::<usize>().ok(), "{text}");
    }
}

#[test]
fn monitors_are_picked_by_number_or_name() {
    let names = vec!["HDMI-1".to_string(), "eDP-1".to_string(), "3".to_string()];
    assert_eq!(select_monitor(&names, "2"), Some(1));
    assert_eq!(select_monitor(&names, "edp-1"), Some(1));
    // a number out of range is tried as a name
    assert_eq!(select_monitor(&names, "3"), Some(2));
    assert_eq!(select_monitor(&names, "4"), None);
    assert_eq!(select_monitor(&names, "0"), None);
    assert_eq!(select_monitor(&names, "DP-2"), None);
}

#[test]
fn target_monitor_defaults_to_primary() {
    let names = vec!["a".to_string(), "b".to_string(), "c".to_string()];
    assert_eq!(target_monitor(&names, &vec![false, true, true], &None), Some(Ok(1)));
    assert_eq!(target_monitor(&names, &vec![false, false, false], &None), Some(Ok(0)));
    assert_eq!(target_monitor(&names, &vec![false, true, false], &some("C")), Some(Ok(2)));
    assert_eq!(target_monitor(&names, &vec![false, true, false], &some("z")), Some(Err(())));
    assert_eq!(target_monitor(&Vec::new(), &Vec::new(), &None), None);
}

#[test]
fn device_prompt_answers() {
    assert_eq!(parse_selection(" 2\n", 3), Some(1));
    assert_eq!(parse_selection("3", 3), Some(2));
    assert_eq!(parse_selection("4", 3), None);
    assert_eq!(parse_selection("0", 3), None);
    assert_eq!(parse_selection("two", 3), None);
    assert_eq!(parse_selection("", 3), None);
}

#[test]
fn alsa_devices_are_filtered() {
    assert!(is_usable("wasapi:speakers", true));
    assert!(is_usable("alsa:default", false));
    assert!(is_usable("alsa:pipewire", true));
    assert!(!is_usable("alsa:null", true));
    assert!(is_usable("alsa:plughw:CARD=PCH,DEV=0", true));
    assert!(!is_usable("alsa:plughw:CARD=PCH,DEV=0", false));
    assert!(!is_usable("alsa:hw:CARD=PCH,DEV=0", true));
    assert!(!is_usable("alsa:surround51:CARD=PCH,DEV=0", true));
}

fn user(id: usize, name: &str, local: bool) -> VoiceUser {
    VoiceUser { id, username: name.to_string(), is_speaking: false, latency: 0, is_local: local }
}

#[test]
fn roster_puts_local_user_first_then_ids() {
    let roster = order_speakers(user(0, "me", true), vec![user(9, "z", false), user(2, "b", false), user(5, "e", false)]);
    let ids: Vec<usize> = roster.iter().map(|u| u.id).collect();
    assert_eq!(ids, vec![0, 2, 5, 9]);
    assert!(roster[0].is_local);
    assert_eq!(roster[1].username, "b");
}

#[test]
fn adding_a_speaker_plays_the_join_sound() {
    let mut consumers: HashMap<usize, u8> = HashMap::new();
    let mut effects = EffectQueue::new();
    add_consumer(&mut consumers, &mut effects, 4, 7);
    assert_eq!(consumers.get(&4), Some(&7));
    assert_eq!(effects.effects.len(), 1);
    assert!(matches!(effects.effects[0].effect, SoundEffect::Join));
}

fn frame(w: u32, h: u32, numer: u32, denom: u32) -> Option<FrameInfo> {
    Some(FrameInfo { width: w, height: h, delay_numer: numer, delay_denom: denom })
}

#[test]
fn animation_frames_stay_within_budgets() {
    let lim = AnimationLimits { max_frames: 3, max_alloc: 1000, default_delay: 100_000, min_delay: 20_000 };
    // delays: 50 ms; no delay given; 10 ms is too short
    let frames = vec![frame(10, 10, 50, 1), frame(10, 10, 0, 0), frame(5, 5, 10, 1), frame(1, 1, 50, 1)];
    assert_eq!(frame_delays(&frames, lim), Some(vec![50_000, 100_000, 100_000]));

    // a frame past the byte budget ends the animation, but the first is always kept
    let frames = vec![frame(20, 20, 30, 1), frame(1, 1, 30, 1)];
    assert_eq!(frame_delays(&frames, lim), Some(vec![30_000]));
    let frames = vec![frame(10, 10, 30, 1), frame(20, 20, 30, 1)];
    assert_eq!(frame_delays(&frames, lim), Some(vec![30_000]));

    // a frame the decoder failed on ends it too; with no frame there is no animation
    let frames = vec![frame(1, 1, 100, 3), None, frame(1, 1, 30, 1)];
    assert_eq!(frame_delays(&frames, lim), Some(vec![33_333]));
    assert_eq!(frame_delays(&vec![None], lim), None);
    assert_eq!(frame_delays(&Vec::new(), lim), None);
}

#[test]
fn keepalive_rounds_find_the_silent() {
    let mut alive = vec![true, false, true];
    let round = keepalive_round(&mut alive);
    assert_eq!(round.dead, vec![1]);
    assert_eq!(round.pinged, vec![0, 2]);
    assert_eq!(alive, vec![false, false, false]);
    // nobody answered: the next round finds everyone dead
    let round = keepalive_round(&mut alive);
    assert_eq!(round.dead, vec![0, 1, 2]);
    assert!(round.pinged.is_empty());
}

#[test]
fn deattach_releases_only_the_sharers_watchers() {
    let mut attached = vec![Some(3), None, Some(4), Some(3)];
    let notified = deattach(&mut attached, 3);
    assert_eq!(notified, vec![0, 3]);
    assert_eq!(attached, vec![None, None, Some(4), None]);
}

#[test]
fn registration_flow() {
    let policy = AuthPolicy { max_tries: 2, registration_disabled: false };
    let (s, a) = auth_start(policy);
    assert_eq!(a, AuthAction::AskUsername);
    let (s, a) = auth_step(s, AuthEvent::UsernameReply { present: true, acceptable: false, registered: false }, policy);
    assert_eq!(a, AuthAction::AskUsername);
    let (s, a) = auth_step(s, AuthEvent::UsernameReply { present: true, acceptable: true, registered: false }, policy);
    assert_eq!(a, AuthAction::AskRegisterPassword);
    let (s, a) = auth_step(s, AuthEvent::RegisterReply { present: true, long_enough: false }, policy);
    assert_eq!(a, AuthAction::AskRegisterPassword);
    let (s, a) = auth_step(s, AuthEvent::RegisterReply { present: true, long_enough: true }, policy);
    assert_eq!((s, a), (AuthState::Accepted, AuthAction::SaveUser));
    let (s, a) = auth_step(s, AuthEvent::Unexpected, policy);
    assert_eq!((s, a), (AuthState::Accepted, AuthAction::Ignore));
}

#[test]
fn login_flow_and_refusals() {
    let policy = AuthPolicy { max_tries: 1, registration_disabled: true };
    let (s, _) = auth_start(policy);
    // registration disabled: an unknown user must log in
    let (s, a) = auth_step(s, AuthEvent::UsernameReply { present: true, acceptable: true, registered: false }, policy);
    assert_eq!((s, a), (AuthState::Login, AuthAction::AskLoginPassword));
    let (s2, a) = auth_step(s, AuthEvent::LoginReply { present: true }, policy);
    assert_eq!(a, AuthAction::CheckLogin);
    let (_, a) = auth_step(s2, AuthEvent::LoginChecked { valid: false }, policy);
    assert_eq!(a, AuthAction::Disconnect { graceful: true, stage: AuthStage::Login });
    let (_, a) = auth_step(s2, AuthEvent::LoginChecked { valid: true }, policy);
    assert_eq!(a, AuthAction::Accept);
    let (_, a) = auth_step(s, AuthEvent::LoginReply { present: false }, policy);
    assert_eq!(a, AuthAction::Disconnect { graceful: false, stage: AuthStage::Login });

    // out of username tries, or no try at all
    let (s, _) = auth_start(policy);
    let (_, a) = auth_step(s, AuthEvent::UsernameReply { present: false, acceptable: false, registered: false }, policy);
    assert_eq!(a, AuthAction::Disconnect { graceful: true, stage: AuthStage::Username });
    let (_, a) = auth_step(s, AuthEvent::Unexpected, policy);
    assert_eq!(a, AuthAction::Disconnect { graceful: false, stage: AuthStage::Username });
    let none = AuthPolicy { max_tries: 0, registration_disabled: false };
    assert_eq!(auth_start(none), (AuthState::Closed, AuthAction::Disconnect { graceful: true, stage: AuthStage::Username }));
}

#[test]
fn channel_names_are_checked() {
    assert!(valid_channel(&None, 4));
    assert!(valid_channel(&some("ab12"), 4));
    assert!(!valid_channel(&some("ab123"), 4));
    assert!(!valid_channel(&some(""), 4));
    assert!(!valid_channel(&some("a b"), 4));
    assert!(!valid_channel(&some("a-b"), 4));
    assert!(!valid_channel(&some("é"), 4));
}

#[test]
fn repeated_asks_mean_refusal() {
    let mut memory = PromptMemory::new();
    assert!(!memory.username_ask());
    assert!(memory.username_ask());
    assert!(!memory.password_ask());
    assert!(memory.password_ask());
}

#[test]
fn zstd_frames_round_trip() {
    let frame = Frame { width: 2, height: 2, data: vec![0x00FF_0000, 0x0000_FF00, 0x0000_00FF, 0x0012_3456] };
    let compressed = compress_zstd(&frame, 3).unwrap();
    assert_eq!(compressed.compressed_data[0], 0);
    assert_eq!(compressed.pixel_count, 4);
    assert!(!is_full_frame(&compressed));
    match decompress_zstd(&compressed) {
        Some(DecompressedFrame::ZstdDiff(back)) => {
            assert_eq!((back.width, back.height), (2, 2));
            assert_eq!(back.data, frame.data);
        }
        _ => panic!("difference frame expected"),
    }
}

#[test]
fn jpeg_pixels_become_opaque_argb() {
    let rgba = [0x12, 0x34, 0x56, 0x00, 0xFF, 0x00, 0x80, 0x7F, 0x01];
    match full_frame(2, 1, &rgba) {
        DecompressedFrame::JpegFull(f) => {
            assert_eq!((f.width, f.height), (2, 1));
            assert_eq!(f.data, vec![0xFF12_3456, 0xFFFF_0080]);
        }
        _ => panic!("full frame expected"),
    }
}

#[test]
fn uploads_are_admitted_by_their_limits() {
    let limits = UploadLimits { max_parallel: 2, max_image_size: 100, max_upload_units: 3, unit: 1000 };
    assert_eq!(admit_upload(2, false, 10, limits), UploadVerdict::TooManyParallel);
    assert_eq!(admit_upload(1, true, 101, limits), UploadVerdict::ImageTooLarge);
    assert_eq!(admit_upload(1, true, 100, limits), UploadVerdict::Accepted);
    // whole units: 3999 bytes are 3 units, 4000 are 4
    assert_eq!(admit_upload(0, false, 3999, limits), UploadVerdict::Accepted);
    assert_eq!(admit_upload(0, false, 4000, limits), UploadVerdict::TooLarge);
}

#[test]
fn uploads_advance_chunk_by_chunk() {
    assert_eq!(advance_upload(0, 10, 4), UploadProgress::Partial(4));
    assert_eq!(advance_upload(4, 10, 6), UploadProgress::Complete);
    assert_eq!(advance_upload(4, 10, 7), UploadProgress::Overrun);
}

#[test]
fn animation_keeps_pictures_with_their_delays() {
    let lim = AnimationLimits { max_frames: 8, max_alloc: 100, default_delay: 100_000, min_delay: 20_000 };
    let info = |w: u32, ms: u32| FrameInfo { width: w, height: 1, delay_numer: ms, delay_denom: 1 };
    let frames = vec![
        Some(DecodedFrame { image: "first", info: info(5, 40) }),
        Some(DecodedFrame { image: "second", info: info(5, 0) }),
        Some(DecodedFrame { image: "third", info: info(50, 40) }),
    ];
    let animation = collect_frames(frames, lim).unwrap();
    let shown: Vec<(&str, u64)> = animation.iter().map(|f| (f.image, f.delay)).collect();
    assert_eq!(shown, vec![("first", 40_000), ("second", 100_000)]);
    let none: Vec<Option<DecodedFrame<&str>>> = vec![None];
    assert!(collect_frames(none, lim).is_none());
}

#[test]
fn muted_sharers_send_placeholders() {
    assert_eq!(muted_frame(250, 100, 4), Some(2));
    assert_eq!(muted_frame(950, 100, 4), Some(1));
    assert_eq!(muted_frame(5, 100, 0), None);

    let mut last = None;
    assert_eq!(muted_action(true, false, Some(1), &mut last), MutedAction::Placeholder(1));
    assert_eq!(last, Some(1));
    // the same frame again is not resent
    assert_eq!(muted_action(true, false, Some(1), &mut last), MutedAction::Drop);
    assert_eq!(muted_action(true, true, Some(2), &mut last), MutedAction::Drop);
    assert_eq!(muted_action(true, false, Some(2), &mut last), MutedAction::Placeholder(2));
    assert_eq!(muted_action(false, false, Some(2), &mut last), MutedAction::Forward);
    assert_eq!(last, None);
}

#[test]
fn viewers_wait_for_a_keyframe() {
    let mut viewer = ViewerState::new();
    assert!(!offer(&mut viewer, SharePacket::Video { keyframe: false }, false));
    assert!(offer(&mut viewer, SharePacket::Audio, false));
    assert!(viewer.needs_key);
    assert!(offer(&mut viewer, SharePacket::Video { keyframe: true }, false));
    assert!(!viewer.needs_key);
    assert!(offer(&mut viewer, SharePacket::Video { keyframe: false }, false));
    // the queue was full: the viewer waits again
    delivered(&mut viewer, SharePacket::Video { keyframe: false }, false);
    assert!(viewer.needs_key);
    assert!(!offer(&mut viewer, SharePacket::Video { keyframe: false }, false));
    // the sharer never hears its own audio
    assert!(!offer(&mut viewer, SharePacket::Audio, true));
}

#[test]
fn viewers_are_kept_by_client_and_token() {
    let entries = vec![(1usize, [1u8; 32]), (2usize, [2u8; 32])];
    assert!(still_attached(&entries, 1, &[1u8; 32]));
    assert!(!still_attached(&entries, 1, &[2u8; 32]));
    assert!(!still_attached(&entries, 3, &[1u8; 32]));
}

#[test]
fn voice_slots_bind_on_hello_and_resist_spoofing() {
    let home = PeerAddr { ip: 10, port: 4000 };
    let mut slot: Option<VoiceBinding> = None;
    // nothing binds a slot but a valid hello
    assert_eq!(admit_voice_packet(&mut slot, 7, home, false, 1, 3), VoiceAdmit::Ignore);
    assert!(slot.is_none());
    assert_eq!(admit_voice_packet(&mut slot, 7, home, true, 1, 3), VoiceAdmit::Accept { mark_active: false });
    assert_eq!(slot.unwrap().addr, home);
    // a replayed sequence number is dropped
    assert_eq!(admit_voice_packet(&mut slot, 7, home, false, 1, 3), VoiceAdmit::Ignore);
    assert_eq!(admit_voice_packet(&mut slot, 7, home, false, 2, 3), VoiceAdmit::Accept { mark_active: false });
    assert_eq!(admit_voice_packet(&mut slot, 7, home, false, 3, 3), VoiceAdmit::Accept { mark_active: false });
    // the third packet taken marks the connection active
    assert_eq!(admit_voice_packet(&mut slot, 7, home, false, 4, 3), VoiceAdmit::Accept { mark_active: true });
    // a stranger on another IP is ignored; a new port on the same IP is followed
    let stranger = PeerAddr { ip: 11, port: 4000 };
    assert_eq!(admit_voice_packet(&mut slot, 7, stranger, false, 9, 3), VoiceAdmit::Ignore);
    assert_eq!(slot.unwrap().addr, home);
    let rebound = PeerAddr { ip: 10, port: 5000 };
    assert_eq!(admit_voice_packet(&mut slot, 7, rebound, false, 10, 3), VoiceAdmit::Accept { mark_active: false });
    assert_eq!(slot.unwrap().addr, rebound);
    assert_eq!(slot.unwrap().seq, 10);
}

#[test]
fn voice_is_relayed_within_the_channel() {
    let conn = |id: usize, channel: Option<String>| ConnectionEntry { id: Some(id), keys: Some(0u8), channel, last_activity: 0u64 };
    let conns = vec![conn(1, some("a")), conn(2, some("a")), conn(3, some("b")), conn(4, None)];
    let at = |port: u16| PeerAddr { ip: 1, port };
    let bind = |id: usize, port: u16| VoiceBinding { addr: at(port), id, seq: 0, server_seq: 0, packets: 0 };
    let slots = vec![bind(1, 1), bind(2, 2), bind(3, 3), bind(4, 4), bind(9, 9)];
    assert_eq!(relay_to(&slots, at(1), 1, &conns), vec![(at(2), 2)]);
    assert_eq!(relay_to(&slots, at(3), 3, &conns), Vec::<(PeerAddr, usize)>::new());
    // a slot whose client has no text connection has no keys, so nothing is relayed to it
    assert_eq!(relay_to(&slots, at(8), 8, &conns), Vec::<(PeerAddr, usize)>::new());
    assert_eq!(relay_to(&slots, at(4), 4, &conns), Vec::<(PeerAddr, usize)>::new());
}

#[test]
fn username_is_asked_at_most_max_tries_times() {
    let policy = AuthPolicy { max_tries: 3, registration_disabled: false };
    let (mut state, action) = auth_start(policy);
    let mut asks = usize::from(action == AuthAction::AskUsername);
    loop {
        let bad = AuthEvent::UsernameReply { present: true, acceptable: false, registered: false };
        let (next, action) = auth_step(state, bad, policy);
        state = next;
        match action {
            AuthAction::AskUsername => asks += 1,
            other => {
                assert_eq!(other, AuthAction::Disconnect { graceful: true, stage: AuthStage::Username });
                break;
            }
        }
    }
    assert_eq!(asks, 3);
    assert_eq!(state, AuthState::Closed);
}

#[test]
fn packed_frames_carry_the_difference_tag() {
    let frame = Frame { width: 1, height: 2, data: vec![1, 2] };
    let c = pack_zstd_frame(&frame, Some(vec![7, 8, 9])).unwrap();
    assert_eq!(c.compressed_data, vec![0, 7, 8, 9]);
    assert_eq!((c.width, c.height, c.pixel_count), (1, 2, 2));
    assert!(pack_zstd_frame(&frame, None).is_none());
}

#[test]
fn roles_parse_from_text() {
    assert_eq!(Role::from_str(" Owner\n"), Ok(Role::Owner));
    assert_eq!(Role::from_str("admin"), Err(()));
}

fn hello_world_digest() -> [u8; 32] {
    [
        0xb9, 0x4d, 0x27, 0xb9, 0x93, 0x4d, 0x3e, 0x08, 0xa5, 0x2e, 0x52, 0xd7, 0xda, 0x7d, 0xab, 0xfa, 0xc4, 0x84, 0xef,
        0xe3, 0x7a, 0x53, 0x80, 0xee, 0x90, 0x88, 0xf7, 0xac, 0xe2, 0xef, 0xcd, 0xe9,
    ]
}

#[test]
fn upload_digest_checks_the_whole_upload() {
    let mut check = UploadDigest::new(hello_world_digest(), 11);
    assert_eq!(check.accept(b"hello "), UploadProgress::Partial(6));
    assert!(!check.intact());
    assert_eq!(check.accept(b"world"), UploadProgress::Complete);
    assert!(check.intact());
}

#[test]
fn upload_digest_rejects_other_bytes_and_overruns() {
    let mut check = UploadDigest::new(hello_world_digest(), 11);
    assert_eq!(check.accept(b"hello"), UploadProgress::Partial(5));
    assert_eq!(check.accept(b" world!"), UploadProgress::Overrun);
    assert_eq!(check.accept(b" World"), UploadProgress::Complete);
    assert!(!check.intact());
    let mut other = UploadDigest::new([0u8; 32], 11);
    assert_eq!(other.accept(b"hello world"), UploadProgress::Complete);
    assert!(!other.intact());
}

fn dispatch_rules() -> ServerRules {
    ServerRules {
        voice_enabled: true,
        screenshare_enabled: false,
        max_parallel_uploads: 2,
        max_channel_length: 8,
        settings_role: Role::Owner,
    }
}

fn dispatch_state() -> ClientState {
    ClientState {
        id: 3,
        role: Role::User,
        channel: None,
        in_voice: false,
        sharing_screen: false,
        attached_to: None,
        active_uploads: 2,
    }
}

#[test]
fn server_step_joins_and_leaves_voice() {
    let (state, actions) = server_step(dispatch_state(), ClientRequest::Voice, dispatch_rules());
    assert_eq!(actions, vec![ServerAction::OpenVoice, ServerAction::AnnounceVoiceJoin, ServerAction::SendVoiceClients]);
    assert!(state.in_voice);
    let (state, actions) = server_step(state, ClientRequest::Voice, dispatch_rules());
    assert_eq!(actions, vec![ServerAction::ReplyVoiceLeft, ServerAction::AnnounceVoiceLeave, ServerAction::CloseVoice]);
    assert!(!state.in_voice);
    let mut off = dispatch_rules();
    off.voice_enabled = false;
    let (state, actions) = server_step(state, ClientRequest::Voice, off);
    assert_eq!(actions, vec![ServerAction::InvalidFeature]);
    assert!(!state.in_voice);
}

#[test]
fn server_step_switches_only_to_valid_channels() {
    let mut start = dispatch_state();
    start.in_voice = true;
    let (state, actions) = server_step(start, ClientRequest::Channel { channel: Some("lobby2".to_string()) }, dispatch_rules());
    assert_eq!(
        actions,
        vec![
            ServerAction::AnnounceVoiceLeave,
            ServerAction::SwitchChannel,
            ServerAction::AnnounceVoiceJoin,
            ServerAction::SendVoiceClients
        ]
    );
    assert_eq!(state.channel, Some("lobby2".to_string()));
    let (state, actions) = server_step(state, ClientRequest::Channel { channel: Some("no way".to_string()) }, dispatch_rules());
    assert_eq!(actions, vec![ServerAction::InvalidUsage]);
    assert_eq!(state.channel, Some("lobby2".to_string()));
}

#[test]
fn server_step_limits_uploads_screens_and_settings() {
    let (_, actions) = server_step(dispatch_state(), ClientRequest::Upload, dispatch_rules());
    assert_eq!(actions, vec![ServerAction::UploadLimit]);
    let (_, actions) = server_step(dispatch_state(), ClientRequest::Screen, dispatch_rules());
    assert_eq!(actions, vec![ServerAction::InvalidFeature]);
    let mut sharing = dispatch_state();
    sharing.sharing_screen = true;
    let (state, actions) = server_step(sharing, ClientRequest::Screen, dispatch_rules());
    assert_eq!(actions, vec![ServerAction::StopScreen]);
    assert!(!state.sharing_screen);
    let (_, actions) =
        server_step(dispatch_state(), ClientRequest::ServerSettings { save: true, has_rows: true }, dispatch_rules());
    assert_eq!(actions, vec![ServerAction::InvalidUsage]);
    let mut owner = dispatch_state();
    owner.role = Role::Owner;
    let (_, actions) = server_step(owner, ClientRequest::ServerSettings { save: true, has_rows: true }, dispatch_rules());
    assert_eq!(actions, vec![ServerAction::SaveSettings, ServerAction::SendSettings]);
}

#[test]
fn server_step_routes_private_messages_and_detaches() {
    let (_, actions) =
        server_step(dispatch_state(), ClientRequest::PrivateMessage { recipient: 9, found: true }, dispatch_rules());
    assert_eq!(actions, vec![ServerAction::ForwardPrivate { recipient: 9 }, ServerAction::ConfirmPrivate { recipient: 9 }]);
    let (_, actions) =
        server_step(dispatch_state(), ClientRequest::PrivateMessage { recipient: 3, found: true }, dispatch_rules());
    assert_eq!(actions, vec![ServerAction::ConfirmPrivate { recipient: 3 }]);
    let (_, actions) =
        server_step(dispatch_state(), ClientRequest::PrivateMessage { recipient: 9, found: false }, dispatch_rules());
    assert_eq!(actions, vec![ServerAction::InvalidUsage]);
    let mut watching = dispatch_state();
    watching.attached_to = Some(7);
    let (state, actions) = server_step(watching, ClientRequest::Deattach, dispatch_rules());
    assert_eq!(actions, vec![ServerAction::Deattach { sharer: 7 }]);
    assert_eq!(state.attached_to, None);
    assert!(rekey_due(600, 600, false));
    assert!(!rekey_due(600, 600, true));
    assert!(!rekey_due(599, 600, false));
}

fn fresh_session() -> ClientSession {
    ClientSession {
        prompts: PromptMemory::new(),
        registration_disabled: false,
        min_pass: None,
        max_uname: None,
        min_uname: None,
        first_join: true,
        id: 0,
        username: None,
        use_voice: false,
        socks5: false,
        use_screen: false,
        attach_screen: false,
    }
}

#[test]
fn client_step_walks_through_login() {
    let welcome = ServerPacket::Welcome { min_pass: 8, max_uname: 16, min_uname: 3, hashes_differ: false };
    let (s, actions) = client_step(fresh_session(), welcome);
    assert_eq!(actions, vec![ClientAction::ShowConnected]);
    let (s, actions) = client_step(s, ServerPacket::RegisterDisabled);
    assert!(actions.is_empty());
    let (s, actions) = client_step(s, ServerPacket::Username);
    assert_eq!(actions, vec![ClientAction::AskUsername { registration_disabled: true, min: 3, max: 16 }]);
    let (s, actions) = client_step(s, ServerPacket::Username);
    assert_eq!(
        actions,
        vec![ClientAction::ReportUsernameRejected, ClientAction::AskUsername { registration_disabled: true, min: 3, max: 16 }]
    );
    let (s, actions) = client_step(s, ServerPacket::PasswordRegister);
    assert_eq!(actions, vec![ClientAction::HideInput, ClientAction::AskRegisterPassword]);
    let (s, actions) = client_step(s, ServerPacket::PasswordRegister);
    assert_eq!(
        actions,
        vec![ClientAction::HideInput, ClientAction::ReportPasswordRejected { min_pass: 8 }, ClientAction::AskRegisterPassword]
    );
    let (s, actions) = client_step(s, ServerPacket::Accept { id: 5 });
    assert_eq!(actions, vec![ClientAction::StartChatting]);
    assert_eq!(s.id, 5);
    let (s, _) = client_step(s, ServerPacket::Join { username: String::from("me") });
    let (s, _) = client_step(s, ServerPacket::Join { username: String::from("other") });
    assert_eq!(s.username, Some(String::from("me")));
}

#[test]
fn client_step_toggles_voice_and_filters_peers() {
    let mut start = fresh_session();
    start.id = 4;
    start.username = Some(String::from("me"));
    let (s, actions) = client_step(start, ServerPacket::ChannelJoin { id: 9 });
    assert!(actions.is_empty());
    let (s, actions) = client_step(s, ServerPacket::Voice);
    assert_eq!(actions, vec![ClientAction::StartVoice { id: 4 }]);
    assert!(s.use_voice);
    let (s, actions) = client_step(s, ServerPacket::ChannelJoin { id: 9 });
    assert_eq!(actions, vec![ClientAction::AddVoicePeer { id: 9 }]);
    let (s, actions) = client_step(s, ServerPacket::ChannelJoin { id: 4 });
    assert!(actions.is_empty());
    let (s, actions) = client_step(s, ServerPacket::Voice);
    assert_eq!(actions, vec![ClientAction::ShowVoiceDisabled]);
    let mut tor = s;
    tor.socks5 = true;
    let (s, actions) = client_step(tor, ServerPacket::Voice);
    assert_eq!(actions, vec![ClientAction::ReportSocks5Voice]);
    assert!(!s.use_voice);
    let (_, actions) = client_step(s, ServerPacket::Message { sender_muted: true });
    assert!(actions.is_empty());
}
