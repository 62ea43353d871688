use why2::chat::options::{
    enable_voice_chat, get_seq, is_muted, set_channel, set_seq, toggle_mute, voice_chat_enabled, ClientOptions,
};

#[test]
fn toggle_mute_remote_client_twice() {
    let mut opts: ClientOptions<u8> = ClientOptions::new();
    assert!(!is_muted(&opts, Some(7)));
    assert!(toggle_mute(&mut opts, Some(7)));
    assert!(is_muted(&opts, Some(7)));
    assert!(!toggle_mute(&mut opts, Some(7)));
    assert!(!is_muted(&opts, Some(7)));
}

#[test]
fn toggle_mute_local_client() {
    let mut opts: ClientOptions<u8> = ClientOptions::new();
    assert!(toggle_mute(&mut opts, None));
    assert!(is_muted(&opts, None));
    assert!(!toggle_mute(&mut opts, None));
}

#[test]
fn seq_round_trip() {
    let mut opts: ClientOptions<u8> = ClientOptions::new();
    set_seq(&mut opts, 41);
    assert_eq!(get_seq(&opts), 41);
}

#[test]
fn voice_chat_stays_enabled_once_enabled() {
    let mut opts: ClientOptions<u8> = ClientOptions::new();
    assert!(!voice_chat_enabled(&opts));
    set_seq(&mut opts, 4);
    assert!(!voice_chat_enabled(&opts));
    enable_voice_chat(&mut opts);
    assert!(voice_chat_enabled(&opts));
    set_channel(&mut opts, String::from("lobby"));
    toggle_mute(&mut opts, None);
    enable_voice_chat(&mut opts);
    assert!(voice_chat_enabled(&opts));
}
