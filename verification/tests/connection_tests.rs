use why2::chat::connection::{authenticate_client, broadcast_targets, update_client_channel, update_client_keys, Connection};
use why2::chat::role::Role;

type Conn = Connection<u8, u32, u16, u64, u8>;

fn fresh() -> Conn {
    Connection::new(1, 2, 3, [9u8; 32], 100)
}

#[test]
fn new_connections_are_unauthenticated() {
    let conn = fresh();
    assert!(!conn.is_authenticated());
    assert_eq!(conn.obfuscation_key(), Some(&[9u8; 32]));
    assert_eq!(conn.keys(), None);
    assert_eq!(conn.id(), None);
    assert_eq!(conn.channel(), None);
    assert_eq!(*conn.last_activity(), 100);
    assert!(!conn.is_alive());
    assert!(!conn.muted());
    assert!(conn.file_streams().is_none());
}

#[test]
fn key_exchange_then_login() {
    let mut conn = fresh();
    conn.set_requested_username(Some("ann".to_string()));
    assert_eq!(conn.username(), Some(&"ann".to_string()));
    conn.set_seq(4);
    // a key exchange forgets the asked-for name
    let conn = update_client_keys(conn, 77, 150);
    assert_eq!(conn.keys(), Some(&77));
    assert_eq!(conn.username(), None);
    assert_eq!(*conn.last_activity(), 150);
    let conn = authenticate_client(conn, "ann".to_string(), 5, Role::User, 90, 160);
    assert!(conn.is_authenticated());
    assert_eq!(conn.id(), Some(&5));
    assert_eq!(conn.role(), Some(&Role::User));
    assert_eq!(conn.keys(), Some(&77));
    assert_eq!(conn.seq(), 4);
    assert_eq!(conn.server_seq(), Some(0));
    assert_eq!(conn.last_key_exchange(), Some(&160));
    assert_eq!(*conn.last_activity(), 90);
    assert!(conn.is_alive());
    assert_eq!(conn.obfuscation_key(), None);
    // a rekey resets the spam record
    let mut conn = conn;
    conn.set_spam_violations(3);
    let conn = update_client_keys(conn, 78, 200);
    assert_eq!(conn.spam_violations(), Some(&0));
    assert_eq!(conn.last_key_exchange(), Some(&200));
    assert_eq!(conn.keys(), Some(&78));
}

fn logged_in() -> Conn {
    authenticate_client(update_client_keys(fresh(), 7, 100), "bob".to_string(), 1, Role::Moderator, 100, 100)
}

#[test]
fn channel_moves_report_the_channel_left() {
    let mut conn = logged_in();
    conn.set_alive(false);
    assert_eq!(update_client_channel(&mut conn, Some("a".to_string()), 300), None);
    assert_eq!(conn.channel(), Some(&"a".to_string()));
    assert!(conn.is_alive());
    assert_eq!(*conn.last_activity(), 300);
    assert_eq!(update_client_channel(&mut conn, None, 301), Some("a".to_string()));
    assert_eq!(conn.channel(), None);
}

#[test]
fn transfers_and_shares_hand_back_their_tasks() {
    let mut conn = logged_in();
    assert_eq!(conn.add_file_stream(10, 100), None);
    assert_eq!(conn.add_file_stream(10, 101), Some(100));
    assert_eq!(conn.remove_file_stream(10), Some(101));
    assert_eq!(conn.remove_file_stream(10), None);

    assert_eq!(conn.set_screen_stream(50), None);
    assert_eq!(conn.screen_stream(), Some(&50));
    assert_eq!(conn.set_screen_stream(51), Some(50));
    assert_eq!(conn.take_screen_stream(), Some((1, 51)));
    assert_eq!(conn.take_screen_stream(), None);

    conn.attach_screen(4, 8, [1u8; 32]);
    assert_eq!(conn.attached_screen().map(|a| a.target_id), Some(4));
    conn.deattach_screen();
    assert!(conn.attached_screen().is_none());

    conn.toggle_mute();
    assert!(conn.muted());
    conn.set_role(Role::Owner);
    assert_eq!(conn.role(), Some(&Role::Owner));

    // a client still authenticating runs nothing
    let mut waiting = fresh();
    assert_eq!(waiting.add_file_stream(1, 2), Some(2));
    assert_eq!(waiting.set_screen_stream(3), Some(3));
    waiting.toggle_mute();
    assert!(!waiting.muted());
}

#[test]
fn inactivity_depends_on_the_stage() {
    let waiting = fresh();
    assert!(waiting.is_inactive(0, 31_000_000_000, 10, 30));
    assert!(!waiting.is_inactive(99_000_000_000, 30_000_000_000, 10, 30));
    let conn = logged_in();
    assert!(conn.is_inactive(10_000_000_001, 0, 10, 30));
    assert!(!conn.is_inactive(10_000_000_000, 99_000_000_000, 10, 30));
}

#[test]
fn closing_hands_back_every_transfer() {
    let mut conn = logged_in();
    conn.add_file_stream(1, 10);
    conn.add_file_stream(2, 20);
    let mut taken: Vec<(u64, u32)> = conn.take_file_streams().into_iter().collect();
    taken.sort();
    assert_eq!(taken, vec![(1, 10), (2, 20)]);
    assert!(conn.file_streams().unwrap().is_empty());
    assert!(fresh().take_file_streams().is_empty());
}

#[test]
fn broadcasts_reach_authenticated_clients_of_the_channel() {
    let mut a = logged_in();
    update_client_channel(&mut a, Some("x".to_string()), 1);
    let b = logged_in();
    let conns = vec![a, fresh(), b];
    assert_eq!(broadcast_targets(&conns, false, &None), vec![0, 2]);
    assert_eq!(broadcast_targets(&conns, true, &Some("x".to_string())), vec![0]);
    assert_eq!(broadcast_targets(&conns, true, &None), vec![2]);
}
