//! Client and server session options.
//!
//! Every option lives in one [`ClientOptions`] value that the caller owns and hands to the
//! accessors below; each accessor reads or changes exactly one option.

use vstd::prelude::*;

use std::collections::HashSet;

verus! {

broadcast use vstd::std_specs::hash::group_hash_axioms;

/// The options of a chat session. `K` is the type of the shared session keys.
pub struct ClientOptions<K> {
    /// The server's display name.
    pub server_username: String,
    /// Whether the server offers voice chat.
    pub voice_chat: bool,
    /// The shared symmetric keys, once negotiated.
    pub keys: Option<K>,
    /// The client is typing a password (echo disabled).
    pub asking_password: bool,
    /// A menu was displayed; the next message gets an extra blank line.
    pub extra_space: bool,
    /// Messages are being sent (a condition for adding them to the history).
    pub sending_messages: bool,
    /// Packet sequence number, client to server.
    pub seq: usize,
    /// Packet sequence number, server to client.
    pub server_seq: usize,
    /// The server's address.
    pub server_address: String,
    /// The key that obfuscates traffic.
    pub obfuscation_key: [u8; 32],
    /// The active channel.
    pub channel: String,
    /// The local client is muted.
    pub mute: bool,
    /// The ids of muted remote clients.
    pub muted: HashSet<usize>,
    /// Connect through SOCKS5 (Tor).
    pub socks5: bool,
}

impl<K> ClientOptions<K> {
    /// The options at start-up: empty strings, no keys, zero counters and key, nothing muted,
    /// every flag off.
    pub fn new() -> (r: Self)
        ensures
            r.server_username@ == Seq::<char>::empty(),
            !r.voice_chat,
            r.keys is None,
            !r.asking_password,
            !r.extra_space,
            !r.sending_messages,
            r.seq == 0,
            r.server_seq == 0,
            r.server_address@ == Seq::<char>::empty(),
            r.obfuscation_key@ == Seq::new(32, |i: int| 0u8),
            r.channel@ == Seq::<char>::empty(),
            !r.mute,
            r.muted@ == Set::<usize>::empty(),
            !r.socks5,
    {
        let key = [0u8; 32];
        assert(key@ =~= Seq::new(32, |i: int| 0u8));
        ClientOptions {
            server_username: String::new(),
            voice_chat: false,
            keys: None,
            asking_password: false,
            extra_space: false,
            sending_messages: false,
            seq: 0,
            server_seq: 0,
            server_address: String::new(),
            obfuscation_key: key,
            channel: String::new(),
            mute: false,
            muted: HashSet::new(),
            socks5: false,
        }
    }
}

/// The server's display name.
pub fn get_server_username<K>(opts: &ClientOptions<K>) -> (r: String)
    ensures
        r@ == opts.server_username@,
{
    opts.server_username.clone()
}

/// Sets the server's display name.
pub fn set_server_username<K>(opts: &mut ClientOptions<K>, username: &str)
    ensures
        final(opts).server_username@ == username@,
        *final(opts) == (ClientOptions { server_username: final(opts).server_username, ..*old(opts) }),
        client_call(*old(opts), ClientCall::SetServerUsername, *final(opts)),
{
    opts.server_username = username.to_owned();
}

/// Marks voice chat as offered by the server.
pub fn enable_voice_chat<K>(opts: &mut ClientOptions<K>)
    ensures
        final(opts).voice_chat,
        *final(opts) == (ClientOptions { voice_chat: final(opts).voice_chat, ..*old(opts) }),
        client_call(*old(opts), ClientCall::EnableVoiceChat, *final(opts)),
{
    opts.voice_chat = true;
}

/// Whether the server offers voice chat.
pub fn voice_chat_enabled<K>(opts: &ClientOptions<K>) -> (r: bool)
    ensures
        r == opts.voice_chat,
{
    opts.voice_chat
}

/// Stores the negotiated shared keys.
pub fn set_keys<K>(opts: &mut ClientOptions<K>, keys: K)
    ensures
        final(opts).keys == Some(keys),
        *final(opts) == (ClientOptions { keys: final(opts).keys, ..*old(opts) }),
        client_call(*old(opts), ClientCall::SetKeys(keys), *final(opts)),
{
    opts.keys = Some(keys);
}

/// A copy of the shared keys, if any were negotiated.
pub fn get_keys<K: Clone>(opts: &ClientOptions<K>) -> (r: Option<K>)
    ensures
        r is Some <==> opts.keys is Some,
        r matches Some(k) ==> cloned::<K>(opts.keys.unwrap(), k),
{
    match &opts.keys {
        Some(k) => Some(k.clone()),
        None => None,
    }
}

/// Whether the client is typing a password.
pub fn get_asking_password<K>(opts: &ClientOptions<K>) -> (r: bool)
    ensures
        r == opts.asking_password,
{
    opts.asking_password
}

/// Sets whether the client is typing a password.
pub fn set_asking_password<K>(opts: &mut ClientOptions<K>, value: bool)
    ensures
        final(opts).asking_password == value,
        *final(opts) == (ClientOptions { asking_password: final(opts).asking_password, ..*old(opts) }),
        client_call(*old(opts), ClientCall::SetAskingPassword(value), *final(opts)),
{
    opts.asking_password = value;
}

/// Whether the next message gets an extra blank line.
pub fn get_extra_space<K>(opts: &ClientOptions<K>) -> (r: bool)
    ensures
        r == opts.extra_space,
{
    opts.extra_space
}

/// Sets whether the next message gets an extra blank line.
pub fn set_extra_space<K>(opts: &mut ClientOptions<K>, value: bool)
    ensures
        final(opts).extra_space == value,
        *final(opts) == (ClientOptions { extra_space: final(opts).extra_space, ..*old(opts) }),
        client_call(*old(opts), ClientCall::SetExtraSpace(value), *final(opts)),
{
    opts.extra_space = value;
}

/// Whether messages are being sent.
pub fn get_sending_messages<K>(opts: &ClientOptions<K>) -> (r: bool)
    ensures
        r == opts.sending_messages,
{
    opts.sending_messages
}

/// Sets whether messages are being sent.
pub fn set_sending_messages<K>(opts: &mut ClientOptions<K>, value: bool)
    ensures
        final(opts).sending_messages == value,
        *final(opts) == (ClientOptions { sending_messages: final(opts).sending_messages, ..*old(opts) }),
        client_call(*old(opts), ClientCall::SetSendingMessages(value), *final(opts)),
{
    opts.sending_messages = value;
}

/// The client-to-server packet sequence number.
pub fn get_seq<K>(opts: &ClientOptions<K>) -> (r: usize)
    ensures
        r == opts.seq,
{
    opts.seq
}

/// Sets the client-to-server packet sequence number.
pub fn set_seq<K>(opts: &mut ClientOptions<K>, value: usize)
    ensures
        final(opts).seq == value,
        *final(opts) == (ClientOptions { seq: final(opts).seq, ..*old(opts) }),
        client_call(*old(opts), ClientCall::SetSeq(value), *final(opts)),
{
    opts.seq = value;
}

/// The server-to-client packet sequence number.
pub fn get_server_seq<K>(opts: &ClientOptions<K>) -> (r: usize)
    ensures
        r == opts.server_seq,
{
    opts.server_seq
}

/// Sets the server-to-client packet sequence number.
pub fn set_server_seq<K>(opts: &mut ClientOptions<K>, value: usize)
    ensures
        final(opts).server_seq == value,
        *final(opts) == (ClientOptions { server_seq: final(opts).server_seq, ..*old(opts) }),
        client_call(*old(opts), ClientCall::SetServerSeq(value), *final(opts)),
{
    opts.server_seq = value;
}

/// The server's address.
pub fn get_server_address<K>(opts: &ClientOptions<K>) -> (r: String)
    ensures
        r@ == opts.server_address@,
{
    opts.server_address.clone()
}

/// Sets the server's address.
pub fn set_server_address<K>(opts: &mut ClientOptions<K>, address: &str)
    ensures
        final(opts).server_address@ == address@,
        *final(opts) == (ClientOptions { server_address: final(opts).server_address, ..*old(opts) }),
        client_call(*old(opts), ClientCall::SetServerAddress, *final(opts)),
{
    opts.server_address = address.to_owned();
}

/// The traffic obfuscation key.
pub fn get_obfuscation_key<K>(opts: &ClientOptions<K>) -> (r: [u8; 32])
    ensures
        r == opts.obfuscation_key,
{
    opts.obfuscation_key
}

/// Sets the traffic obfuscation key.
pub fn set_obfuscation_key<K>(opts: &mut ClientOptions<K>, key: &[u8; 32])
    ensures
        final(opts).obfuscation_key == *key,
        *final(opts) == (ClientOptions { obfuscation_key: final(opts).obfuscation_key, ..*old(opts) }),
        client_call(*old(opts), ClientCall::SetObfuscationKey(*key), *final(opts)),
{
    opts.obfuscation_key = *key;
}

/// The active channel.
pub fn get_channel<K>(opts: &ClientOptions<K>) -> (r: String)
    ensures
        r@ == opts.channel@,
{
    opts.channel.clone()
}

/// Sets the active channel.
pub fn set_channel<K>(opts: &mut ClientOptions<K>, channel: String)
    ensures
        final(opts).channel == channel,
        *final(opts) == (ClientOptions { channel: final(opts).channel, ..*old(opts) }),
        client_call(*old(opts), ClientCall::SetChannel(channel), *final(opts)),
{
    opts.channel = channel;
}

/// The muted set after toggling `id`: removed if present, added if absent.
pub open spec fn toggled(muted: Set<usize>, id: usize) -> Set<usize> {
    if muted.contains(id) {
        muted.remove(id)
    } else {
        muted.insert(id)
    }
}

/// Toggles a mute and returns whether it is now on.
///
/// With `Some(id)` the remote client `id` is muted if it was not and unmuted if it was; with
/// `None` the local client's mute flips.
pub fn toggle_mute<K>(opts: &mut ClientOptions<K>, id: Option<usize>) -> (r: bool)
    ensures
        id matches Some(i) ==> r == !old(opts).muted@.contains(i) && final(opts).muted@ == toggled(
            old(opts).muted@,
            i,
        ) && *final(opts) == (ClientOptions { muted: final(opts).muted, ..*old(opts) }),
        id is None ==> final(opts).mute == !old(opts).mute && r == final(opts).mute && *final(opts) == (
        ClientOptions { mute: final(opts).mute, ..*old(opts) }),
        client_call(*old(opts), ClientCall::ToggleMute(id), *final(opts)),
{
    match id {
        Some(i) => {
            if opts.muted.remove(&i) {
                false
            } else {
                opts.muted.insert(i);
                true
            }
        },
        None => {
            let previous = opts.mute;
            opts.mute = !previous;
            !previous
        },
    }
}

/// Whether remote client `id` (with `Some`) or the local client (with `None`) is muted.
pub fn is_muted<K>(opts: &ClientOptions<K>, id: Option<usize>) -> (r: bool)
    ensures
        id matches Some(i) ==> r == opts.muted@.contains(i),
        id is None ==> r == opts.mute,
{
    match id {
        Some(i) => opts.muted.contains(&i),
        None => opts.mute,
    }
}

/// Routes connections through SOCKS5.
pub fn enable_socks5<K>(opts: &mut ClientOptions<K>)
    ensures
        final(opts).socks5,
        *final(opts) == (ClientOptions { socks5: final(opts).socks5, ..*old(opts) }),
        client_call(*old(opts), ClientCall::EnableSocks5, *final(opts)),
{
    opts.socks5 = true;
}

/// Whether connections go through SOCKS5.
pub fn socks5_enabled<K>(opts: &ClientOptions<K>) -> (r: bool)
    ensures
        r == opts.socks5,
{
    opts.socks5
}

/// Toggling the mute of the same remote client twice leaves the set of muted clients as it was,
/// and each toggle changes whether that client is muted.
pub proof fn law_toggle_mute_twice(muted: Set<usize>, id: usize)
    ensures
        toggled(toggled(muted, id), id) == muted,
        toggled(muted, id).contains(id) == !muted.contains(id),
{
    if muted.contains(id) {
        assert(muted.remove(id).insert(id) =~= muted);
    } else {
        assert(muted.insert(id).remove(id) =~= muted);
    }
}

/// A call that changes client options, with the argument the change depends on (a name or an
/// address is whatever text the call was given).
pub enum ClientCall<K> {
    /// [`set_server_username`].
    SetServerUsername,
    /// [`enable_voice_chat`].
    EnableVoiceChat,
    /// [`set_keys`].
    SetKeys(K),
    /// [`set_asking_password`].
    SetAskingPassword(bool),
    /// [`set_extra_space`].
    SetExtraSpace(bool),
    /// [`set_sending_messages`].
    SetSendingMessages(bool),
    /// [`set_seq`].
    SetSeq(usize),
    /// [`set_server_seq`].
    SetServerSeq(usize),
    /// [`set_server_address`].
    SetServerAddress,
    /// [`set_obfuscation_key`].
    SetObfuscationKey([u8; 32]),
    /// [`set_channel`].
    SetChannel(String),
    /// [`toggle_mute`].
    ToggleMute(Option<usize>),
    /// [`enable_socks5`].
    EnableSocks5,
}

/// Whether `call` turns the options `before` into `after`, as the function it stands for does:
/// each changes its one option and keeps every other.
pub open spec fn client_call<K>(before: ClientOptions<K>, call: ClientCall<K>, after: ClientOptions<K>) -> bool {
    match call {
        ClientCall::SetServerUsername => after == ClientOptions { server_username: after.server_username, ..before },
        ClientCall::EnableVoiceChat => after == ClientOptions { voice_chat: true, ..before },
        ClientCall::SetKeys(k) => after == ClientOptions { keys: Some(k), ..before },
        ClientCall::SetAskingPassword(v) => after == ClientOptions { asking_password: v, ..before },
        ClientCall::SetExtraSpace(v) => after == ClientOptions { extra_space: v, ..before },
        ClientCall::SetSendingMessages(v) => after == ClientOptions { sending_messages: v, ..before },
        ClientCall::SetSeq(v) => after == ClientOptions { seq: v, ..before },
        ClientCall::SetServerSeq(v) => after == ClientOptions { server_seq: v, ..before },
        ClientCall::SetServerAddress => after == ClientOptions { server_address: after.server_address, ..before },
        ClientCall::SetObfuscationKey(k) => after == ClientOptions { obfuscation_key: k, ..before },
        ClientCall::SetChannel(c) => after == ClientOptions { channel: c, ..before },
        ClientCall::ToggleMute(Some(i)) => after.muted@ == toggled(before.muted@, i) && after == ClientOptions {
            muted: after.muted,
            ..before
        },
        ClientCall::ToggleMute(None) => after == ClientOptions { mute: !before.mute, ..before },
        ClientCall::EnableSocks5 => after == ClientOptions { socks5: true, ..before },
    }
}

/// Whether `states` are the options before and after each of `calls`, in turn.
pub open spec fn client_run<K>(states: Seq<ClientOptions<K>>, calls: Seq<ClientCall<K>>) -> bool {
    &&& states.len() == calls.len() + 1
    &&& forall|i: int| 0 <= i < calls.len() ==> client_call(states[i], #[trigger] calls[i], states[i + 1])
}

/// Whether one of the first `k` calls enables voice chat.
pub open spec fn voice_enabled_within<K>(calls: Seq<ClientCall<K>>, k: int) -> bool {
    exists|t: int| 0 <= t < k && #[trigger] calls[t] is EnableVoiceChat
}

/// Voice chat, once enabled, stays enabled: across any run of calls, voice chat is on after the
/// first `k` calls exactly when it was on at the start or one of them enabled it. Nothing turns
/// it off, so a later state has it on whenever an earlier one did; from [`ClientOptions::new`]
/// it is on exactly once [`enable_voice_chat`] has been called.
pub proof fn law_voice_chat_stays_enabled<K>(states: Seq<ClientOptions<K>>, calls: Seq<ClientCall<K>>, i: int, k: int)
    requires
        client_run(states, calls),
        0 <= i <= k < states.len(),
    ensures
        states[k].voice_chat <==> (states[0].voice_chat || voice_enabled_within(calls, k)),
        states[i].voice_chat ==> states[k].voice_chat,
    decreases k,
{
    if k > 0 {
        law_voice_chat_stays_enabled(states, calls, 0, k - 1);
        assert(client_call(states[k - 1], calls[k - 1], states[k]));
        if voice_enabled_within(calls, k - 1) {
            let t = choose|t: int| 0 <= t < k - 1 && #[trigger] calls[t] is EnableVoiceChat;
            assert(0 <= t < k && calls[t] is EnableVoiceChat);
        }
        if calls[k - 1] is EnableVoiceChat {
            assert(0 <= k - 1 < k && calls[k - 1] is EnableVoiceChat);
        }
        if voice_enabled_within(calls, k) && !(calls[k - 1] is EnableVoiceChat) {
            let t = choose|t: int| 0 <= t < k && #[trigger] calls[t] is EnableVoiceChat;
            assert(t != k - 1);
            assert(0 <= t < k - 1 && calls[t] is EnableVoiceChat);
        }
        if i < k {
            law_voice_chat_stays_enabled(states, calls, i, k - 1);
        }
    }
}

} // verus!
