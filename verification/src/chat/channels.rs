//! Voice channels on the server: which announcements a move between channels calls for, and
//! who a client hears in its channel.

use vstd::prelude::*;

use std::collections::HashSet;

use crate::chat::role::chars_of;
use crate::chat::screen_options::name_view;

verus! {

broadcast use vstd::std_specs::hash::group_hash_axioms;

/// How many connections sit in the channel called `name`.
pub open spec fn members(channels: Seq<Option<String>>, name: Seq<char>) -> nat
    decreases channels.len(),
{
    if channels.len() == 0 {
        0
    } else {
        members(channels.drop_last(), name) + if name_view(channels.last()) == Some(name) {
            1nat
        } else {
            0nat
        }
    }
}

/// The announcements that follow a move: the channel left behind, when nobody is in it any
/// more, is destroyed; the channel joined, when the mover is its only member, is created.
pub struct ChannelEvents {
    pub destroyed: Option<String>,
    pub created: Option<String>,
}

/// The channel that a move from `old` to `new` destroys, given every connection's channel after
/// the move.
pub open spec fn spec_destroyed(old: Option<Seq<char>>, new: Option<Seq<char>>, after: Seq<Option<String>>) -> Option<
    Seq<char>,
> {
    match old {
        Some(o) => if old != new && members(after, o) == 0 {
            Some(o)
        } else {
            None
        },
        None => None,
    }
}

/// The channel that a move from `old` to `new` creates, given every connection's channel after
/// the move.
pub open spec fn spec_created(old: Option<Seq<char>>, new: Option<Seq<char>>, after: Seq<Option<String>>) -> Option<
    Seq<char>,
> {
    match new {
        Some(n) => if old != new && members(after, n) == 1 {
            Some(n)
        } else {
            None
        },
        None => None,
    }
}

proof fn lemma_members_step(channels: Seq<Option<String>>, name: Seq<char>, i: int)
    requires
        0 <= i < channels.len(),
    ensures
        members(channels.take(i + 1), name) == members(channels.take(i), name) + if name_view(channels[i])
            == Some(name) {
            1nat
        } else {
            0nat
        },
{
    assert(channels.take(i + 1).drop_last() =~= channels.take(i));
}

proof fn lemma_members_bound(channels: Seq<Option<String>>, name: Seq<char>)
    ensures
        members(channels, name) <= channels.len(),
    decreases channels.len(),
{
    if channels.len() > 0 {
        lemma_members_bound(channels.drop_last(), name);
    }
}

/// Whether two optional names hold the same characters.
fn same_name(a: &Option<String>, b: &Option<String>) -> (r: bool)
    ensures
        r == (name_view(*a) == name_view(*b)),
{
    match (a, b) {
        (Some(x), Some(y)) => *x == *y,
        (None, None) => true,
        _ => false,
    }
}

/// How many of `channels` are the channel `name`.
pub fn count_members(channels: &Vec<Option<String>>, name: &String) -> (r: usize)
    ensures
        r == members(channels@, name@),
{
    let mut count: usize = 0;
    let mut i: usize = 0;
    let wanted = Some(name.clone());
    while i < channels.len()
        invariant
            i <= channels@.len(),
            name_view(wanted) == Some(name@),
            count == members(channels@.take(i as int), name@),
            count <= i,
        decreases channels@.len() - i,
    {
        proof {
            lemma_members_step(channels@, name@, i as int);
        }
        if same_name(&channels[i], &wanted) {
            count = count + 1;
        }
        i = i + 1;
    }
    proof {
        assert(channels@.take(channels@.len() as int) =~= channels@);
    }
    count
}

/// What a client's move from `old_channel` to `new_channel` announces to everyone, given the
/// channel of every connection after the move. Nothing is announced when the channel stays the
/// same.
pub fn channel_events(old_channel: &Option<String>, new_channel: &Option<String>, channels: &Vec<Option<String>>) -> (r:
    ChannelEvents)
    ensures
        name_view(r.destroyed) == spec_destroyed(name_view(*old_channel), name_view(*new_channel), channels@),
        name_view(r.created) == spec_created(name_view(*old_channel), name_view(*new_channel), channels@),
{
    if same_name(old_channel, new_channel) {
        return ChannelEvents { destroyed: None, created: None };
    }
    let destroyed = match old_channel {
        Some(o) => if count_members(channels, o) == 0 {
            Some(o.clone())
        } else {
            None
        },
        None => None,
    };
    let created = match new_channel {
        Some(n) => if count_members(channels, n) == 1 {
            Some(n.clone())
        } else {
            None
        },
        None => None,
    };
    ChannelEvents { destroyed, created }
}

/// What the server reads of a text-chat connection when it lists voice peers.
pub struct ChatConnection {
    pub id: Option<usize>,
    pub username: Option<String>,
    pub channel: Option<String>,
}

/// The peers a client with chat id `sender`, in channel `channel`, hears: every other
/// connection with a chat id and a name, in the same channel, whose id has a voice slot; in the
/// order of `rows`.
pub open spec fn voice_peers(rows: Seq<ChatConnection>, sender: usize, channel: Option<Seq<char>>, voice: Set<usize>) -> Seq<
    (usize, Seq<char>),
>
    decreases rows.len(),
{
    if rows.len() == 0 {
        Seq::empty()
    } else {
        let before = voice_peers(rows.drop_last(), sender, channel, voice);
        let row = rows.last();
        match (row.id, row.username) {
            (Some(uid), Some(name)) => if uid != sender && name_view(row.channel) == channel && voice.contains(uid) {
                before.push((uid, name@))
            } else {
                before
            },
            _ => before,
        }
    }
}

/// The position of the first connection with chat id `id`, if any.
pub open spec fn first_row(rows: Seq<ChatConnection>, id: usize) -> Option<int> {
    if exists|i: int| 0 <= i < rows.len() && rows[i].id == Some(id) {
        Some(
            choose|i: int|
                0 <= i < rows.len() && rows[i].id == Some(id) && forall|j: int| 0 <= j < i ==> rows[j].id != Some(id),
        )
    } else {
        None
    }
}

proof fn lemma_first_row(rows: Seq<ChatConnection>, id: usize, i: int)
    requires
        0 <= i < rows.len(),
        rows[i].id == Some(id),
        forall|j: int| 0 <= j < i ==> rows[j].id != Some(id),
    ensures
        first_row(rows, id) == Some(i),
{
    let k = choose|k: int|
        0 <= k < rows.len() && rows[k].id == Some(id) && forall|j: int| 0 <= j < k ==> rows[j].id != Some(id);
    assert(0 <= k < rows.len() && rows[k].id == Some(id) && forall|j: int| 0 <= j < k ==> rows[j].id != Some(id));
    if k < i {
        assert(rows[k].id != Some(id));
    }
    if i < k {
        assert(rows[i].id != Some(id));
    }
}

/// The characters of each listed peer's name.
pub open spec fn peers_view(peers: Seq<(usize, String)>) -> Seq<(usize, Seq<char>)> {
    peers.map_values(|p: (usize, String)| (p.0, p.1@))
}

/// Finds the first connection with chat id `id`.
fn find_row(rows: &Vec<ChatConnection>, id: usize) -> (r: Option<usize>)
    ensures
        match r {
            Some(i) => i < rows@.len() && first_row(rows@, id) == Some(i as int),
            None => first_row(rows@, id) is None,
        },
{
    let mut k: usize = 0;
    while k < rows.len()
        invariant
            k <= rows@.len(),
            forall|j: int| 0 <= j < k ==> rows@[j].id != Some(id),
        decreases rows@.len() - k,
    {
        let hit = match rows[k].id {
            Some(v) => v == id,
            None => false,
        };
        if hit {
            proof {
                lemma_first_row(rows@, id, k as int);
            }
            return Some(k);
        }
        k = k + 1;
    }
    None
}

/// The peers of [`voice_peers`] among `rows`, for the sender `sender` in `channel`.
fn collect_peers(rows: &Vec<ChatConnection>, sender: usize, channel: &Option<String>, in_voice: &HashSet<usize>) -> (r: Vec<
    (usize, String),
>)
    ensures
        peers_view(r@) == voice_peers(rows@, sender, name_view(*channel), in_voice@),
{
    let mut peers: Vec<(usize, String)> = Vec::new();
    let mut i: usize = 0;
    while i < rows.len()
        invariant
            i <= rows@.len(),
            peers_view(peers@) == voice_peers(rows@.take(i as int), sender, name_view(*channel), in_voice@),
        decreases rows@.len() - i,
    {
        proof {
            assert(rows@.take(i as int + 1).drop_last() =~= rows@.take(i as int));
        }
        let row = &rows[i];
        match (&row.id, &row.username) {
            (Some(uid), Some(name)) => {
                if *uid != sender && same_name(&row.channel, channel) && in_voice.contains(uid) {
                    let ghost before = peers@;
                    peers.push((*uid, name.clone()));
                    proof {
                        assert(peers_view(peers@) =~= peers_view(before).push((*uid, name@)));
                    }
                }
            },
            _ => {},
        }
        i = i + 1;
    }
    proof {
        assert(rows@.take(rows@.len() as int) =~= rows@);
    }
    peers
}

/// The voice peers of the client with chat id `sender`: `None` when no connection has that id;
/// otherwise the peers of [`voice_peers`] in the sender's channel (that of the first connection
/// with the id), with `in_voice` the ids that hold a voice slot.
pub fn voice_clients(rows: &Vec<ChatConnection>, sender: usize, in_voice: &HashSet<usize>) -> (r: Option<
    Vec<(usize, String)>,
>)
    ensures
        r is Some <==> first_row(rows@, sender) is Some,
        r matches Some(peers) ==> peers_view(peers@) == voice_peers(
            rows@,
            sender,
            name_view(rows@[first_row(rows@, sender).unwrap()].channel),
            in_voice@,
        ),
{
    match find_row(rows, sender) {
        Some(at) => Some(collect_peers(rows, sender, &rows[at].channel, in_voice)),
        None => None,
    }
}

/// Whether `c` is an ASCII letter or digit.
pub open spec fn ascii_alphanumeric(c: char) -> bool {
    ('0' <= c <= '9') || ('A' <= c <= 'Z') || ('a' <= c <= 'z')
}

/// Whether a client may switch to `channel`: leaving every channel (`None`) is always allowed;
/// a channel's name must be ASCII letters and digits only, at least one and at most
/// `max_len` of them.
pub open spec fn spec_valid_channel(channel: Option<Seq<char>>, max_len: usize) -> bool {
    match channel {
        None => true,
        Some(name) => 0 < name.len() <= max_len && forall|i: int|
            0 <= i < name.len() ==> ascii_alphanumeric(#[trigger] name[i]),
    }
}

/// Checks a requested channel (see [`spec_valid_channel`]); a refused one is answered with an
/// invalid-usage notice.
pub fn valid_channel(channel: &Option<String>, max_len: usize) -> (r: bool)
    ensures
        r == spec_valid_channel(name_view(*channel), max_len),
{
    let name = match channel {
        None => {
            return true;
        },
        Some(n) => n,
    };
    let chars = chars_of(name.as_str());
    if chars.len() == 0 || chars.len() > max_len {
        return false;
    }
    let mut i: usize = 0;
    while i < chars.len()
        invariant
            i <= chars@.len(),
            chars@ == name@,
            name_view(*channel) == Some(chars@),
            forall|j: int| 0 <= j < i ==> ascii_alphanumeric(#[trigger] chars@[j]),
        decreases chars@.len() - i,
    {
        let c = chars[i];
        if !(('0' <= c && c <= '9') || ('A' <= c && c <= 'Z') || ('a' <= c && c <= 'z')) {
            assert(!ascii_alphanumeric(chars@[i as int]));
            return false;
        }
        i = i + 1;
    }
    true
}

} // verus!
