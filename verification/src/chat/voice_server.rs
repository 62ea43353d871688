//! The voice server's lookups into the text server's connections, and its own slots.

use vstd::prelude::*;

use std::collections::HashMap;

use crate::chat::screen_options::name_view;

verus! {

broadcast use vstd::std_specs::hash::group_hash_axioms;

/// What the voice server reads of a text-chat connection: its chat id once authenticated, its
/// shared keys, its channel, and when it was last active (`T` is the clock's type).
pub struct ConnectionEntry<K, T> {
    pub id: Option<usize>,
    pub keys: Option<K>,
    pub channel: Option<String>,
    pub last_activity: T,
}

/// The position of the first connection with chat id `id`, if any.
pub open spec fn first_with_id<K, T>(conns: Seq<ConnectionEntry<K, T>>, id: usize) -> Option<int> {
    if exists|i: int| 0 <= i < conns.len() && conns[i].id == Some(id) {
        Some(
            choose|i: int|
                0 <= i < conns.len() && conns[i].id == Some(id) && forall|j: int|
                    0 <= j < i ==> conns[j].id != Some(id),
        )
    } else {
        None
    }
}

proof fn lemma_first_with_id<K, T>(conns: Seq<ConnectionEntry<K, T>>, id: usize, i: int)
    requires
        0 <= i < conns.len(),
        conns[i].id == Some(id),
        forall|j: int| 0 <= j < i ==> conns[j].id != Some(id),
    ensures
        first_with_id(conns, id) == Some(i),
{
    let k = choose|k: int|
        0 <= k < conns.len() && conns[k].id == Some(id) && forall|j: int| 0 <= j < k ==> conns[j].id != Some(id);
    assert(0 <= k < conns.len() && conns[k].id == Some(id) && forall|j: int| 0 <= j < k ==> conns[j].id != Some(id));
    if k < i {
        assert(conns[k].id != Some(id));
    }
    if i < k {
        assert(conns[i].id != Some(id));
    }
}

/// Finds the first connection with chat id `id`.
fn find_index<K, T>(conns: &Vec<ConnectionEntry<K, T>>, id: usize) -> (r: Option<usize>)
    ensures
        match r {
            Some(i) => first_with_id(conns@, id) == Some(i as int) && i < conns@.len() && conns@[i as int].id == Some(
                id,
            ),
            None => first_with_id(conns@, id) is None,
        },
{
    let mut i: usize = 0;
    while i < conns.len()
        invariant
            i <= conns@.len(),
            forall|j: int| 0 <= j < i ==> conns@[j].id != Some(id),
        decreases conns@.len() - i,
    {
        let matches = match conns[i].id {
            Some(v) => v == id,
            None => false,
        };
        if matches {
            proof {
                lemma_first_with_id(conns@, id, i as int);
            }
            return Some(i);
        }
        i = i + 1;
    }
    None
}

/// A copy of the shared keys of the connection with chat id `id`, if one is connected.
/// Every connection with a chat id has keys.
pub fn find_key<K: Clone, T>(conns: &Vec<ConnectionEntry<K, T>>, id: &usize) -> (r: Option<K>)
    requires
        forall|i: int| 0 <= i < conns@.len() && (#[trigger] conns@[i]).id is Some ==> conns@[i].keys is Some,
    ensures
        r is Some <==> first_with_id(conns@, *id) is Some,
        r matches Some(k) ==> cloned::<K>(conns@[first_with_id(conns@, *id).unwrap()].keys.unwrap(), k),
{
    match find_index(conns, *id) {
        Some(i) => match &conns[i].keys {
            Some(k) => Some(k.clone()),
            None => None,
        },
        None => None,
    }
}

/// The characters of an optional channel.
pub open spec fn chan_view(c: Option<Option<String>>) -> Option<Option<Seq<char>>> {
    match c {
        Some(x) => Some(name_view(x)),
        None => None,
    }
}

/// The channel of the connection with chat id `id`, if one is connected.
pub fn find_channel<K, T>(conns: &Vec<ConnectionEntry<K, T>>, id: &usize) -> (r: Option<Option<String>>)
    ensures
        chan_view(r) == channel_of(conns@, *id),
{
    match find_index(conns, *id) {
        Some(i) => match &conns[i].channel {
            Some(c) => Some(Some(c.clone())),
            None => Some(None),
        },
        None => None,
    }
}

/// Marks the connection with chat id `id` as last active at `stamp` (the caller passes the
/// current time less the minimum message delay, so its next message is not throttled).
pub fn reset_last_activity<K, T>(conns: &mut Vec<ConnectionEntry<K, T>>, id: &usize, stamp: T)
    ensures
        final(conns)@.len() == old(conns)@.len(),
        first_with_id(old(conns)@, *id) is None ==> final(conns)@ == old(conns)@,
        first_with_id(old(conns)@, *id) matches Some(i) ==> final(conns)@ == old(conns)@.update(
            i,
            ConnectionEntry { last_activity: stamp, ..old(conns)@[i] },
        ),
{
    match find_index(conns, *id) {
        Some(i) => {
            conns[i].last_activity = stamp;
        },
        None => {},
    }
}

/// Closes the voice slot of chat id `id`.
pub fn remove_connection<V>(slots: &mut HashMap<usize, V>, id: &usize)
    ensures
        final(slots)@ == old(slots)@.remove(*id),
{
    let _ = slots.remove(id);
}

/// A UDP peer address: the IP (an IPv4 address mapped into IPv6) and the port.
#[derive(Clone, Copy, PartialEq, Eq, Structural, Debug)]
pub struct PeerAddr {
    pub ip: u128,
    pub port: u16,
}

/// A voice slot bound to a client's UDP address: the address, the last sequence number
/// accepted from it, the next one the server uses towards it, and the packets counted towards
/// the next activity mark.
#[derive(Clone, Copy, PartialEq, Eq, Structural, Debug)]
pub struct VoiceBinding {
    pub addr: PeerAddr,
    pub id: usize,
    pub seq: usize,
    pub server_seq: usize,
    pub packets: usize,
}

/// What becomes of a packet that reached a voice slot.
#[derive(Clone, Copy, PartialEq, Eq, Structural, Debug)]
pub enum VoiceAdmit {
    /// Dropped: a stranger's packet, a replay, or a first packet that is not a valid hello.
    Ignore,
    /// Taken; `mark_active` when the slot's text connection is to be marked active (one mark
    /// every `threshold` packets).
    Accept { mark_active: bool },
}

/// What a packet from `from`, with sequence number `seq`, does to the slot of chat id `id`
/// (`bound` is the slot's binding, `None` until the client's hello): an unbound slot is bound
/// by a hello with the right token (`valid_hello`) and nothing else; a bound slot follows its
/// client to a new address on such a hello, or to a new port on the same IP (a NAT rebinding),
/// and drops packets from anywhere else; then a sequence number that does not grow is dropped,
/// and every `threshold`-th packet taken marks the connection active.
pub open spec fn spec_admit(bound: Option<VoiceBinding>, id: usize, from: PeerAddr, valid_hello: bool, seq: usize, threshold: usize) -> (
    Option<VoiceBinding>,
    VoiceAdmit,
) {
    match bound {
        None => if valid_hello {
            (
                Some(VoiceBinding { addr: from, id, seq, server_seq: 0, packets: 0 }),
                VoiceAdmit::Accept { mark_active: false },
            )
        } else {
            (None, VoiceAdmit::Ignore)
        },
        Some(b) => if b.addr != from && !valid_hello && b.addr.ip != from.ip {
            (Some(b), VoiceAdmit::Ignore)
        } else if seq <= b.seq {
            (Some(VoiceBinding { addr: from, ..b }), VoiceAdmit::Ignore)
        } else if b.packets + 1 >= threshold {
            (Some(VoiceBinding { addr: from, seq, packets: 0, ..b }), VoiceAdmit::Accept { mark_active: true })
        } else {
            (
                Some(VoiceBinding { addr: from, seq, packets: (b.packets + 1) as usize, ..b }),
                VoiceAdmit::Accept { mark_active: false },
            )
        },
    }
}

/// Admits a packet into the voice slot of chat id `id` (see [`spec_admit`]).
pub fn admit_voice_packet(
    bound: &mut Option<VoiceBinding>,
    id: usize,
    from: PeerAddr,
    valid_hello: bool,
    seq: usize,
    threshold: usize,
) -> (r: VoiceAdmit)
    requires
        *old(bound) is Some ==> (*old(bound))->0.packets < usize::MAX,
    ensures
        (*final(bound), r) == spec_admit(*old(bound), id, from, valid_hello, seq, threshold),
{
    match bound {
        None => {
            if valid_hello {
                *bound = Some(VoiceBinding { addr: from, id, seq, server_seq: 0, packets: 0 });
                VoiceAdmit::Accept { mark_active: false }
            } else {
                VoiceAdmit::Ignore
            }
        },
        Some(b) => {
            if b.addr != from {
                if valid_hello || b.addr.ip == from.ip {
                    b.addr = from;
                } else {
                    return VoiceAdmit::Ignore;
                }
            }
            if seq <= b.seq {
                return VoiceAdmit::Ignore;
            }
            b.seq = seq;
            b.packets = b.packets + 1;
            if b.packets >= threshold {
                b.packets = 0;
                VoiceAdmit::Accept { mark_active: true }
            } else {
                VoiceAdmit::Accept { mark_active: false }
            }
        },
    }
}

/// A voice slot cannot be taken over: a packet from an address on another IP, without the
/// slot's token, changes nothing and is dropped; and no packet is taken twice, since a packet
/// is only taken when its sequence number is above the last one taken, which it then becomes.
pub proof fn law_slot_not_hijacked(b: VoiceBinding, id: usize, from: PeerAddr, seq: usize, threshold: usize)
    ensures
        b.addr.ip != from.ip ==> spec_admit(Some(b), id, from, false, seq, threshold) == (
            Some(b),
            VoiceAdmit::Ignore,
        ),
        spec_admit(Some(b), id, from, false, seq, threshold).1 is Accept ==> (seq > b.seq && (spec_admit(
            Some(b),
            id,
            from,
            false,
            seq,
            threshold,
        ).0 matches Some(after) && after.seq == seq)),
{
}

/// The channel of the connection with chat id `id`, if one is connected (`Some(None)` when it is
/// in no channel).
pub open spec fn channel_of<K, T>(conns: Seq<ConnectionEntry<K, T>>, id: usize) -> Option<Option<Seq<char>>> {
    match first_with_id(conns, id) {
        Some(i) => Some(name_view(conns[i].channel)),
        None => None,
    }
}

/// The slots a packet from `from` (of chat id `sender`) is relayed to: every bound slot at
/// another address whose client has a text connection, and so keys to encrypt with, and sits
/// in the sender's channel; in the order of `slots`.
pub open spec fn relay_targets<K, T>(slots: Seq<VoiceBinding>, from: PeerAddr, sender: usize, conns: Seq<ConnectionEntry<K, T>>) -> Seq<
    (PeerAddr, usize),
>
    decreases slots.len(),
{
    if slots.len() == 0 {
        Seq::empty()
    } else {
        let before = relay_targets(slots.drop_last(), from, sender, conns);
        let slot = slots.last();
        if slot.addr != from && channel_of(conns, slot.id) is Some && channel_of(conns, slot.id) == channel_of(
            conns,
            sender,
        ) {
            before.push((slot.addr, slot.id))
        } else {
            before
        }
    }
}

/// Whether two optional channels are the same.
fn same_channel(a: &Option<Option<String>>, b: &Option<Option<String>>) -> (r: bool)
    ensures
        r == (chan_view(*a) == chan_view(*b)),
{
    match (a, b) {
        (Some(Some(x)), Some(Some(y))) => *x == *y,
        (Some(None), Some(None)) => true,
        (None, None) => true,
        _ => false,
    }
}

/// The addresses and chat ids that a voice packet from `from` (of chat id `sender`) is relayed
/// to (see [`relay_targets`]).
pub fn relay_to<K, T>(slots: &Vec<VoiceBinding>, from: PeerAddr, sender: usize, conns: &Vec<ConnectionEntry<K, T>>) -> (r: Vec<
    (PeerAddr, usize),
>)
    ensures
        r@ == relay_targets(slots@, from, sender, conns@),
{
    let sender_channel = find_channel(conns, &sender);
    let mut out: Vec<(PeerAddr, usize)> = Vec::new();
    let mut i: usize = 0;
    while i < slots.len()
        invariant
            i <= slots@.len(),
            chan_view(sender_channel) == channel_of(conns@, sender),
            out@ == relay_targets(slots@.take(i as int), from, sender, conns@),
        decreases slots@.len() - i,
    {
        proof {
            assert(slots@.take(i as int + 1).drop_last() =~= slots@.take(i as int));
        }
        let slot = slots[i];
        let theirs = find_channel(conns, &slot.id);
        let relayed = slot.addr != from && theirs.is_some() && same_channel(&theirs, &sender_channel);
        proof {
            let pre = slots@.take(i as int + 1);
            assert(pre.last() == slot);
            assert(relayed == (slot.addr != from && channel_of(conns@, slot.id) is Some && channel_of(conns@, slot.id)
                == channel_of(conns@, sender)));
        }
        if relayed {
            out.push((slot.addr, slot.id));
        }
        i = i + 1;
    }
    proof {
        assert(slots@.take(slots@.len() as int) =~= slots@);
    }
    out
}

/// Whether a voice packet from `from` (of chat id `sender`) goes to `slot`: the slot is at
/// another address, its client has a text connection (and so keys), and that client sits in
/// the sender's channel.
pub open spec fn relays_to<K, T>(slot: VoiceBinding, from: PeerAddr, sender: usize, conns: Seq<ConnectionEntry<K, T>>) -> bool {
    &&& slot.addr != from
    &&& first_with_id(conns, slot.id) is Some
    &&& channel_of(conns, slot.id) == channel_of(conns, sender)
}

/// The slots [`relay_targets`] picks are those that [`relays_to`] accepts, in order.
proof fn lemma_relay_filter<K, T>(slots: Seq<VoiceBinding>, from: PeerAddr, sender: usize, conns: Seq<ConnectionEntry<K, T>>)
    ensures
        relay_targets(slots, from, sender, conns) == slots.filter(|b: VoiceBinding| relays_to(b, from, sender, conns)).map_values(
            |b: VoiceBinding| (b.addr, b.id),
        ),
    decreases slots.len(),
{
    reveal(Seq::filter);
    let pred = |b: VoiceBinding| relays_to(b, from, sender, conns);
    if slots.len() == 0 {
        assert(slots.filter(pred).map_values(|b: VoiceBinding| (b.addr, b.id)) =~= Seq::<(PeerAddr, usize)>::empty());
    } else {
        let pre = slots.drop_last();
        lemma_relay_filter(pre, from, sender, conns);
        let last = slots.last();
        assert(channel_of(conns, last.id) is Some <==> first_with_id(conns, last.id) is Some);
        if pred(last) {
            assert(slots.filter(pred) == pre.filter(pred).push(last));
            assert(slots.filter(pred).map_values(|b: VoiceBinding| (b.addr, b.id)) =~= pre.filter(pred).map_values(
                |b: VoiceBinding| (b.addr, b.id),
            ).push((last.addr, last.id)));
        } else {
            assert(slots.filter(pred) == pre.filter(pred));
        }
    }
}

/// A voice packet goes to every slot it should go to and to no other: what [`relay_to`] returns
/// is the address and chat id of each slot that [`relays_to`] accepts, all of them, in the order
/// of the slots. In particular every peer in the sender's channel hears it, however many there
/// are.
pub proof fn law_relay_reaches_every_peer<K, T>(
    slots: Seq<VoiceBinding>,
    from: PeerAddr,
    sender: usize,
    conns: Seq<ConnectionEntry<K, T>>,
)
    ensures
        relay_targets(slots, from, sender, conns) == slots.filter(|b: VoiceBinding| relays_to(b, from, sender, conns)).map_values(
            |b: VoiceBinding| (b.addr, b.id),
        ),
        forall|k: int|
            0 <= k < slots.len() && relays_to(#[trigger] slots[k], from, sender, conns) ==> relay_targets(
                slots,
                from,
                sender,
                conns,
            ).contains((slots[k].addr, slots[k].id)),
        forall|t: int|
            #![trigger relay_targets(slots, from, sender, conns)[t]]
            0 <= t < relay_targets(slots, from, sender, conns).len() ==> exists|k: int|
                0 <= k < slots.len() && relays_to(#[trigger] slots[k], from, sender, conns) && relay_targets(
                    slots,
                    from,
                    sender,
                    conns,
                )[t] == (slots[k].addr, slots[k].id),
{
    let pred = |b: VoiceBinding| relays_to(b, from, sender, conns);
    lemma_relay_filter(slots, from, sender, conns);
    let f = slots.filter(pred);
    let r = relay_targets(slots, from, sender, conns);
    assert forall|k: int| 0 <= k < slots.len() && relays_to(#[trigger] slots[k], from, sender, conns) implies r.contains(
        (slots[k].addr, slots[k].id),
    ) by {
        slots.lemma_filter_contains(pred, k);
        let i = choose|i: int| 0 <= i < f.len() && f[i] == slots[k];
        assert(r[i] == (f[i].addr, f[i].id));
    }
    assert forall|t: int|
        #![trigger relay_targets(slots, from, sender, conns)[t]]
        0 <= t < relay_targets(slots, from, sender, conns).len() implies exists|k: int|
            0 <= k < slots.len() && relays_to(#[trigger] slots[k], from, sender, conns) && relay_targets(
                slots,
                from,
                sender,
                conns,
            )[t] == (slots[k].addr, slots[k].id) by {
        slots.lemma_filter_pred(pred, t);
        assert(f.contains(f[t]));
        slots.lemma_filter_contains_rev(pred, f[t]);
        let k = choose|k: int| 0 <= k < slots.len() && slots[k] == f[t];
        assert(r[t] == (f[t].addr, f[t].id));
        assert(relays_to(slots[k], from, sender, conns));
    }
}
} // verus!
