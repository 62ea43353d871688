//! The voice client's roster of remote speakers.

use vstd::prelude::*;

use std::collections::HashMap;

use crate::chat::role::chars_of;
use crate::chat::sfx::{queue_effect, ActiveEffect, EffectQueue, SoundEffect};

verus! {

broadcast use vstd::std_specs::hash::group_hash_axioms;

/// One audio device as the settings show it: `id` is what the configuration stores and what
/// devices are matched on; `label` is only displayed.
#[derive(Clone)]
pub struct AudioDevice {
    pub id: String,
    pub label: String,
}

/// A user in the voice roster.
pub struct VoiceUser {
    pub id: usize,
    pub username: String,
    pub is_speaking: bool,
    /// Round-trip time.
    pub latency: u128,
    /// Whether this is the local user.
    pub is_local: bool,
}

/// Removes the speaker `id`; when it was there, the leave sound plays.
pub fn remove_consumer<C>(consumers: &mut HashMap<usize, C>, effects: &mut EffectQueue, id: &usize)
    ensures
        final(consumers)@ == old(consumers)@.remove(*id),
        old(consumers)@.contains_key(*id) ==> final(effects).effects@ == old(effects).effects@.push(
            ActiveEffect { effect: SoundEffect::Leave, position: 0 },
        ),
        !old(consumers)@.contains_key(*id) ==> final(effects).effects@ == old(effects).effects@,
{
    if consumers.remove(id).is_some() {
        queue_effect(effects, SoundEffect::Leave);
    }
}

/// Removes every speaker (on a channel change) and plays the join sound.
pub fn remove_all_consumers<C>(consumers: &mut HashMap<usize, C>, effects: &mut EffectQueue)
    ensures
        final(consumers)@ == Map::<usize, C>::empty(),
        final(effects).effects@ == old(effects).effects@.push(ActiveEffect { effect: SoundEffect::Join, position: 0 }),
{
    consumers.clear();
    queue_effect(effects, SoundEffect::Join);
}

/// Adds the speaker `id` with its freshly opened stream (replacing any stream it had), and
/// plays the join sound.
pub fn add_consumer<C>(consumers: &mut HashMap<usize, C>, effects: &mut EffectQueue, id: usize, consumer: C)
    ensures
        final(consumers)@ == old(consumers)@.insert(id, consumer),
        final(effects).effects@ == old(effects).effects@.push(ActiveEffect { effect: SoundEffect::Join, position: 0 }),
{
    consumers.insert(id, consumer);
    queue_effect(effects, SoundEffect::Join);
}

/// Whether the users of `s` come in order of their ids.
pub open spec fn sorted_by_id(s: Seq<VoiceUser>) -> bool {
    forall|i: int, j: int| 0 <= i < j < s.len() ==> (#[trigger] s[i]).id <= (#[trigger] s[j]).id
}

/// Where `id` goes among users ordered by id: after every user whose id is not larger.
fn insertion_point(sorted: &Vec<VoiceUser>, id: usize) -> (r: usize)
    requires
        sorted_by_id(sorted@),
    ensures
        r <= sorted@.len(),
        forall|i: int| 0 <= i < r ==> (#[trigger] sorted@[i]).id <= id,
        forall|i: int| r <= i < sorted@.len() ==> (#[trigger] sorted@[i]).id > id,
{
    let mut p: usize = 0;
    while p < sorted.len() && sorted[p].id <= id
        invariant
            p <= sorted@.len(),
            sorted_by_id(sorted@),
            forall|i: int| 0 <= i < p ==> (#[trigger] sorted@[i]).id <= id,
        decreases sorted@.len() - p,
    {
        p = p + 1;
    }
    proof {
        if p < sorted@.len() {
            assert forall|i: int| p <= i < sorted@.len() implies (#[trigger] sorted@[i]).id > id by {
                if i > p {
                    assert(sorted@[p as int].id <= sorted@[i].id);
                }
            }
        }
    }
    p
}

/// The voice roster as it is shown: the local user first, then the others in order of their ids.
pub fn order_speakers(local: VoiceUser, others: Vec<VoiceUser>) -> (r: Vec<VoiceUser>)
    ensures
        r@.len() == others@.len() + 1,
        r@[0] == local,
        sorted_by_id(r@.drop_first()),
        r@.drop_first().to_multiset() == others@.to_multiset(),
{
    broadcast use {vstd::seq_lib::group_to_multiset_ensures, vstd::multiset::group_multiset_axioms};

    let mut rest = others;
    let mut sorted: Vec<VoiceUser> = Vec::new();
    while rest.len() > 0
        invariant
            sorted_by_id(sorted@),
            rest@.to_multiset().add(sorted@.to_multiset()) == others@.to_multiset(),
            rest@.len() + sorted@.len() == others@.len(),
        decreases rest@.len(),
    {
        let ghost before_rest = rest@;
        let ghost before_sorted = sorted@;
        let user = rest.pop().unwrap();
        let p = insertion_point(&sorted, user.id);
        let ghost uid = user.id;
        sorted.insert(p, user);
        proof {
            assert(before_rest =~= rest@.push(user));
            assert(sorted@ =~= before_sorted.insert(p as int, user));
            assert forall|i: int, j: int| 0 <= i < j < sorted@.len() implies (#[trigger] sorted@[i]).id
                <= (#[trigger] sorted@[j]).id by {
                if j < p {
                    assert(sorted@[i] == before_sorted[i] && sorted@[j] == before_sorted[j]);
                } else if j == p {
                    assert(sorted@[i] == before_sorted[i]);
                } else if i == p {
                    assert(sorted@[j] == before_sorted[j - 1]);
                } else if i < p {
                    assert(sorted@[i] == before_sorted[i] && sorted@[j] == before_sorted[j - 1]);
                } else {
                    assert(sorted@[i] == before_sorted[i - 1] && sorted@[j] == before_sorted[j - 1]);
                }
            }
            vstd::seq_lib::to_multiset_build(rest@, user);
            vstd::seq_lib::to_multiset_insert(before_sorted, p as int, user);
            assert(rest@.to_multiset().add(sorted@.to_multiset()) =~= before_rest.to_multiset().add(
                before_sorted.to_multiset(),
            ));
        }
    }
    let mut roster: Vec<VoiceUser> = Vec::new();
    roster.push(local);
    let ghost tail = sorted@;
    roster.append(&mut sorted);
    proof {
        assert(roster@.drop_first() =~= tail);
        assert(rest@ =~= Seq::<VoiceUser>::empty());
        assert(rest@.to_multiset().add(tail.to_multiset()) =~= tail.to_multiset());
    }
    roster
}

/// Whether `p` starts `s` at position `at`.
pub open spec fn text_at(s: Seq<char>, at: int, p: Seq<char>) -> bool {
    0 <= at && at + p.len() <= s.len() && s.subrange(at, at + p.len()) == p
}

/// Whether `p` occurs somewhere in `s`.
pub open spec fn contains_text(s: Seq<char>, p: Seq<char>) -> bool {
    exists|at: int| text_at(s, at, p)
}

/// Whether a device, by its host-qualified id, is worth offering (the rule the Linux build
/// follows): a device of a host other than ALSA always is; of ALSA's devices (`alsa:` and the
/// PCM name) the `null` device never is, a plugin without a card (such as `default` or
/// `pipewire`) always is, and a device of a card is only when cards are ours to open (`cards`,
/// false once a sound server holds them) and it goes through `plughw:`.
pub open spec fn spec_is_usable(id: Seq<char>, cards: bool) -> bool {
    if !text_at(id, 0, "alsa:"@) {
        true
    } else {
        let pcm = id.skip(5);
        if pcm == "null"@ {
            false
        } else if !contains_text(pcm, "CARD="@) {
            true
        } else {
            cards && text_at(pcm, 0, "plughw:"@)
        }
    }
}

/// Whether `p` starts `s` at position `at` (see [`text_at`]).
fn has_text_at(s: &Vec<char>, at: usize, p: &Vec<char>) -> (r: bool)
    ensures
        r == text_at(s@, at as int, p@),
{
    if at > s.len() || p.len() > s.len() - at {
        return false;
    }
    let n = s.len();
    let mut i: usize = 0;
    while i < p.len()
        invariant
            i <= p@.len(),
            n == s@.len(),
            at + p@.len() <= s@.len(),
            forall|j: int| 0 <= j < i ==> s@[at + j] == p@[j],
        decreases p@.len() - i,
    {
        if s[at + i] != p[i] {
            assert(s@.subrange(at as int, at + p@.len())[i as int] != p@[i as int]);
            return false;
        }
        i = i + 1;
    }
    assert(s@.subrange(at as int, at + p@.len()) =~= p@);
    true
}

/// Whether a device is worth offering (see [`spec_is_usable`]).
pub fn is_usable(id: &str, cards: bool) -> (r: bool)
    ensures
        r == spec_is_usable(id@, cards),
{
    let s = chars_of(id);
    let alsa = chars_of("alsa:");
    let null = chars_of("null");
    let card = chars_of("CARD=");
    let plughw = chars_of("plughw:");
    proof {
        reveal_strlit("alsa:");
        reveal_strlit("null");
        reveal_strlit("CARD=");
        reveal_strlit("plughw:");
    }
    if !has_text_at(&s, 0, &alsa) {
        return true;
    }
    let ghost pcm = s@.skip(5);
    if s.len() == 9 && has_text_at(&s, 5, &null) {
        assert(pcm =~= s@.subrange(5, 9));
        return false;
    }
    proof {
        if pcm == "null"@ {
            assert(s@.subrange(5, 9) =~= pcm);
        }
    }
    let mut at: usize = 5;
    let mut found = false;
    while at < s.len() && !found
        invariant
            5 <= at <= s@.len(),
            pcm == s@.skip(5),
            found ==> contains_text(pcm, card@),
            !found ==> forall|k: int| 0 <= k < at - 5 ==> !text_at(pcm, k, card@),
        decreases s@.len() - at + if found { 0int } else { 1int },
    {
        if has_text_at(&s, at, &card) {
            proof {
                assert(pcm.subrange(at - 5, at - 5 + card@.len()) =~= s@.subrange(at as int, at + card@.len()));
                assert(text_at(pcm, at - 5, card@));
            }
            found = true;
        } else {
            proof {
                if text_at(pcm, at - 5, card@) {
                    assert(pcm.subrange(at - 5, at - 5 + card@.len()) =~= s@.subrange(at as int, at + card@.len()));
                }
            }
            at = at + 1;
        }
    }
    if !found {
        proof {
            assert forall|k: int| !text_at(pcm, k, card@) by {
                if 0 <= k && k + card@.len() <= pcm.len() {
                    assert(k < at - 5);
                }
            }
        }
        return true;
    }
    let plug = has_text_at(&s, 5, &plughw);
    proof {
        if 5 + plughw@.len() <= s@.len() {
            assert(pcm.subrange(0, plughw@.len() as int) =~= s@.subrange(5, 5 + plughw@.len() as int));
        }
    }
    cards && plug
}

} // verus!
