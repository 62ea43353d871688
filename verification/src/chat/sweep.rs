//! The server's periodic sweeps over its connections: keepalive rounds and detaching the
//! watchers of a share that ended.

use vstd::prelude::*;

verus! {

/// The positions `i` of `flags` with `flags[i] == want`, in order.
pub open spec fn positions(flags: Seq<bool>, want: bool) -> Seq<usize>
    decreases flags.len(),
{
    if flags.len() == 0 {
        Seq::empty()
    } else {
        let before = positions(flags.drop_last(), want);
        if flags.last() == want {
            before.push((flags.len() - 1) as usize)
        } else {
            before
        }
    }
}

/// What a keepalive round decides for the authenticated connections: which are dead, and
/// which are sent a keepalive.
pub struct KeepaliveRound {
    pub dead: Vec<usize>,
    pub pinged: Vec<usize>,
}

/// One keepalive round over the authenticated connections, `alive[i]` telling whether
/// connection `i` answered since the last round: a connection that did not is dead (the caller
/// disconnects it); every other one is sent a keepalive and counts as dead until it answers.
pub fn keepalive_round(alive: &mut Vec<bool>) -> (r: KeepaliveRound)
    ensures
        final(alive)@.len() == old(alive)@.len(),
        forall|i: int| 0 <= i < old(alive)@.len() ==> !(#[trigger] final(alive)@[i]),
        r.dead@ == positions(old(alive)@, false),
        r.pinged@ == positions(old(alive)@, true),
{
    let ghost start = alive@;
    let mut dead: Vec<usize> = Vec::new();
    let mut pinged: Vec<usize> = Vec::new();
    let mut i: usize = 0;
    while i < alive.len()
        invariant
            i <= alive@.len(),
            alive@.len() == start.len(),
            forall|j: int| 0 <= j < i ==> !(#[trigger] alive@[j]),
            forall|j: int| i <= j < alive@.len() ==> #[trigger] alive@[j] == start[j],
            dead@ == positions(start.take(i as int), false),
            pinged@ == positions(start.take(i as int), true),
        decreases alive@.len() - i,
    {
        proof {
            assert(start.take(i as int + 1).drop_last() =~= start.take(i as int));
        }
        if alive[i] {
            pinged.push(i);
            alive.set(i, false);
        } else {
            dead.push(i);
        }
        i = i + 1;
    }
    proof {
        assert(start.take(start.len() as int) =~= start);
    }
    KeepaliveRound { dead, pinged }
}

/// The positions `0, 1, ..., n - 1`.
pub open spec fn all_positions(n: nat) -> Seq<usize> {
    Seq::new(n, |i: int| i as usize)
}

proof fn lemma_positions_none_alive(n: nat)
    requires
        n <= usize::MAX + 1,
    ensures
        positions(Seq::new(n, |i: int| false), false) == all_positions(n),
    decreases n,
{
    if n > 0 {
        let flags = Seq::new(n, |i: int| false);
        assert(flags.drop_last() =~= Seq::new((n - 1) as nat, |i: int| false));
        lemma_positions_none_alive((n - 1) as nat);
        assert(all_positions((n - 1) as nat).push((n - 1) as usize) =~= all_positions(n));
    } else {
        assert(positions(Seq::new(n, |i: int| false), false) =~= all_positions(n));
    }
}

/// A connection that answers no keepalive is found dead by the next round: after a round, a
/// second round with no answer in between declares every connection dead and pings none.
pub proof fn law_unanswered_keepalive(alive: Seq<bool>)
    requires
        alive.len() <= usize::MAX,
    ensures
        ({
            let after = Seq::new(alive.len(), |i: int| false);
            &&& positions(after, false) == all_positions(alive.len())
            &&& positions(after, true) =~= Seq::<usize>::empty()
        }),
{
    let after = Seq::new(alive.len(), |i: int| false);
    lemma_positions_none_alive(alive.len());
    lemma_positions_none_true(alive.len());
}

proof fn lemma_positions_none_true(n: nat)
    ensures
        positions(Seq::new(n, |i: int| false), true) =~= Seq::<usize>::empty(),
    decreases n,
{
    if n > 0 {
        assert(Seq::new(n, |i: int| false).drop_last() =~= Seq::new((n - 1) as nat, |i: int| false));
        lemma_positions_none_true((n - 1) as nat);
    }
}

/// Detaches every watcher of the share of `sharer`: each connection whose attached share
/// (`attached[i]`, the sharer's chat id) is `sharer` is detached, and its position is returned,
/// in order, so the caller tells it the share ended. Other connections keep what they watch.
pub fn deattach(attached: &mut Vec<Option<usize>>, sharer: usize) -> (r: Vec<usize>)
    ensures
        final(attached)@.len() == old(attached)@.len(),
        forall|i: int|
            0 <= i < old(attached)@.len() ==> #[trigger] final(attached)@[i] == if old(attached)@[i] == Some(sharer) {
                None
            } else {
                old(attached)@[i]
            },
        r@ == positions(old(attached)@.map_values(|a: Option<usize>| a == Some(sharer)), true),
{
    let ghost start = attached@;
    let ghost flags = start.map_values(|a: Option<usize>| a == Some(sharer));
    let mut notified: Vec<usize> = Vec::new();
    let mut i: usize = 0;
    while i < attached.len()
        invariant
            i <= attached@.len(),
            attached@.len() == start.len(),
            flags == start.map_values(|a: Option<usize>| a == Some(sharer)),
            forall|j: int| 0 <= j < i ==> #[trigger] attached@[j] == if start[j] == Some(sharer) {
                None
            } else {
                start[j]
            },
            forall|j: int| i <= j < attached@.len() ==> #[trigger] attached@[j] == start[j],
            notified@ == positions(flags.take(i as int), true),
        decreases attached@.len() - i,
    {
        proof {
            assert(flags.take(i as int + 1).drop_last() =~= flags.take(i as int));
        }
        let watching = match attached[i] {
            Some(t) => t == sharer,
            None => false,
        };
        if watching {
            notified.push(i);
            attached.set(i, None);
        }
        i = i + 1;
    }
    proof {
        assert(flags.take(flags.len() as int) =~= flags);
    }
    notified
}

} // verus!
