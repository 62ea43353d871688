//! The server's budget of handshakes in progress: sockets that have connected but not yet
//! identified themselves. The budget is shared by all peers, and no single peer may hold more
//! than a fixed number of its slots.

use vstd::prelude::*;

use std::collections::HashMap;

verus! {

broadcast use vstd::std_specs::hash::group_hash_axioms;

/// Handshakes in progress: in all, and per peer address (an IPv6 address, IPv4 mapped into it).
pub struct HandshakeBudget {
    pub total: usize,
    pub per_ip: HashMap<u128, usize>,
}

/// The size of the whole budget: every allowed client, authenticated or not, times the
/// slots one peer may hold.
pub fn max_handshakes(max_clients: usize, max_unauth_clients: usize, per_ip_max: usize) -> (r: usize)
    requires
        max_clients + max_unauth_clients <= usize::MAX,
        (max_clients + max_unauth_clients) * per_ip_max <= usize::MAX,
    ensures
        r == (max_clients + max_unauth_clients) * per_ip_max,
{
    (max_clients + max_unauth_clients) * per_ip_max
}

/// The slots held by peer `ip`.
pub open spec fn slots_of(m: Map<u128, usize>, ip: u128) -> usize {
    if m.contains_key(ip) {
        m[ip]
    } else {
        0
    }
}

impl HandshakeBudget {
    /// An empty budget.
    pub fn new() -> (r: Self)
        ensures
            r.total == 0,
            r.per_ip@ == Map::<u128, usize>::empty(),
    {
        HandshakeBudget { total: 0, per_ip: HashMap::new() }
    }

    /// Takes a slot for a freshly accepted socket from peer `ip`. Refused (`false`) when `limit`
    /// handshakes are already in progress, or when the peer already holds `per_ip_max` slots;
    /// then only an empty entry for the peer may have been recorded. Otherwise the total and the
    /// peer's count grow by one.
    pub fn reserve(&mut self, ip: u128, limit: usize, per_ip_max: usize) -> (r: bool)
        requires
            old(self).total < usize::MAX,
            slots_of(old(self).per_ip@, ip) < usize::MAX,
        ensures
            r == (old(self).total < limit && slots_of(old(self).per_ip@, ip) < per_ip_max),
            r ==> final(self).total == old(self).total + 1 && final(self).per_ip@ == old(self).per_ip@.insert(
                ip,
                (slots_of(old(self).per_ip@, ip) + 1) as usize,
            ),
            !r ==> final(self).total == old(self).total && (final(self).per_ip@ == old(self).per_ip@ || (
            !old(self).per_ip@.contains_key(ip) && final(self).per_ip@ == old(self).per_ip@.insert(ip, 0))),
    {
        if self.total >= limit {
            return false;
        }
        let slots: usize = match self.per_ip.get(&ip) {
            Some(v) => *v,
            None => {
                self.per_ip.insert(ip, 0);
                0
            },
        };
        if slots >= per_ip_max {
            return false;
        }
        self.per_ip.insert(ip, slots + 1);
        self.total = self.total + 1;
        proof {
            if !old(self).per_ip@.contains_key(ip) {
                assert(old(self).per_ip@.insert(ip, 0usize).insert(ip, (slots + 1) as usize) =~= old(
                    self,
                ).per_ip@.insert(ip, (slots + 1) as usize));
            }
        }
        true
    }

    /// Gives back a slot of peer `ip`, whichever way its handshake ended: the total shrinks by
    /// one (wrapping), the peer's count by one (not below zero), and a peer left with no slot
    /// is forgotten.
    pub fn release(&mut self, ip: u128)
        ensures
            final(self).total == if old(self).total == 0 {
                usize::MAX
            } else {
                (old(self).total - 1) as usize
            },
            !old(self).per_ip@.contains_key(ip) ==> final(self).per_ip@ == old(self).per_ip@,
            old(self).per_ip@.contains_key(ip) && old(self).per_ip@[ip] <= 1 ==> final(self).per_ip@ == old(
                self,
            ).per_ip@.remove(ip),
            old(self).per_ip@.contains_key(ip) && old(self).per_ip@[ip] > 1 ==> final(self).per_ip@ == old(
                self,
            ).per_ip@.insert(ip, (old(self).per_ip@[ip] - 1) as usize),
    {
        self.total = self.total.wrapping_sub(1);
        let current: Option<usize> = match self.per_ip.get(&ip) {
            Some(v) => Some(*v),
            None => None,
        };
        match current {
            Some(v) => {
                let left = if v > 0 {
                    v - 1
                } else {
                    0
                };
                if left == 0 {
                    self.per_ip.remove(&ip);
                } else {
                    self.per_ip.insert(ip, left);
                }
            },
            None => {},
        }
    }
}

/// A slot taken and given back leaves the budget as it was: the same total, and the peer's
/// count as before (an absent peer stays absent).
pub proof fn law_reserve_release(total: usize, per_ip: Map<u128, usize>, ip: u128)
    requires
        total < usize::MAX,
        slots_of(per_ip, ip) < usize::MAX,
        per_ip.contains_key(ip) ==> per_ip[ip] > 0,
    ensures
        ({
            let taken = per_ip.insert(ip, (slots_of(per_ip, ip) + 1) as usize);
            let back = if taken[ip] <= 1 {
                taken.remove(ip)
            } else {
                taken.insert(ip, (taken[ip] - 1) as usize)
            };
            &&& (total + 1 - 1) == total
            &&& back == per_ip
        }),
{
    let taken = per_ip.insert(ip, (slots_of(per_ip, ip) + 1) as usize);
    if per_ip.contains_key(ip) {
        assert(taken.insert(ip, (taken[ip] - 1) as usize) =~= per_ip);
    } else {
        assert(taken.remove(ip) =~= per_ip);
    }
}

} // verus!
