//! The chat server's rules for admitting and keeping clients.

use vstd::prelude::*;

verus! {

/// Whether `c` may appear in a username: an ASCII letter or digit, `_` or `-`.
pub open spec fn username_char(c: char) -> bool {
    ('a' <= c <= 'z') || ('A' <= c <= 'Z') || ('0' <= c <= '9') || c == '_' || c == '-'
}

/// Whether a requested username is accepted: its length in bytes within the configured
/// bounds, only letters, digits, `_` and `-`, not in use by a connected client, and not the
/// server's own name.
pub open spec fn spec_username_acceptable(
    name: Seq<char>,
    min_len: usize,
    max_len: usize,
    in_use: bool,
    server_username: Seq<char>,
) -> bool {
    &&& min_len <= name.len() <= max_len
    &&& forall|i: int| 0 <= i < name.len() ==> username_char(#[trigger] name[i])
    &&& !in_use
    &&& name != server_username
}

/// Checks a requested username (see [`spec_username_acceptable`]); `in_use` tells whether a
/// connected client already has it.
pub fn username_acceptable(name: &str, min_len: usize, max_len: usize, in_use: bool, server_username: &str) -> (r: bool)
    ensures
        r == spec_username_acceptable(name@, min_len, max_len, in_use, server_username@),
{
    let chars = crate::chat::role::chars_of(name);
    let theirs = crate::chat::role::chars_of(server_username);
    let mut all_ok = true;
    let mut i: usize = 0;
    while i < chars.len()
        invariant
            i <= chars@.len(),
            all_ok == (forall|j: int| 0 <= j < i ==> username_char(#[trigger] chars@[j])),
        decreases chars@.len() - i,
    {
        let c = chars[i];
        let ok = ('a' <= c && c <= 'z') || ('A' <= c && c <= 'Z') || ('0' <= c && c <= '9') || c == '_' || c
            == '-';
        all_ok = all_ok && ok;
        i = i + 1;
    }
    let mut same = chars.len() == theirs.len();
    let mut k: usize = 0;
    if same {
        while k < chars.len()
            invariant
                chars@.len() == theirs@.len(),
                k <= chars@.len(),
                same == (forall|j: int| 0 <= j < k ==> chars@[j] == theirs@[j]),
            decreases chars@.len() - k,
        {
            same = same && chars[k] == theirs[k];
            k = k + 1;
        }
        proof {
            if same {
                assert(chars@ =~= theirs@);
            }
        }
    }
    let len = chars.len();
    len >= min_len && len <= max_len && all_ok && !in_use && !same
}

/// Whether a username (by its characters) is one of the connected clients' names.
pub fn user_connected(usernames: &Vec<String>, username: &str) -> (r: bool)
    ensures
        r == exists|i: int| 0 <= i < usernames@.len() && (#[trigger] usernames@[i])@ == username@,
{
    let mut i: usize = 0;
    let wanted = username.to_owned();
    while i < usernames.len()
        invariant
            i <= usernames@.len(),
            wanted@ == username@,
            forall|j: int| 0 <= j < i ==> (#[trigger] usernames@[j])@ != username@,
        decreases usernames@.len() - i,
    {
        if usernames[i] == wanted {
            return true;
        }
        i = i + 1;
    }
    false
}

/// The smallest id not taken by a connected client.
pub open spec fn smallest_free_id(ids: Seq<usize>, id: usize) -> bool {
    &&& !ids.contains(id)
    &&& forall|k: usize| k < id ==> ids.contains(k)
}

/// Hands out the smallest id that no connected client has.
pub fn get_latest_id(ids: &[usize]) -> (r: usize)
    requires
        ids@.len() < usize::MAX,
    ensures
        smallest_free_id(ids@, r),
{
    let mut candidate: usize = 0;
    loop
        invariant
            ids@.len() < usize::MAX,
            candidate <= ids@.len(),
            forall|k: usize| k < candidate ==> ids@.contains(k),
        decreases ids@.len() - candidate,
    {
        let mut taken = false;
        let mut j: usize = 0;
        while j < ids.len()
            invariant
                j <= ids@.len(),
                taken == (exists|t: int| 0 <= t < j && ids@[t] == candidate),
            decreases ids@.len() - j,
        {
            if ids[j] == candidate {
                taken = true;
            }
            j = j + 1;
        }
        if !taken {
            assert(!ids@.contains(candidate));
            return candidate;
        }
        proof {
            lemma_distinct_below(ids@, candidate as nat + 1);
        }
        candidate = candidate + 1;
    }
}

/// If every number below `n` occurs in `ids`, `ids` has at least `n` elements.
proof fn lemma_distinct_below(ids: Seq<usize>, n: nat)
    requires
        n <= usize::MAX,
        forall|k: usize| k < n ==> ids.contains(k),
    ensures
        ids.len() >= n,
{
    let wanted = Set::new(|k: usize| k < n);
    let have = ids.to_set();
    assert(wanted.subset_of(have));
    vstd::set_lib::lemma_len_subset(wanted, have);
    ids.lemma_cardinality_of_set();
    lemma_count_below(n);
}

/// There are `n` numbers below `n`.
proof fn lemma_count_below(n: nat)
    requires
        n <= usize::MAX,
    ensures
        Set::new(|k: usize| k < n).finite(),
        Set::new(|k: usize| k < n).len() == n,
    decreases n,
{
    if n == 0 {
        assert(Set::new(|k: usize| k < n) =~= Set::<usize>::empty());
    } else {
        lemma_count_below((n - 1) as nat);
        let smaller = Set::new(|k: usize| k < (n - 1) as nat);
        assert(Set::new(|k: usize| k < n) =~= smaller.insert((n - 1) as usize));
    }
}

/// Whether a connection has been idle too long: an authenticated client after
/// `communication_time` seconds without a counted packet, one still authenticating after
/// `max_auth_time` seconds since it connected. Times are in nanoseconds.
pub fn is_inactive(
    authenticated: bool,
    since_activity_nanos: u128,
    since_connect_nanos: u128,
    communication_time_secs: u64,
    max_auth_time_secs: u64,
) -> (r: bool)
    ensures
        r == if authenticated {
            since_activity_nanos > communication_time_secs as nat * 1_000_000_000
        } else {
            since_connect_nanos > max_auth_time_secs as nat * 1_000_000_000
        },
{
    if authenticated {
        since_activity_nanos > (communication_time_secs as u128) * 1_000_000_000u128
    } else {
        since_connect_nanos > (max_auth_time_secs as u128) * 1_000_000_000u128
    }
}

/// Whether a registration password is long enough, in bytes.
pub fn password_acceptable(password: &str, min_password_length: usize) -> (r: bool)
    ensures
        r == ((vstd::utf8::encode_utf8(password@).len() as usize) >= min_password_length),
{
    password.len() >= min_password_length
}

} // verus!
