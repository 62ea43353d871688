//! Ranks of registered users. The declaration order is the permission order: every gate in the
//! protocol is "at least this rank".

use vstd::prelude::*;

use std::cmp::Ordering;
use std::str::FromStr;
use vstd::std_specs::cmp::PartialOrdSpecImpl;
use vstd::string::group_string_axioms;

verus! {

/// A user's rank, lowest first.
#[derive(Clone, Copy, PartialEq, Eq, Structural, Ord, Debug, Hash)]
pub enum Role {
    /// What registering gives.
    User,
    /// May mute and kick.
    Moderator,
    /// Bans, the server configuration, and handing out ranks.
    Owner,
}

/// Position of a rank in the permission order.
pub open spec fn rank(role: Role) -> nat {
    match role {
        Role::User => 0,
        Role::Moderator => 1,
        Role::Owner => 2,
    }
}

/// The name a rank is typed, stored and shown by.
pub open spec fn role_name(role: Role) -> Seq<char> {
    match role {
        Role::User => "user"@,
        Role::Moderator => "moderator"@,
        Role::Owner => "owner"@,
    }
}

impl PartialOrd for Role {
    fn partial_cmp(&self, other: &Role) -> (r: Option<Ordering>) {
        let a = self.rank_value();
        let b = other.rank_value();
        if a < b {
            Some(Ordering::Less)
        } else if a > b {
            Some(Ordering::Greater)
        } else {
            Some(Ordering::Equal)
        }
    }
}

impl PartialOrdSpecImpl for Role {
    open spec fn obeys_partial_cmp_spec() -> bool {
        true
    }

    open spec fn partial_cmp_spec(&self, other: &Role) -> Option<Ordering> {
        if rank(*self) < rank(*other) {
            Some(Ordering::Less)
        } else if rank(*self) > rank(*other) {
            Some(Ordering::Greater)
        } else {
            Some(Ordering::Equal)
        }
    }
}

impl Default for Role {
    /// The lowest rank.
    fn default() -> (r: Self)
        ensures
            r == Role::User,
    {
        Role::User
    }
}

impl Role {
    fn rank_value(&self) -> (r: u8)
        ensures
            r == rank(*self),
    {
        match self {
            Role::User => 0,
            Role::Moderator => 1,
            Role::Owner => 2,
        }
    }

    /// The name this rank is typed, stored and shown by.
    pub fn name(&self) -> (r: &'static str)
        ensures
            r@ == role_name(*self),
    {
        match self {
            Role::User => "user",
            Role::Moderator => "moderator",
            Role::Owner => "owner",
        }
    }

    /// Every rank, lowest first.
    pub fn all() -> (r: [Role; 3])
        ensures
            r@ == seq![Role::User, Role::Moderator, Role::Owner],
    {
        [Role::User, Role::Moderator, Role::Owner]
    }
}

/// Whether `c` has the Unicode `White_Space` property, which is what `char::is_whitespace` and
/// `str::trim` go by.
pub open spec fn is_white_space(c: char) -> bool {
    let v = c as u32;
    ||| 0x09 <= v <= 0x0D
    ||| v == 0x20
    ||| v == 0x85
    ||| v == 0xA0
    ||| v == 0x1680
    ||| 0x2000 <= v <= 0x200A
    ||| v == 0x2028
    ||| v == 0x2029
    ||| v == 0x202F
    ||| v == 0x205F
    ||| v == 0x3000
}

/// `s` without its leading white space.
pub open spec fn trim_start(s: Seq<char>) -> Seq<char>
    decreases s.len(),
{
    if s.len() > 0 && is_white_space(s[0]) {
        trim_start(s.drop_first())
    } else {
        s
    }
}

/// `s` without its trailing white space.
pub open spec fn trim_end(s: Seq<char>) -> Seq<char>
    decreases s.len(),
{
    if s.len() > 0 && is_white_space(s.last()) {
        trim_end(s.drop_last())
    } else {
        s
    }
}

/// `s` without leading and trailing white space, as `str::trim` gives it.
pub open spec fn spec_trim(s: Seq<char>) -> Seq<char> {
    trim_end(trim_start(s))
}

/// The ASCII lowercase of a character; other characters are kept.
pub open spec fn ascii_lower(c: char) -> u32 {
    if 'A' <= c <= 'Z' {
        (c as u32 + 32) as u32
    } else {
        c as u32
    }
}

/// Whether two strings are equal once ASCII letters are lowercased, as
/// `str::eq_ignore_ascii_case` compares them.
pub open spec fn eq_ignore_ascii_case(a: Seq<char>, b: Seq<char>) -> bool {
    a.len() == b.len() && forall|i: int| 0 <= i < a.len() ==> ascii_lower(#[trigger] a[i]) == ascii_lower(b[i])
}

/// Whether `text` names `role`: its name, ignoring surrounding white space and ASCII case.
pub open spec fn names_role(text: Seq<char>, role: Role) -> bool {
    eq_ignore_ascii_case(role_name(role), spec_trim(text))
}

/// Whether `c` is white space (see [`is_white_space`]).
pub fn white_space(c: char) -> (r: bool)
    ensures
        r == is_white_space(c),
{
    let v = c as u32;
    (0x09 <= v && v <= 0x0D) || v == 0x20 || v == 0x85 || v == 0xA0 || v == 0x1680 || (0x2000 <= v && v
        <= 0x200A) || v == 0x2028 || v == 0x2029 || v == 0x202F || v == 0x205F || v == 0x3000
}

/// The code of `c` with ASCII letters lowercased (see [`ascii_lower`]).
pub fn lower_code(c: char) -> (r: u32)
    ensures
        r == ascii_lower(c),
{
    if 'A' <= c && c <= 'Z' {
        c as u32 + 32
    } else {
        c as u32
    }
}

/// The characters of a string.
pub fn chars_of(text: &str) -> (r: Vec<char>)
    ensures
        r@ == text@,
{
    broadcast use group_string_axioms;

    let mut chars: Vec<char> = Vec::new();
    for c in it: text.chars()
        invariant
            chars@ == it.seq().take(it.index()),
    {
        chars.push(c);
    }
    chars
}

proof fn lemma_trim_start_skip(s: Seq<char>, k: int)
    requires
        0 <= k <= s.len(),
        forall|i: int| 0 <= i < k ==> is_white_space(#[trigger] s[i]),
    ensures
        trim_start(s) == trim_start(s.skip(k)),
    decreases k,
{
    if k > 0 {
        assert(s.skip(1) =~= s.drop_first());
        lemma_trim_start_skip(s.drop_first(), k - 1);
        assert(s.drop_first().skip(k - 1) =~= s.skip(k));
    } else {
        assert(s.skip(0) =~= s);
    }
}

proof fn lemma_trim_end_take(s: Seq<char>, k: int)
    requires
        0 <= k <= s.len(),
        forall|i: int| k <= i < s.len() ==> is_white_space(#[trigger] s[i]),
    ensures
        trim_end(s) == trim_end(s.take(k)),
    decreases s.len() - k,
{
    if k < s.len() {
        assert(s.take(s.len() - 1) =~= s.drop_last());
        lemma_trim_end_take(s.drop_last(), k);
        assert(s.drop_last().take(k) =~= s.take(k));
    } else {
        assert(s.take(k) =~= s);
    }
}

/// Where the text of `chars` starts and ends once leading and trailing white space is cut off,
/// as `str::trim` cuts it.
pub fn trim_bounds(chars: &Vec<char>) -> (r: (usize, usize))
    ensures
        r.0 <= r.1 <= chars@.len(),
        chars@.subrange(r.0 as int, r.1 as int) == spec_trim(chars@),
{
    let n = chars.len();
    let mut start: usize = 0;
    while start < n && white_space(chars[start])
        invariant
            start <= n,
            n == chars@.len(),
            forall|i: int| 0 <= i < start ==> is_white_space(#[trigger] chars@[i]),
        decreases n - start,
    {
        start = start + 1;
    }
    let mut end: usize = n;
    while end > start && white_space(chars[end - 1])
        invariant
            start <= end <= n,
            n == chars@.len(),
            forall|i: int| end <= i < n ==> is_white_space(#[trigger] chars@[i]),
        decreases end - start,
    {
        end = end - 1;
    }
    let ghost s = chars@;
    proof {
        lemma_trim_start_skip(s, start as int);
        assert(trim_start(s.skip(start as int)) == s.skip(start as int));
        let t = s.skip(start as int);
        assert forall|i: int| end - start <= i < t.len() implies is_white_space(#[trigger] t[i]) by {
            assert(t[i] == s[start + i]);
        }
        lemma_trim_end_take(t, end - start);
        assert(t.take(end - start) =~= s.subrange(start as int, end as int));
        assert(trim_end(s.subrange(start as int, end as int)) == s.subrange(start as int, end as int));
    }
    (start, end)
}

/// The rank that `text` names (see [`names_role`]), if any.
pub fn parse_role(text: &str) -> (r: Option<Role>)
    ensures
        forall|role: Role| (r == Some(role)) <==> names_role(text@, role),
{
    let chars = chars_of(text);
    let n = chars.len();
    let (start, end) = trim_bounds(&chars);
    let ghost s = chars@;
    proof {
        reveal_strlit("user");
        reveal_strlit("moderator");
        reveal_strlit("owner");
    }
    let ghost trimmed = s.subrange(start as int, end as int);
    assert(spec_trim(text@) == trimmed);
    let roles = Role::all();
    let mut k: usize = 0;
    while k < 3
        invariant
            k <= 3,
            roles@ == seq![Role::User, Role::Moderator, Role::Owner],
            start <= end <= n,
            n == chars@.len(),
            trimmed == chars@.subrange(start as int, end as int),
            spec_trim(text@) == trimmed,
            forall|j: int| 0 <= j < k ==> !names_role(text@, #[trigger] roles@[j]),
        decreases 3 - k,
    {
        let role = roles[k];
        let name = chars_of(role.name());
        if name.len() == end - start {
            let mut i: usize = 0;
            let mut same = true;
            while i < name.len()
                invariant
                    i <= name@.len(),
                    name@.len() == end - start,
                    start <= end <= n,
                    n == chars@.len(),
                    same == (forall|j: int| 0 <= j < i ==> ascii_lower(#[trigger] name@[j]) == ascii_lower(
                        chars@[start + j],
                    )),
                decreases name@.len() - i,
            {
                let a = lower_code(name[i]);
                let b = lower_code(chars[start + i]);
                same = same && a == b;
                i = i + 1;
            }
            if same {
                proof {
                    assert forall|j: int| 0 <= j < name@.len() implies ascii_lower(#[trigger] name@[j])
                        == ascii_lower(trimmed[j]) by {
                        assert(ascii_lower(name@[j]) == ascii_lower(chars@[start + j]));
                    }
                    reveal_strlit("user");
                    reveal_strlit("moderator");
                    reveal_strlit("owner");
                    assert forall|other: Role| names_role(text@, other) implies other == role by {
                        assert(role_name(other).len() == role_name(role).len());
                    }
                }
                return Some(role);
            }
            proof {
                assert(!names_role(text@, role)) by {
                    if names_role(text@, role) {
                        let j = choose|j: int| 0 <= j < name@.len() && ascii_lower(name@[j]) != ascii_lower(
                            chars@[start + j],
                        );
                        assert(ascii_lower(role_name(role)[j]) == ascii_lower(trimmed[j]));
                    }
                }
            }
        }
        k = k + 1;
    }
    None
}

impl FromStr for Role {
    type Err = ();

    /// A rank from its name, ignoring surrounding white space and ASCII case (see
    /// [`parse_role`]).
    fn from_str(text: &str) -> (r: Result<Self, Self::Err>)
        ensures
            forall|role: Role| (r == Ok::<Role, ()>(role)) <==> names_role(text@, role),
            r is Err <==> forall|role: Role| !names_role(text@, role),
    {
        match parse_role(text) {
            Some(role) => {
                assert(names_role(text@, role));
                Ok(role)
            },
            None => Err(()),
        }
    }
}

/// Ranks are ordered as declared: a user is below a moderator, who is below an owner.
pub proof fn law_rank_order()
    ensures
        rank(Role::User) < rank(Role::Moderator),
        rank(Role::Moderator) < rank(Role::Owner),
        forall|a: Role, b: Role| rank(a) == rank(b) ==> a == b,
{
}

} // verus!
