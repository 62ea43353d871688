//! Picking one entry of a list by what the user typed: a 1-based number or a name.

use vstd::prelude::*;

use crate::chat::role::{ascii_lower, chars_of, eq_ignore_ascii_case, lower_code, spec_trim, trim_bounds};

verus! {

/// Whether `c` is an ASCII decimal digit.
pub open spec fn is_digit(c: char) -> bool {
    '0' <= c <= '9'
}

/// The number that a string of decimal digits writes.
pub open spec fn digits_value(s: Seq<char>) -> int
    decreases s.len(),
{
    if s.len() == 0 {
        0
    } else {
        digits_value(s.drop_last()) * 10 + (s.last() as int - '0' as int)
    }
}

/// The digits of an unsigned number as `str::parse` reads them: one leading `+` is allowed.
pub open spec fn unsigned_digits(text: Seq<char>) -> Seq<char> {
    if text.len() > 0 && text[0] == '+' {
        text.drop_first()
    } else {
        text
    }
}

/// What `text.parse::<usize>()` gives: at least one decimal digit after an optional `+`, nothing
/// else, and a value that fits.
pub open spec fn spec_parse_usize(text: Seq<char>) -> Option<usize> {
    let d = unsigned_digits(text);
    if d.len() > 0 && (forall|i: int| 0 <= i < d.len() ==> is_digit(#[trigger] d[i])) && digits_value(d)
        <= usize::MAX {
        Some(digits_value(d) as usize)
    } else {
        None
    }
}

proof fn lemma_digits_nonneg(s: Seq<char>)
    requires
        forall|i: int| 0 <= i < s.len() ==> is_digit(#[trigger] s[i]),
    ensures
        digits_value(s) >= 0,
    decreases s.len(),
{
    if s.len() > 0 {
        lemma_digits_nonneg(s.drop_last());
        assert(is_digit(s[s.len() - 1]));
    }
}

/// A prefix of a digit string never writes a larger number than the whole.
proof fn lemma_digits_prefix(s: Seq<char>, k: int)
    requires
        0 <= k <= s.len(),
        forall|i: int| 0 <= i < s.len() ==> is_digit(#[trigger] s[i]),
    ensures
        digits_value(s.take(k)) <= digits_value(s),
    decreases s.len() - k,
{
    if k < s.len() {
        lemma_digits_prefix(s, k + 1);
        let t = s.take(k + 1);
        assert(t.drop_last() =~= s.take(k));
        assert forall|i: int| 0 <= i < t.drop_last().len() implies is_digit(#[trigger] t.drop_last()[i]) by {
            assert(t.drop_last()[i] == s[i]);
        }
        lemma_digits_nonneg(t.drop_last());
        assert(is_digit(s[k]));
    } else {
        assert(s.take(k) =~= s);
    }
}

/// Reads `chars[lo..hi]` as `str::parse::<usize>` reads a string (see [`spec_parse_usize`]).
pub fn parse_usize_range(chars: &Vec<char>, lo: usize, hi: usize) -> (r: Option<usize>)
    requires
        lo <= hi <= chars@.len(),
    ensures
        r == spec_parse_usize(chars@.subrange(lo as int, hi as int)),
{
    let ghost text = chars@.subrange(lo as int, hi as int);
    let mut start = lo;
    if lo < hi && chars[lo] == '+' {
        start = lo + 1;
    }
    let ghost d = unsigned_digits(text);
    assert(d =~= chars@.subrange(start as int, hi as int));
    if start == hi {
        return None;
    }
    let mut value: usize = 0;
    let mut i = start;
    while i < hi
        invariant
            lo <= start <= i <= hi <= chars@.len(),
            d == chars@.subrange(start as int, hi as int),
            d == unsigned_digits(chars@.subrange(lo as int, hi as int)),
            forall|j: int| 0 <= j < i - start ==> is_digit(#[trigger] d[j]),
            value == digits_value(d.take(i - start)),
        decreases hi - i,
    {
        let c = chars[i];
        let ghost k = i - start;
        assert(d[k] == c);
        if !('0' <= c && c <= '9') {
            assert(!is_digit(d[k]));
            return None;
        }
        proof {
            assert(d.take(k + 1).drop_last() =~= d.take(k));
        }
        let digit = (c as u32 - '0' as u32) as usize;
        let next = match value.checked_mul(10) {
            Some(v) => v.checked_add(digit),
            None => None,
        };
        match next {
            Some(v) => {
                value = v;
            },
            None => {
                proof {
                    assert(d.take(k + 1).last() == c);
                    assert(digits_value(d.take(k + 1)) == value * 10 + digit);
                    if forall|j: int| 0 <= j < d.len() ==> is_digit(#[trigger] d[j]) {
                        lemma_digits_prefix(d, k + 1);
                    }
                }
                return None;
            },
        }
        i = i + 1;
    }
    proof {
        assert(d.take(d.len() as int) =~= d);
    }
    Some(value)
}

/// `text.parse::<usize>()`, as [`spec_parse_usize`] states it.
pub fn parse_usize(text: &str) -> (r: Option<usize>)
    ensures
        r == spec_parse_usize(text@),
{
    let chars = chars_of(text);
    let r = parse_usize_range(&chars, 0, chars.len());
    proof {
        assert(chars@.subrange(0, chars@.len() as int) =~= text@);
    }
    r
}

/// The position of the first name equal to `wanted` up to ASCII case, if any.
pub open spec fn first_named(names: Seq<String>, wanted: Seq<char>) -> Option<int> {
    if exists|i: int| 0 <= i < names.len() && eq_ignore_ascii_case(names[i]@, wanted) {
        Some(
            choose|i: int|
                0 <= i < names.len() && eq_ignore_ascii_case(names[i]@, wanted) && forall|j: int|
                    0 <= j < i ==> !eq_ignore_ascii_case(#[trigger] names[j]@, wanted),
        )
    } else {
        None
    }
}

proof fn lemma_first_named(names: Seq<String>, wanted: Seq<char>, i: int)
    requires
        0 <= i < names.len(),
        eq_ignore_ascii_case(names[i]@, wanted),
        forall|j: int| 0 <= j < i ==> !eq_ignore_ascii_case(#[trigger] names[j]@, wanted),
    ensures
        first_named(names, wanted) == Some(i),
{
    let k = choose|k: int|
        0 <= k < names.len() && eq_ignore_ascii_case(names[k]@, wanted) && forall|j: int|
            0 <= j < k ==> !eq_ignore_ascii_case(#[trigger] names[j]@, wanted);
    assert(0 <= k < names.len() && eq_ignore_ascii_case(names[k]@, wanted) && forall|j: int|
        0 <= j < k ==> !eq_ignore_ascii_case(#[trigger] names[j]@, wanted));
    if k < i {
        assert(!eq_ignore_ascii_case(names[k]@, wanted));
    }
    if i < k {
        assert(!eq_ignore_ascii_case(names[i]@, wanted));
    }
}

/// Whether `a` and `b` are equal up to ASCII case (see [`eq_ignore_ascii_case`]).
fn same_ignoring_case(a: &Vec<char>, b: &Vec<char>) -> (r: bool)
    ensures
        r == eq_ignore_ascii_case(a@, b@),
{
    if a.len() != b.len() {
        return false;
    }
    let mut i: usize = 0;
    while i < a.len()
        invariant
            i <= a@.len(),
            a@.len() == b@.len(),
            forall|j: int| 0 <= j < i ==> ascii_lower(#[trigger] a@[j]) == ascii_lower(b@[j]),
        decreases a@.len() - i,
    {
        if lower_code(a[i]) != lower_code(b[i]) {
            return false;
        }
        i = i + 1;
    }
    true
}

/// The entry that `selection` picks out of `names`: its 1-based number, when `selection` reads
/// as one that is in range; otherwise the first name equal to it up to ASCII case; otherwise
/// none.
pub open spec fn spec_select(names: Seq<String>, selection: Seq<char>) -> Option<int> {
    let number = spec_parse_usize(selection);
    if number is Some && 1 <= number->0 <= names.len() {
        Some(number->0 - 1)
    } else {
        first_named(names, selection)
    }
}

/// Picks a monitor by what the user asked for, a 1-based number or a name (see
/// [`spec_select`]); `None` when nothing matches, and the caller lists what is available.
pub fn select_monitor(names: &Vec<String>, selection: &str) -> (r: Option<usize>)
    ensures
        match r {
            Some(i) => i < names@.len() && spec_select(names@, selection@) == Some(i as int),
            None => spec_select(names@, selection@) is None,
        },
{
    match parse_usize(selection) {
        Some(n) => {
            if n >= 1 && n <= names.len() {
                return Some(n - 1);
            }
        },
        None => {},
    }
    let wanted = chars_of(selection);
    let mut i: usize = 0;
    while i < names.len()
        invariant
            i <= names@.len(),
            wanted@ == selection@,
            !(spec_parse_usize(selection@) is Some && 1 <= spec_parse_usize(selection@)->0 <= names@.len()),
            forall|j: int| 0 <= j < i ==> !eq_ignore_ascii_case(#[trigger] names@[j]@, selection@),
        decreases names@.len() - i,
    {
        let name = chars_of(names[i].as_str());
        if same_ignoring_case(&name, &wanted) {
            proof {
                lemma_first_named(names@, selection@, i as int);
            }
            return Some(i);
        }
        i = i + 1;
    }
    None
}

/// The monitor shared when none was asked for: the first primary one, else the first one.
pub open spec fn spec_default_monitor(primary: Seq<bool>) -> int {
    if exists|i: int| 0 <= i < primary.len() && primary[i] {
        choose|i: int| 0 <= i < primary.len() && primary[i] && forall|j: int| 0 <= j < i ==> !primary[j]
    } else {
        0
    }
}

/// The monitor to share: `None` when there is no monitor; otherwise the one `selection` picks
/// (see [`select_monitor`]; `Err` when it picks none), or with no selection the default of
/// [`spec_default_monitor`], `primary` telling which monitors are primary.
pub fn target_monitor(names: &Vec<String>, primary: &Vec<bool>, selection: &Option<String>) -> (r: Option<
    Result<usize, ()>,
>)
    requires
        primary@.len() == names@.len(),
    ensures
        (r is None) <==> names@.len() == 0,
        r matches Some(Ok(i)) ==> i < names@.len() && match *selection {
            Some(s) => spec_select(names@, s@) == Some(i as int),
            None => i == spec_default_monitor(primary@),
        },
        r matches Some(Err(_)) ==> *selection matches Some(s) && spec_select(names@, s@) is None,
{
    if names.len() == 0 {
        return None;
    }
    match selection {
        Some(s) => match select_monitor(names, s.as_str()) {
            Some(i) => Some(Ok(i)),
            None => Some(Err(())),
        },
        None => {
            let mut i: usize = 0;
            while i < primary.len()
                invariant
                    i <= primary@.len(),
                    primary@.len() == names@.len(),
                    names@.len() > 0,
                    selection is None,
                    forall|j: int| 0 <= j < i ==> !primary@[j],
                decreases primary@.len() - i,
            {
                if primary[i] {
                    proof {
                        let k = choose|k: int|
                            0 <= k < primary@.len() && primary@[k] && forall|j: int| 0 <= j < k ==> !primary@[j];
                        assert(0 <= k < primary@.len() && primary@[k] && forall|j: int|
                            0 <= j < k ==> !primary@[j]);
                        if k < i {
                            assert(!primary@[k]);
                        }
                        if i < k {
                            assert(!primary@[i as int]);
                        }
                    }
                    return Some(Ok(i));
                }
                i = i + 1;
            }
            Some(Ok(0))
        },
    }
}

/// The entry of a list of `count` that a typed answer picks: the answer, once trimmed of
/// surrounding white space, must read as a number from 1 to `count` (see [`spec_parse_usize`]);
/// the position it names is returned.
pub open spec fn spec_parse_selection(input: Seq<char>, count: usize) -> Option<usize> {
    match spec_parse_usize(spec_trim(input)) {
        Some(n) if n != 0 && n - 1 < count => Some((n - 1) as usize),
        _ => None,
    }
}

/// Reads one answer to the device prompt (see [`spec_parse_selection`]); `None` asks again.
pub fn parse_selection(input: &str, count: usize) -> (r: Option<usize>)
    ensures
        r == spec_parse_selection(input@, count),
{
    let chars = chars_of(input);
    let (start, end) = trim_bounds(&chars);
    match parse_usize_range(&chars, start, end) {
        Some(n) => if n != 0 && n - 1 < count {
            Some(n - 1)
        } else {
            None
        },
        None => None,
    }
}

} // verus!
