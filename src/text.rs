//! Searching text and reading unsigned decimal numbers.
use vstd::prelude::*;

verus! {

/// Whether `text` holds `part` at position `i`.
pub open spec fn occurs_at(text: Seq<char>, part: Seq<char>, i: int) -> bool {
    0 <= i && i + part.len() <= text.len() && text.subrange(i, i + part.len()) == part
}

/// Whether `text` holds `part` at some position.
pub open spec fn contains_spec(text: Seq<char>, part: Seq<char>) -> bool {
    exists|i: int| #[trigger] occurs_at(text, part, i)
}

/// The first position at or after `i` where `text` holds `part`.
pub open spec fn find_from_spec(text: Seq<char>, part: Seq<char>, i: int) -> Option<int>
    decreases text.len() + 1 - i,
{
    if i < 0 || i + part.len() > text.len() {
        None
    } else if occurs_at(text, part, i) {
        Some(i)
    } else {
        find_from_spec(text, part, i + 1)
    }
}

proof fn lemma_find_from_none(text: Seq<char>, part: Seq<char>, i: int)
    requires
        0 <= i,
        find_from_spec(text, part, i) is None,
    ensures
        forall|k: int| i <= k ==> !#[trigger] occurs_at(text, part, k),
    decreases text.len() + 1 - i,
{
    if i + part.len() <= text.len() {
        lemma_find_from_none(text, part, i + 1);
    }
}

fn occurs_at_exec(text: &str, n: usize, part: &str, m: usize, i: usize) -> (r: bool)
    requires
        n == text@.len(),
        m == part@.len(),
        i + m <= n,
    ensures
        r == occurs_at(text@, part@, i as int),
{
    let mut j: usize = 0;
    while j < m
        invariant
            n == text@.len(),
            m == part@.len(),
            i + m <= n,
            j <= m,
            forall|t: int| 0 <= t < j ==> text@[i + t] == part@[t],
        decreases m - j,
    {
        if text.get_char(i + j) != part.get_char(j) {
            assert(text@.subrange(i as int, i + m)[j as int] != part@[j as int]);
            return false;
        }
        j = j + 1;
    }
    assert(text@.subrange(i as int, i + m) =~= part@);
    true
}

/// The first position at or after `from` where `text` holds `part`.
pub fn find_from(text: &str, part: &str, from: usize) -> (r: Option<usize>)
    ensures
        match find_from_spec(text@, part@, from as int) {
            Some(p) => r == Some(p as usize),
            None => r is None,
        },
{
    let n = text.unicode_len();
    let m = part.unicode_len();
    if m > n || from > n - m {
        return None;
    }
    if m == 0 {
        assert(text@.subrange(from as int, from as int) =~= part@);
        return Some(from);
    }
    let mut i = from;
    while i <= n - m
        invariant
            n == text@.len(),
            m == part@.len(),
            1 <= m <= n,
            from <= i <= n - m + 1,
            find_from_spec(text@, part@, from as int) == find_from_spec(text@, part@, i as int),
        decreases n - m + 1 - i,
    {
        if occurs_at_exec(text, n, part, m, i) {
            return Some(i);
        }
        i = i + 1;
    }
    None
}

/// Whether `text` holds `part` at some position.
pub fn contains(text: &str, part: &str) -> (r: bool)
    ensures
        r == contains_spec(text@, part@),
{
    let r = find_from(text, part, 0);
    proof {
        match find_from_spec(text@, part@, 0) {
            Some(p) => {
                lemma_find_from_some(text@, part@, 0);
                assert(occurs_at(text@, part@, p));
            },
            None => {
                lemma_find_from_none(text@, part@, 0);
            },
        }
    }
    r.is_some()
}

proof fn lemma_find_from_some(text: Seq<char>, part: Seq<char>, i: int)
    requires
        find_from_spec(text, part, i) is Some,
    ensures
        occurs_at(text, part, find_from_spec(text, part, i)->Some_0),
        i <= find_from_spec(text, part, i)->Some_0,
    decreases text.len() + 1 - i,
{
    if !(i < 0 || i + part.len() > text.len()) && !occurs_at(text, part, i) {
        lemma_find_from_some(text, part, i + 1);
    }
}

/// Whether `c` is a decimal digit.
pub open spec fn is_digit(c: char) -> bool {
    '0' <= c && c <= '9'
}

/// The value of the decimal digits `s`.
pub open spec fn digits_value(s: Seq<char>) -> int
    decreases s.len(),
{
    if s.len() == 0 {
        0
    } else {
        digits_value(s.drop_last()) * 10 + (s.last() as u32 - '0' as u32)
    }
}

/// Whether every character of `d` is a decimal digit.
pub open spec fn all_digits(d: Seq<char>) -> bool {
    forall|i: int| 0 <= i < d.len() ==> is_digit(#[trigger] d[i])
}

/// `s` without one leading `+`.
pub open spec fn unsigned_part(s: Seq<char>) -> Seq<char> {
    if s.len() > 0 && s[0] == '+' {
        s.subrange(1, s.len() as int)
    } else {
        s
    }
}

/// The value of `s` read as an unsigned decimal number at most `max`: an
/// optional `+`, then one or more digits and nothing else.
pub open spec fn parse_unsigned_spec(s: Seq<char>, max: int) -> Option<int> {
    let d = unsigned_part(s);
    if d.len() > 0 && all_digits(d) && digits_value(d) <= max {
        Some(digits_value(d))
    } else {
        None
    }
}

proof fn lemma_digits_grow(s: Seq<char>, k: int)
    requires
        0 <= k <= s.len(),
        all_digits(s),
    ensures
        digits_value(s) >= digits_value(s.subrange(0, k)),
        digits_value(s) >= 0,
    decreases s.len(),
{
    if s.len() > 0 {
        if k == s.len() {
            assert(s.subrange(0, k) =~= s);
            lemma_digits_grow(s.drop_last(), 0);
        } else {
            assert(s.drop_last().subrange(0, k) =~= s.subrange(0, k));
            lemma_digits_grow(s.drop_last(), k);
        }
    }
}

/// Reads `s` as an unsigned decimal number no larger than `u64::MAX`.
pub fn parse_u64(s: &str) -> (r: Option<u64>)
    ensures
        match parse_unsigned_spec(s@, u64::MAX as int) {
            Some(v) => r == Some(v as u64),
            None => r is None,
        },
{
    let n = s.unicode_len();
    let start: usize = if n > 0 && s.get_char(0) == '+' {
        1
    } else {
        0
    };
    let ghost d = unsigned_part(s@);
    assert(d =~= s@.subrange(start as int, n as int));
    if start >= n {
        return None;
    }
    let mut value: u64 = 0;
    let mut i = start;
    assert(d.subrange(0, 0) =~= Seq::<char>::empty());
    while i < n
        invariant
            n == s@.len(),
            start <= i <= n,
            d == s@.subrange(start as int, n as int),
            d == unsigned_part(s@),
            forall|t: int| 0 <= t < i - start ==> is_digit(#[trigger] d[t]),
            value == digits_value(d.subrange(0, i - start)),
        decreases n - i,
    {
        let c = s.get_char(i);
        assert(d[i - start] == c);
        if c < '0' || c > '9' {
            assert(!is_digit(d[i - start]));
            assert(!all_digits(d));
            assert(parse_unsigned_spec(s@, u64::MAX as int) is None);
            return None;
        }
        let digit = (c as u32 - '0' as u32) as u64;
        assert(d.subrange(0, i - start + 1).drop_last() =~= d.subrange(0, i - start));
        assert(d.subrange(0, i - start + 1).last() == c);
        assert(digits_value(d.subrange(0, i - start + 1)) == value * 10 + digit);
        assert(d.subrange(0, i - start + 1).drop_last() =~= d.subrange(0, i - start));
        match value.checked_mul(10) {
            Some(v10) => match v10.checked_add(digit) {
                Some(next) => {
                    value = next;
                },
                None => {
                    proof {
                        if all_digits(d) {
                            lemma_digits_grow(d, i - start + 1);
                        }
                        assert(parse_unsigned_spec(s@, u64::MAX as int) is None);
                    }
                    return None;
                },
            },
            None => {
                proof {
                    if all_digits(d) {
                        lemma_digits_grow(d, i - start + 1);
                        lemma_digits_grow(d.subrange(0, i - start), 0);
                    }
                }
                return None;
            },
        }
        i = i + 1;
    }
    assert(d.subrange(0, n - start) =~= d);
    Some(value)
}

/// Reads `s` as an unsigned decimal number no larger than `usize::MAX`.
pub fn parse_usize(s: &str) -> (r: Option<usize>)
    ensures
        match parse_unsigned_spec(s@, usize::MAX as int) {
            Some(v) => r == Some(v as usize),
            None => r is None,
        },
{
    let parsed = parse_u64(s);
    proof {
        let d = unsigned_part(s@);
        assert(usize::MAX as int <= u64::MAX as int);
        if parsed is Some {
            if d.len() > 0 && all_digits(d) {
                lemma_digits_grow(d, 0);
            }
            assert(parse_unsigned_spec(s@, u64::MAX as int) is Some);
            assert(digits_value(d) == parsed->Some_0 as int);
        }
    }
    match parsed {
        Some(v) => if v <= usize::MAX as u64 {
            Some(v as usize)
        } else {
            None
        },
        None => {
            proof {
                let d = unsigned_part(s@);
                if d.len() > 0 && all_digits(d) {
                    lemma_digits_grow(d, 0);
                }
            }
            None
        },
    }
}

} // verus!
