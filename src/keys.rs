//! What the client reads out of key inspection replies, and the small
//! decisions of its commands: key types, list sides, trim strategies,
//! command words and page bounds.
use vstd::prelude::*;
use vstd::string::*;
use crate::text::{find_from, find_from_spec, parse_usize, parse_unsigned_spec};

verus! {

/// Whether `c` has the Unicode `White_Space` property.
pub open spec fn is_white_space(c: char) -> bool {
    let u = c as u32;
    (0x09 <= u && u <= 0x0D) || u == 0x20 || u == 0x85 || u == 0xA0 || u == 0x1680 || (0x2000
        <= u && u <= 0x200A) || u == 0x2028 || u == 0x2029 || u == 0x202F || u == 0x205F || u
        == 0x3000
}

/// Whether `c` has the Unicode `White_Space` property.
pub fn white_space(c: char) -> (r: bool)
    ensures
        r == is_white_space(c),
{
    let u = c as u32;
    (0x09 <= u && u <= 0x0D) || u == 0x20 || u == 0x85 || u == 0xA0 || u == 0x1680 || (0x2000
        <= u && u <= 0x200A) || u == 0x2028 || u == 0x2029 || u == 0x202F || u == 0x205F || u
        == 0x3000
}

/// The words finished within the first `i` characters of `s`, and the word
/// under way after them.
pub open spec fn scan_words(s: Seq<char>, i: nat) -> (Seq<Seq<char>>, Seq<char>)
    decreases i,
{
    if i == 0 {
        (Seq::empty(), Seq::empty())
    } else {
        let (done, cur) = scan_words(s, (i - 1) as nat);
        let c = s[i - 1];
        if is_white_space(c) {
            if cur.len() > 0 {
                (done.push(cur), Seq::empty())
            } else {
                (done, Seq::empty())
            }
        } else {
            (done, cur.push(c))
        }
    }
}

/// The words of `s`: its maximal runs of characters that are not white
/// space, in order.
pub open spec fn words_spec(s: Seq<char>) -> Seq<Seq<char>> {
    let (done, cur) = scan_words(s, s.len());
    if cur.len() > 0 {
        done.push(cur)
    } else {
        done
    }
}

/// Views of a list of strings.
pub open spec fn string_views(v: Seq<String>) -> Seq<Seq<char>> {
    v.map_values(|w: String| w@)
}

/// Splits `s` into its words.
pub fn split_words(s: &str) -> (r: Vec<String>)
    ensures
        string_views(r@) == words_spec(s@),
{
    let n = s.unicode_len();
    let mut done: Vec<String> = Vec::new();
    let mut cur = String::new();
    let mut i: usize = 0;
    assert(string_views(done@) =~= Seq::<Seq<char>>::empty());
    while i < n
        invariant
            n == s@.len(),
            i <= n,
            (string_views(done@), cur@) == scan_words(s@, i as nat),
        decreases n - i,
    {
        let ghost before = done@;
        let c = s.get_char(i);
        if white_space(c) {
            if cur.unicode_len() > 0 {
                let word = cur;
                done.push(word);
                assert(string_views(done@) =~= string_views(before).push(word@));
                cur = String::new();
            }
        } else {
            let one = s.substring_char(i, i + 1);
            cur.append(one);
            assert(one@ =~= seq![c]);
        }
        i = i + 1;
    }
    if cur.unicode_len() > 0 {
        let ghost before = done@;
        let word = cur;
        done.push(word);
        assert(string_views(done@) =~= string_views(before).push(word@));
    }
    done
}

/// Whether `w` begins with `key`.
pub open spec fn has_prefix(w: Seq<char>, key: Seq<char>) -> bool {
    key.len() <= w.len() && w.subrange(0, key.len() as int) == key
}

/// The first of the words from the `i`th on that begins with `key`, with
/// `key` taken off.
pub open spec fn keyed_from(words: Seq<Seq<char>>, key: Seq<char>, i: int) -> Option<Seq<char>>
    decreases words.len() - i,
{
    if i < 0 || i >= words.len() {
        None
    } else if has_prefix(words[i], key) {
        Some(words[i].subrange(key.len() as int, words[i].len() as int))
    } else {
        keyed_from(words, key, i + 1)
    }
}

fn starts_with(w: &str, key: &str) -> (r: bool)
    ensures
        r == has_prefix(w@, key@),
{
    let n = w.unicode_len();
    let m = key.unicode_len();
    if m > n {
        return false;
    }
    let mut j: usize = 0;
    while j < m
        invariant
            n == w@.len(),
            m == key@.len(),
            m <= n,
            j <= m,
            forall|t: int| 0 <= t < j ==> w@[t] == key@[t],
        decreases m - j,
    {
        if w.get_char(j) != key.get_char(j) {
            assert(w@.subrange(0, m as int)[j as int] != key@[j as int]);
            return false;
        }
        j = j + 1;
    }
    assert(w@.subrange(0, m as int) =~= key@);
    true
}

/// The value of the field `key` in a `key:value` listing such as the
/// reply to DEBUG OBJECT: what follows `key` in the first word that
/// begins with it.
pub fn field_value(info: &str, key: &str) -> (r: Option<String>)
    ensures
        match keyed_from(words_spec(info@), key@, 0) {
            Some(v) => r is Some && r->Some_0@ == v,
            None => r is None,
        },
{
    let words = split_words(info);
    let ghost ws = words_spec(info@);
    assert(ws.len() == words@.len());
    let mut i: usize = 0;
    while i < words.len()
        invariant
            i <= words@.len(),
            string_views(words@) == ws,
            ws == words_spec(info@),
            keyed_from(ws, key@, 0) == keyed_from(ws, key@, i as int),
        decreases words@.len() - i,
    {
        assert(ws[i as int] == words@[i as int]@);
        if starts_with(words[i].as_str(), key) {
            let n = words[i].unicode_len();
            let m = key.unicode_len();
            let rest = words[i].as_str().substring_char(m, n);
            return Some(String::from_str(rest));
        }
        i = i + 1;
    }
    None
}

/// Object details read from the reply to DEBUG OBJECT.
#[derive(Clone, Debug)]
pub struct ObjectDetails {
    pub encoding: Option<String>,
    pub refcount: Option<usize>,
}

/// The encoding and reference count in a DEBUG OBJECT reply; the count
/// is absent when its field is missing or does not read as a number.
pub fn parse_debug_object(info: &str) -> (r: ObjectDetails)
    ensures
        match keyed_from(words_spec(info@), "encoding:"@, 0) {
            Some(v) => r.encoding is Some && r.encoding->Some_0@ == v,
            None => r.encoding is None,
        },
        match keyed_from(words_spec(info@), "refcount:"@, 0) {
            Some(v) => match parse_unsigned_spec(v, usize::MAX as int) {
                Some(n) => r.refcount == Some(n as usize),
                None => r.refcount is None,
            },
            None => r.refcount is None,
        },
{
    let encoding = field_value(info, "encoding:");
    let refcount = match field_value(info, "refcount:") {
        Some(v) => parse_usize(v.as_str()),
        None => None,
    };
    ObjectDetails { encoding, refcount }
}

/// The serialized length in a DEBUG OBJECT reply: the number between the
/// first `serializedlength:` and the next space; absent when either is
/// missing or the text between does not read as a number.
pub open spec fn serialized_length_spec(info: Seq<char>) -> Option<int> {
    match find_from_spec(info, "serializedlength:"@, 0) {
        Some(p) => match find_from_spec(info, " "@, p + 17) {
            Some(e) => parse_unsigned_spec(info.subrange(p + 17, e), usize::MAX as int),
            None => None,
        },
        None => None,
    }
}

proof fn lemma_find_bounds(text: Seq<char>, part: Seq<char>, i: int)
    requires
        find_from_spec(text, part, i) is Some,
    ensures
        i <= find_from_spec(text, part, i)->Some_0,
        find_from_spec(text, part, i)->Some_0 + part.len() <= text.len(),
    decreases text.len() + 1 - i,
{
    if !(i < 0 || i + part.len() > text.len()) && !(0 <= i && i + part.len() <= text.len()
        && text.subrange(i, i + part.len()) == part) {
        lemma_find_bounds(text, part, i + 1);
    }
}

/// Reads the serialized length out of a DEBUG OBJECT reply.
pub fn serialized_length(info: &str) -> (r: Option<usize>)
    ensures
        match serialized_length_spec(info@) {
            Some(n) => r == Some(n as usize),
            None => r is None,
        },
{
    proof {
        reveal_strlit("serializedlength:");
        reveal_strlit(" ");
    }
    let key = "serializedlength:";
    assert(key@.len() == 17);
    let n = info.unicode_len();
    match find_from(info, key, 0) {
        Some(p) => {
            proof {
                lemma_find_bounds(info@, key@, 0);
            }
            match find_from(info, " ", p + 17) {
                Some(e) => {
                    proof {
                        lemma_find_bounds(info@, " "@, p + 17);
                    }
                    let digits = info.substring_char(p + 17, e);
                    parse_usize(digits)
                },
                None => None,
            }
        },
        None => None,
    }
}

/// The kind of value stored under a key.
#[derive(Clone, Copy, Debug, PartialEq, Eq, Structural)]
pub enum KeyKind {
    Text,
    List,
    Members,
    SortedSet,
    Hash,
    Stream,
    /// A type name the client does not know.
    Unknown,
}

/// The kind named by a type name as the server reports it.
pub open spec fn kind_spec(name: Seq<char>) -> KeyKind {
    if name == "string"@ {
        KeyKind::Text
    } else if name == "list"@ {
        KeyKind::List
    } else if name == "set"@ {
        KeyKind::Members
    } else if name == "zset"@ {
        KeyKind::SortedSet
    } else if name == "hash"@ {
        KeyKind::Hash
    } else if name == "stream"@ {
        KeyKind::Stream
    } else {
        KeyKind::Unknown
    }
}

fn same_text(a: &str, b: &str) -> (r: bool)
    ensures
        r == (a@ == b@),
{
    let n = a.unicode_len();
    if n != b.unicode_len() {
        return false;
    }
    let mut i: usize = 0;
    while i < n
        invariant
            n == a@.len(),
            n == b@.len(),
            i <= n,
            forall|t: int| 0 <= t < i ==> a@[t] == b@[t],
        decreases n - i,
    {
        if a.get_char(i) != b.get_char(i) {
            return false;
        }
        i = i + 1;
    }
    assert(a@ =~= b@);
    true
}

impl KeyKind {
    /// The kind named by `name`.
    pub fn from_name(name: &str) -> (r: KeyKind)
        ensures
            r == kind_spec(name@),
    {
        if same_text(name, "string") {
            KeyKind::Text
        } else if same_text(name, "list") {
            KeyKind::List
        } else if same_text(name, "set") {
            KeyKind::Members
        } else if same_text(name, "zset") {
            KeyKind::SortedSet
        } else if same_text(name, "hash") {
            KeyKind::Hash
        } else if same_text(name, "stream") {
            KeyKind::Stream
        } else {
            KeyKind::Unknown
        }
    }

    /// Whether the size of such a value is reported: lists, sets, sorted
    /// sets and hashes have one.
    pub fn has_size(self) -> (r: bool)
        ensures
            r == (self is List || self is Members || self is SortedSet || self is Hash),
    {
        match self {
            KeyKind::List | KeyKind::Members | KeyKind::SortedSet | KeyKind::Hash => true,
            _ => false,
        }
    }
}

/// The end of a list at which to push or pop.
#[derive(Clone, Copy, Debug, PartialEq, Eq, Structural)]
pub enum ListSide {
    Left,
    Right,
}

impl ListSide {
    /// `left` or `right`; any other name is refused.
    pub fn from_name(name: &str) -> (r: Option<ListSide>)
        ensures
            name@ == "left"@ ==> r == Some(ListSide::Left),
            name@ == "right"@ ==> r == Some(ListSide::Right),
            name@ != "left"@ && name@ != "right"@ ==> r is None,
    {
        proof {
            reveal_strlit("left");
            reveal_strlit("right");
        }
        assert("left"@.len() == 4 && "right"@.len() == 5);
        if same_text(name, "left") {
            Some(ListSide::Left)
        } else if same_text(name, "right") {
            Some(ListSide::Right)
        } else {
            None
        }
    }
}

/// How a stream is trimmed.
#[derive(Clone, Copy, Debug, PartialEq, Eq, Structural)]
pub enum TrimStrategy {
    MaxLen,
    MinId,
}

impl TrimStrategy {
    /// `MAXLEN` or `MINID`; any other name is refused.
    pub fn from_name(name: &str) -> (r: Option<TrimStrategy>)
        ensures
            name@ == "MAXLEN"@ ==> r == Some(TrimStrategy::MaxLen),
            name@ == "MINID"@ ==> r == Some(TrimStrategy::MinId),
            name@ != "MAXLEN"@ && name@ != "MINID"@ ==> r is None,
    {
        proof {
            reveal_strlit("MAXLEN");
            reveal_strlit("MINID");
        }
        assert("MAXLEN"@.len() == 6 && "MINID"@.len() == 5);
        if same_text(name, "MAXLEN") {
            Some(TrimStrategy::MaxLen)
        } else if same_text(name, "MINID") {
            Some(TrimStrategy::MinId)
        } else {
            None
        }
    }
}

/// The words of a command line typed by the user: the command name first,
/// then its arguments; `None` when the line holds no word.
pub fn command_words(command: &str) -> (r: Option<Vec<String>>)
    ensures
        words_spec(command@).len() == 0 ==> r is None,
        words_spec(command@).len() > 0 ==> r is Some && string_views(r->Some_0@) == words_spec(
            command@,
        ),
{
    let words = split_words(command);
    if words.len() == 0 {
        None
    } else {
        Some(words)
    }
}

/// One batch of a key scan and the cursor of the next, zero after the last.
#[derive(Clone, Debug)]
pub struct ScanResult {
    pub keys: Vec<String>,
    pub cursor: u64,
    pub has_more: bool,
}

impl ScanResult {
    /// A batch and its next cursor; more follow unless the cursor is zero.
    pub fn new(keys: Vec<String>, cursor: u64) -> (r: ScanResult)
        ensures
            r.keys == keys,
            r.cursor == cursor,
            r.has_more == (cursor != 0),
    {
        ScanResult { keys, cursor, has_more: cursor != 0 }
    }
}

/// One batch of a set scan and the cursor of the next, zero after the last.
#[derive(Clone, Debug)]
pub struct PaginatedSetResult {
    pub members: Vec<String>,
    pub cursor: u64,
    pub has_more: bool,
}

impl PaginatedSetResult {
    /// A batch and its next cursor; more follow unless the cursor is zero.
    pub fn new(members: Vec<String>, cursor: u64) -> (r: PaginatedSetResult)
        ensures
            r.members == members,
            r.cursor == cursor,
            r.has_more == (cursor != 0),
    {
        PaginatedSetResult { members, cursor, has_more: cursor != 0 }
    }
}

/// One page of a list.
#[derive(Clone, Debug)]
pub struct PaginatedListResult {
    pub items: Vec<String>,
    pub total_count: usize,
    pub has_more: bool,
}

/// The last index of the page of `count` items from `start`, when it fits
/// in an `i64`.
pub fn page_end(start: i64, count: usize) -> (r: Option<i64>)
    ensures
        i64::MIN <= start + count - 1 <= i64::MAX ==> r == Some((start + count - 1) as i64),
        !(i64::MIN <= start + count - 1 <= i64::MAX) ==> r is None,
{
    let end: i128 = start as i128 + count as i128 - 1;
    if end < i64::MIN as i128 || end > i64::MAX as i128 {
        None
    } else {
        Some(end as i64)
    }
}

impl PaginatedListResult {
    /// The page of `count` items from `start` out of `total_count`; more
    /// follow when the page ends before the last item.
    pub fn new(items: Vec<String>, start: i64, count: usize, total_count: usize) -> (r:
        PaginatedListResult)
        ensures
            r.items == items,
            r.total_count == total_count,
            r.has_more == (start + count < total_count),
    {
        let has_more = (start as i128 + count as i128) < total_count as i128;
        PaginatedListResult { items, total_count, has_more }
    }
}

/// Everything shown about one key.
#[derive(Clone, Debug)]
pub struct RedisKey {
    pub name: String,
    pub key_type: String,
    pub ttl: i64,
    pub size: Option<usize>,
    pub encoding: Option<String>,
    pub refcount: Option<usize>,
    pub memory_usage: Option<usize>,
}

/// The value under a key, rendered as text, and the key's type name.
#[derive(Clone, Debug)]
pub struct RedisValue {
    pub value: String,
    pub key_type: String,
}


/// The text that `serde_json::to_string_pretty` makes of a list of strings.
pub uninterp spec fn pretty_json_strings(items: Seq<Seq<char>>) -> Seq<char>;

/// Relies on `serde_json::to_string_pretty`: the text depends on the
/// strings alone; serializing strings does not fail.
#[verifier::external_body]
fn pretty_json(items: &Vec<String>) -> (r: String)
    ensures
        r@ == pretty_json_strings(string_views(items@)),
{
    serde_json::to_string_pretty(items).unwrap_or_default()
}

/// The shown value of a list or set: its members as an indented JSON array.
pub fn members_text(items: &Vec<String>) -> (r: String)
    ensures
        r@ == pretty_json_strings(string_views(items@)),
{
    pretty_json(items)
}

/// What a new time-to-live does to a key.
#[derive(Clone, Copy, Debug, PartialEq, Eq, Structural)]
pub enum TtlChange {
    /// Expire the key after this many seconds.
    Expire { seconds: i64 },
    /// Remove any expiry from the key.
    Persist,
}

impl TtlChange {
    /// A positive time-to-live sets an expiry; zero or a negative one
    /// removes it.
    pub fn from_ttl(ttl: i64) -> (r: TtlChange)
        ensures
            ttl > 0 ==> r == (TtlChange::Expire { seconds: ttl }),
            ttl <= 0 ==> r == TtlChange::Persist,
    {
        if ttl > 0 {
            TtlChange::Expire { seconds: ttl }
        } else {
            TtlChange::Persist
        }
    }
}


/// Whether `a` comes before `b` in the order of strings: character by
/// character by code point, a proper prefix first.
pub open spec fn lex_lt(a: Seq<char>, b: Seq<char>) -> bool
    decreases a.len(),
{
    if a.len() == 0 {
        b.len() > 0
    } else if b.len() == 0 {
        false
    } else if a[0] != b[0] {
        a[0] < b[0]
    } else {
        lex_lt(a.drop_first(), b.drop_first())
    }
}

/// Whether the strings `s` are in order, equal ones side by side.
pub open spec fn sorted_views(s: Seq<Seq<char>>) -> bool {
    forall|i: int, j: int| 0 <= i < j < s.len() ==> !lex_lt(#[trigger] s[j], #[trigger] s[i])
}

/// Whether the strings `s` are in order and no two are equal.
pub open spec fn strictly_sorted(s: Seq<Seq<char>>) -> bool {
    forall|i: int, j: int| 0 <= i < j < s.len() ==> lex_lt(#[trigger] s[i], #[trigger] s[j])
}

proof fn lemma_lex_total(a: Seq<char>, b: Seq<char>)
    requires
        !lex_lt(b, a),
        a != b,
    ensures
        lex_lt(a, b),
    decreases a.len(),
{
    if a.len() > 0 && b.len() > 0 && a[0] == b[0] {
        if a.drop_first() == b.drop_first() {
            assert(a =~= seq![a[0]] + a.drop_first());
            assert(b =~= seq![b[0]] + b.drop_first());
        }
        lemma_lex_total(a.drop_first(), b.drop_first());
    }
    if a.len() == 0 && b.len() == 0 {
        assert(a =~= b);
    }
}

proof fn lemma_lex_transitive(a: Seq<char>, b: Seq<char>, c: Seq<char>)
    requires
        lex_lt(a, b),
        lex_lt(b, c),
    ensures
        lex_lt(a, c),
    decreases a.len(),
{
    if a.len() > 0 && b.len() > 0 && c.len() > 0 && a[0] == b[0] && b[0] == c[0] {
        lemma_lex_transitive(a.drop_first(), b.drop_first(), c.drop_first());
    }
}

proof fn lemma_push_contains(q: Seq<Seq<char>>, y: Seq<char>, x: Seq<char>)
    ensures
        q.push(y).contains(x) <==> q.contains(x) || x == y,
{
    if q.push(y).contains(x) {
        let k = choose|k: int| 0 <= k < q.push(y).len() && q.push(y)[k] == x;
        if k < q.len() {
            assert(q[k] == x);
        }
    }
    if q.contains(x) {
        let k = choose|k: int| 0 <= k < q.len() && q[k] == x;
        assert(q.push(y)[k] == x);
    }
    if x == y {
        assert(q.push(y)[q.len() as int] == x);
    }
}

/// Relies on `slice::sort`: it reorders the strings by `Ord for String`,
/// which compares them lexicographically by their UTF-8 bytes, the same
/// order as by the code points of their characters.
#[verifier::external_body]
fn sort_strings(v: &mut Vec<String>)
    ensures
        string_views(final(v)@).to_multiset() == string_views(old(v)@).to_multiset(),
        sorted_views(string_views(final(v)@)),
{
    v.sort();
}

/// The distinct strings of `keys`, each once, in order.
pub fn sorted_unique(keys: Vec<String>) -> (r: Vec<String>)
    ensures
        strictly_sorted(string_views(r@)),
        forall|x: Seq<char>| string_views(r@).contains(x) <==> string_views(keys@).contains(x),
{
    broadcast use vstd::seq_lib::to_multiset_contains;

    let mut sorted = keys;
    sort_strings(&mut sorted);
    let ghost s = string_views(sorted@);
    let mut unique: Vec<String> = Vec::new();
    let mut i: usize = 0;
    while i < sorted.len()
        invariant
            s == string_views(sorted@),
            sorted_views(s),
            i <= s.len(),
            strictly_sorted(string_views(unique@)),
            i > 0 ==> unique@.len() > 0 && string_views(unique@).last() == s[i - 1],
            i == 0 ==> unique@.len() == 0,
            forall|x: Seq<char>|
                string_views(unique@).contains(x) <==> s.subrange(0, i as int).contains(x),
        decreases s.len() - i,
    {
        let ghost u = string_views(unique@);
        let ghost before = unique@;
        let item = sorted[i].clone();
        assert(item@ == s[i as int]);
        let fresh = if unique.len() == 0 {
            true
        } else {
            let last = unique.len() - 1;
            !(unique[last] == item)
        };
        if fresh {
            unique.push(item);
            assert(string_views(unique@) =~= u.push(s[i as int]));
            if i > 0 {
                proof {
                    assert(!lex_lt(s[i as int], s[i - 1]));
                    lemma_lex_total(s[i - 1], s[i as int]);
                    assert forall|a: int, b: int|
                        0 <= a < b < string_views(unique@).len() implies lex_lt(
                        #[trigger] string_views(unique@)[a],
                        #[trigger] string_views(unique@)[b],
                    ) by {
                        if b == u.len() && a < u.len() - 1 {
                            lemma_lex_transitive(u[a], u[u.len() - 1], s[i as int]);
                        }
                    }
                }
            }
        }
        assert forall|x: Seq<char>| string_views(unique@).contains(x) <==> s.subrange(
            0,
            i + 1,
        ).contains(x) by {
            assert(s.subrange(0, i + 1) =~= s.subrange(0, i as int).push(s[i as int]));
            lemma_push_contains(s.subrange(0, i as int), s[i as int], x);
            lemma_push_contains(u, s[i as int], x);
            if !fresh {
                assert(u[u.len() - 1] == s[i as int]);
            }
        }
        i = i + 1;
    }
    assert(s.subrange(0, s.len() as int) =~= s);
    assert forall|x: Seq<char>| s.contains(x) <==> string_views(keys@).contains(x) by {
        assert(s.contains(x) <==> s.to_multiset().count(x) > 0);
        assert(string_views(keys@).contains(x) <==> string_views(keys@).to_multiset().count(x) > 0);
    }
    unique
}

} // verus!
