//! Replies of the database server, and what the client reads out of them:
//! the entries of a stream range, and one page of a hash scan.
use vstd::prelude::*;
use crate::text::{parse_u64, parse_unsigned_spec};

verus! {

/// A server reply, as far as the client looks into it.
#[derive(Debug)]
pub enum Reply {
    /// A binary-safe string.
    Bulk(Vec<u8>),
    Array(Vec<Reply>),
    /// Any other kind of reply.
    Other,
}

/// The text that `String::from_utf8_lossy` makes of `bytes`.
pub uninterp spec fn lossy_text(bytes: Seq<u8>) -> Seq<char>;

/// Relies on `String::from_utf8_lossy`: the text depends on the bytes
/// alone, with each invalid sequence replaced by U+FFFD.
#[verifier::external_body]
fn text_of(bytes: &Vec<u8>) -> (r: String)
    ensures
        r@ == lossy_text(bytes@),
{
    String::from_utf8_lossy(bytes).into_owned()
}

/// One entry of a stream: its id and its field-value pairs, each field
/// once; of two pairs with the same field the later one is kept, and the
/// pairs stand in the order of the reply.
#[derive(Clone, Debug)]
pub struct StreamEntry {
    pub id: String,
    pub fields: Vec<(String, String)>,
}

/// The entries of a stream range and their number.
#[derive(Clone, Debug)]
pub struct StreamRangeResult {
    pub entries: Vec<StreamEntry>,
    pub count: usize,
}

/// The text of a bulk reply; nothing for any other.
pub open spec fn bulk_text(r: Reply) -> Option<Seq<char>> {
    match r {
        Reply::Bulk(b) => Some(lossy_text(b@)),
        _ => None,
    }
}

/// Texts of a list of string pairs.
pub open spec fn pair_texts(v: Seq<(String, String)>) -> Seq<(Seq<char>, Seq<char>)> {
    v.map_values(|p: (String, String)| (p.0@, p.1@))
}

/// The pairs of `s` whose field is not `f`, in their order.
pub open spec fn without_field(s: Seq<(Seq<char>, Seq<char>)>, f: Seq<char>) -> Seq<
    (Seq<char>, Seq<char>),
>
    decreases s.len(),
{
    if s.len() == 0 {
        s
    } else {
        let rest = without_field(s.drop_last(), f);
        if s.last().0 == f {
            rest
        } else {
            rest.push(s.last())
        }
    }
}

/// The field-value pairs among the first `n` pairs of `items`, which
/// alternate field and value; a pair that is not two bulk replies is left
/// out, and a pair replaces an earlier one with the same field.
pub open spec fn field_pairs(items: Seq<Reply>, n: nat) -> Seq<(Seq<char>, Seq<char>)>
    decreases n,
{
    if n == 0 {
        Seq::empty()
    } else {
        let rest = field_pairs(items, (n - 1) as nat);
        match (bulk_text(items[2 * n - 2]), bulk_text(items[2 * n - 1])) {
            (Some(f), Some(v)) => without_field(rest, f).push((f, v)),
            _ => rest,
        }
    }
}

/// All field-value pairs of `items`; a trailing field without value is
/// left out.
pub open spec fn all_field_pairs(items: Seq<Reply>) -> Seq<(Seq<char>, Seq<char>)> {
    field_pairs(items, items.len() / 2)
}

/// The pairs of `pairs` whose field is not `field`.
fn drop_field(pairs: &Vec<(String, String)>, field: &String) -> (r: Vec<(String, String)>)
    ensures
        pair_texts(r@) == without_field(pair_texts(pairs@), field@),
{
    let mut kept: Vec<(String, String)> = Vec::new();
    let mut k: usize = 0;
    assert(pair_texts(pairs@).subrange(0, 0) =~= Seq::<(Seq<char>, Seq<char>)>::empty());
    assert(pair_texts(kept@) =~= Seq::<(Seq<char>, Seq<char>)>::empty());
    while k < pairs.len()
        invariant
            k <= pairs@.len(),
            pair_texts(kept@) == without_field(pair_texts(pairs@).subrange(0, k as int), field@),
        decreases pairs@.len() - k,
    {
        let ghost before = kept@;
        assert(pair_texts(pairs@).subrange(0, k + 1).drop_last() =~= pair_texts(pairs@).subrange(
            0,
            k as int,
        ));
        assert(pair_texts(pairs@)[k as int] == (pairs@[k as int].0@, pairs@[k as int].1@));
        if !(pairs[k].0 == *field) {
            let pair = (pairs[k].0.clone(), pairs[k].1.clone());
            kept.push(pair);
            assert(pair_texts(kept@) =~= pair_texts(before).push(pair_texts(pairs@)[k as int]));
        }
        k = k + 1;
    }
    assert(pair_texts(pairs@).subrange(0, pairs@.len() as int) =~= pair_texts(pairs@));
    kept
}

/// Reads the field-value pairs of `items`.
fn read_pairs(items: &Vec<Reply>) -> (r: Vec<(String, String)>)
    ensures
        pair_texts(r@) == all_field_pairs(items@),
{
    let mut pairs: Vec<(String, String)> = Vec::new();
    let mut k: usize = 0;
    let n = items.len();
    let half = n / 2;
    while k < half
        invariant
            n == items@.len(),
            half == n / 2,
            k <= half,
            pair_texts(pairs@) == field_pairs(items@, k as nat),
        decreases half - k,
    {
        let ghost before = pairs@;
        assert(2 * k + 1 < n) by (nonlinear_arith)
            requires
                half == n / 2,
                k < half,
        ;
        let f_at: usize = 2 * k;
        match (&items[f_at], &items[f_at + 1]) {
            (Reply::Bulk(f), Reply::Bulk(v)) => {
                let field = text_of(f);
                let value = text_of(v);
                pairs = drop_field(&pairs, &field);
                let ghost kept = pairs@;
                pairs.push((field, value));
                assert(pair_texts(pairs@) =~= pair_texts(kept).push((field@, value@)));
            },
            _ => {},
        }
        k = k + 1;
    }
    pairs
}

/// The entry that an element of a stream range reply stands for: an array
/// of at least two replies, the first the id as a bulk reply, the second
/// the array of field-value pairs (no pairs when it is not an array).
pub open spec fn entry_spec(item: Reply) -> Option<(Seq<char>, Seq<(Seq<char>, Seq<char>)>)> {
    match item {
        Reply::Array(parts) => if parts@.len() >= 2 && bulk_text(parts@[0]) is Some {
            Some(
                (
                    bulk_text(parts@[0])->Some_0,
                    match parts@[1] {
                        Reply::Array(fv) => all_field_pairs(fv@),
                        _ => Seq::empty(),
                    },
                ),
            )
        } else {
            None
        },
        _ => None,
    }
}

/// The entries of the first `n` elements of `items`; an element that is no
/// entry is left out.
pub open spec fn entries_upto(items: Seq<Reply>, n: nat) -> Seq<
    (Seq<char>, Seq<(Seq<char>, Seq<char>)>),
>
    decreases n,
{
    if n == 0 {
        Seq::empty()
    } else {
        let rest = entries_upto(items, (n - 1) as nat);
        match entry_spec(items[n - 1]) {
            Some(e) => rest.push(e),
            None => rest,
        }
    }
}

/// The entries of a stream range reply: none unless it is an array.
pub open spec fn stream_entries_spec(value: Reply) -> Seq<(Seq<char>, Seq<(Seq<char>, Seq<char>)>)> {
    match value {
        Reply::Array(items) => entries_upto(items@, items@.len()),
        _ => Seq::empty(),
    }
}

/// An entry as texts.
pub open spec fn entry_texts(e: StreamEntry) -> (Seq<char>, Seq<(Seq<char>, Seq<char>)>) {
    (e.id@, pair_texts(e.fields@))
}

/// Reads the entries of a stream range reply.
pub fn parse_stream_entries(value: &Reply) -> (r: Vec<StreamEntry>)
    ensures
        r@.map_values(|e: StreamEntry| entry_texts(e)) == stream_entries_spec(*value),
{
    let mut entries: Vec<StreamEntry> = Vec::new();
    match value {
        Reply::Array(items) => {
            let mut i: usize = 0;
            while i < items.len()
                invariant
                    i <= items@.len(),
                    entries@.map_values(|e: StreamEntry| entry_texts(e)) == entries_upto(
                        items@,
                        i as nat,
                    ),
                decreases items@.len() - i,
            {
                let ghost before = entries@;
                match &items[i] {
                    Reply::Array(parts) => {
                        if parts.len() >= 2 {
                            match &parts[0] {
                                Reply::Bulk(id_bytes) => {
                                    let id = text_of(id_bytes);
                                    let fields = match &parts[1] {
                                        Reply::Array(fv) => read_pairs(fv),
                                        _ => {
                                            let none: Vec<(String, String)> = Vec::new();
                                            assert(pair_texts(none@) =~= Seq::empty());
                                            none
                                        },
                                    };
                                    let entry = StreamEntry { id, fields };
                                    entries.push(entry);
                                    assert(entries@.map_values(|e: StreamEntry| entry_texts(e))
                                        =~= before.map_values(|e: StreamEntry| entry_texts(e)).push(
                                        entry_texts(entry),
                                    ));
                                },
                                _ => {},
                            }
                        }
                    },
                    _ => {},
                }
                i = i + 1;
            }
        },
        _ => {
            assert(entries@.map_values(|e: StreamEntry| entry_texts(e)) =~= Seq::empty());
        },
    }
    entries
}

impl StreamRangeResult {
    /// The result of a stream range: its entries and their number.
    pub fn new(entries: Vec<StreamEntry>) -> (r: StreamRangeResult)
        ensures
            r.entries == entries,
            r.count == entries@.len(),
    {
        let count = entries.len();
        StreamRangeResult { entries, count }
    }
}

/// One page of a hash scan: the field-value pairs, each field once, and the
/// cursor of the next page, zero after the last.
#[derive(Clone, Debug)]
pub struct PaginatedHashResult {
    pub fields: Vec<(String, String)>,
    pub cursor: u64,
    pub has_more: bool,
}

/// The cursor of a scan reply: the number in a bulk reply, zero when it is
/// none or does not read as one.
pub open spec fn cursor_spec(r: Reply) -> u64 {
    match r {
        Reply::Bulk(b) => match parse_unsigned_spec(lossy_text(b@), u64::MAX as int) {
            Some(v) => v as u64,
            None => 0,
        },
        _ => 0,
    }
}

/// What a hash scan reply holds: an array of exactly two replies, the
/// cursor and the array of field-value pairs (none when it is not an
/// array); any other reply is malformed.
pub open spec fn hash_scan_spec(value: Reply) -> Option<(u64, Seq<(Seq<char>, Seq<char>)>)> {
    match value {
        Reply::Array(b) => if b@.len() == 2 {
            Some(
                (
                    cursor_spec(b@[0]),
                    match b@[1] {
                        Reply::Array(items) => all_field_pairs(items@),
                        _ => Seq::empty(),
                    },
                ),
            )
        } else {
            None
        },
        _ => None,
    }
}

/// Reads one page of a hash scan; `None` when the reply is malformed.
pub fn parse_hash_scan(value: &Reply) -> (r: Option<PaginatedHashResult>)
    ensures
        hash_scan_spec(*value) is None ==> r is None,
        hash_scan_spec(*value) matches Some(page) ==> r is Some && r->Some_0.cursor == page.0
            && pair_texts(r->Some_0.fields@) == page.1 && r->Some_0.has_more == (page.0 != 0),
{
    match value {
        Reply::Array(b) => {
            if b.len() != 2 {
                return None;
            }
            let cursor = match &b[0] {
                Reply::Bulk(bytes) => {
                    let text = text_of(bytes);
                    match parse_u64(text.as_str()) {
                        Some(v) => v,
                        None => 0,
                    }
                },
                _ => 0,
            };
            let fields = match &b[1] {
                Reply::Array(items) => read_pairs(items),
                _ => {
                    let none: Vec<(String, String)> = Vec::new();
                    assert(pair_texts(none@) =~= Seq::empty());
                    none
                },
            };
            Some(PaginatedHashResult { fields, cursor, has_more: cursor != 0 })
        },
        _ => None,
    }
}

} // verus!
