use redistal::reply::{parse_hash_scan, parse_stream_entries, Reply, StreamRangeResult};

fn bulk(s: &str) -> Reply {
    Reply::Bulk(s.as_bytes().to_vec())
}

fn pairs(entry: &[(String, String)]) -> Vec<(&str, &str)> {
    entry.iter().map(|(f, v)| (f.as_str(), v.as_str())).collect()
}

#[test]
fn stream_entries_are_read_in_order() {
    let reply = Reply::Array(vec![
        Reply::Array(vec![bulk("1-0"), Reply::Array(vec![bulk("name"), bulk("ann"), bulk("age"), bulk("31")])]),
        Reply::Array(vec![bulk("2-0"), Reply::Array(vec![bulk("name"), bulk("bob")])]),
    ]);
    let entries = parse_stream_entries(&reply);
    assert_eq!(entries.len(), 2);
    assert_eq!(entries[0].id, "1-0");
    assert_eq!(pairs(&entries[0].fields), vec![("name", "ann"), ("age", "31")]);
    assert_eq!(entries[1].id, "2-0");
    assert_eq!(pairs(&entries[1].fields), vec![("name", "bob")]);
    let result = StreamRangeResult::new(entries);
    assert_eq!(result.count, 2);
}

#[test]
fn malformed_stream_elements_are_skipped() {
    let reply = Reply::Array(vec![
        Reply::Other,
        Reply::Array(vec![bulk("only-id")]),
        Reply::Array(vec![Reply::Other, Reply::Array(vec![])]),
        Reply::Array(vec![bulk("3-0"), Reply::Other]),
        Reply::Array(vec![bulk("4-0"), Reply::Array(vec![Reply::Other, bulk("x"), bulk("k"), bulk("v"), bulk("dangling")])]),
    ]);
    let entries = parse_stream_entries(&reply);
    assert_eq!(entries.len(), 2);
    assert_eq!(entries[0].id, "3-0");
    assert!(entries[0].fields.is_empty());
    assert_eq!(entries[1].id, "4-0");
    assert_eq!(pairs(&entries[1].fields), vec![("k", "v")]);
}

#[test]
fn non_array_stream_reply_has_no_entries() {
    assert!(parse_stream_entries(&Reply::Other).is_empty());
    assert!(parse_stream_entries(&bulk("x")).is_empty());
    assert!(parse_stream_entries(&Reply::Array(vec![])).is_empty());
}

#[test]
fn invalid_utf8_is_replaced() {
    let reply = Reply::Array(vec![Reply::Array(vec![
        Reply::Bulk(vec![b'i', 0xff, b'd']),
        Reply::Array(vec![Reply::Bulk(vec![0xc3, 0xa9]), Reply::Bulk(vec![0x80])]),
    ])]);
    let entries = parse_stream_entries(&reply);
    assert_eq!(entries[0].id, "i\u{FFFD}d");
    assert_eq!(pairs(&entries[0].fields), vec![("\u{e9}", "\u{FFFD}")]);
}

#[test]
fn hash_scan_page() {
    let reply = Reply::Array(vec![bulk("17"), Reply::Array(vec![bulk("f1"), bulk("v1"), bulk("f2"), bulk("v2")])]);
    let page = parse_hash_scan(&reply).unwrap();
    assert_eq!(page.cursor, 17);
    assert!(page.has_more);
    assert_eq!(pairs(&page.fields), vec![("f1", "v1"), ("f2", "v2")]);
}

#[test]
fn hash_scan_last_page() {
    let reply = Reply::Array(vec![bulk("0"), Reply::Array(vec![bulk("f"), bulk("v")])]);
    let page = parse_hash_scan(&reply).unwrap();
    assert_eq!(page.cursor, 0);
    assert!(!page.has_more);
}

#[test]
fn hash_scan_skips_non_bulk_pairs() {
    let reply = Reply::Array(vec![bulk("5"), Reply::Array(vec![Reply::Other, bulk("v"), bulk("f"), bulk("w")])]);
    let page = parse_hash_scan(&reply).unwrap();
    assert_eq!(pairs(&page.fields), vec![("f", "w")]);
}

#[test]
fn hash_scan_bad_cursor_reads_as_zero() {
    let reply = Reply::Array(vec![bulk("abc"), Reply::Array(vec![])]);
    assert_eq!(parse_hash_scan(&reply).unwrap().cursor, 0);
    let reply = Reply::Array(vec![Reply::Other, Reply::Other]);
    let page = parse_hash_scan(&reply).unwrap();
    assert_eq!(page.cursor, 0);
    assert!(page.fields.is_empty());
}

#[test]
fn malformed_hash_scan_is_refused() {
    assert!(parse_hash_scan(&Reply::Other).is_none());
    assert!(parse_hash_scan(&Reply::Array(vec![bulk("1")])).is_none());
    assert!(parse_hash_scan(&Reply::Array(vec![bulk("1"), Reply::Array(vec![]), bulk("x")])).is_none());
}

#[test]
fn repeated_field_keeps_last_value() {
    let reply = Reply::Array(vec![Reply::Array(vec![
        bulk("9-0"),
        Reply::Array(vec![bulk("a"), bulk("1"), bulk("b"), bulk("2"), bulk("a"), bulk("3")]),
    ])]);
    let entries = parse_stream_entries(&reply);
    assert_eq!(pairs(&entries[0].fields), vec![("b", "2"), ("a", "3")]);
    let page = parse_hash_scan(&Reply::Array(vec![
        bulk("0"),
        Reply::Array(vec![bulk("k"), bulk("old"), bulk("k"), bulk("new")]),
    ]))
    .unwrap();
    assert_eq!(pairs(&page.fields), vec![("k", "new")]);
}
