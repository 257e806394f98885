use redistal::keys::{
    command_words, field_value, members_text, page_end, parse_debug_object, serialized_length, split_words, KeyKind,
    ListSide, PaginatedListResult, PaginatedSetResult, ScanResult, TrimStrategy, TtlChange, sorted_unique,
};
use redistal::text::{contains, find_from, parse_u64, parse_usize};

const DEBUG_INFO: &str = "Value at:0x7f00 refcount:2 encoding:embstr serializedlength:5 lru:1 lru_seconds_idle:3";

#[test]
fn words_split_on_white_space() {
    assert_eq!(split_words("  a\tbb \n ccc\u{3000}d "), vec!["a", "bb", "ccc", "d"]);
    assert!(split_words("").is_empty());
    assert!(split_words(" \t\n").is_empty());
}

#[test]
fn debug_object_details() {
    let details = parse_debug_object(DEBUG_INFO);
    assert_eq!(details.encoding.as_deref(), Some("embstr"));
    assert_eq!(details.refcount, Some(2));
}

#[test]
fn debug_object_missing_or_bad_fields() {
    let details = parse_debug_object("Value at:0x1 refcount:many");
    assert_eq!(details.encoding, None);
    assert_eq!(details.refcount, None);
    assert_eq!(field_value("a encoding: b", "encoding:").as_deref(), Some(""));
}

#[test]
fn serialized_length_reads_number_before_space() {
    assert_eq!(serialized_length(DEBUG_INFO), Some(5));
    assert_eq!(serialized_length("x serializedlength:12345 y"), Some(12345));
}

#[test]
fn serialized_length_needs_trailing_space() {
    assert_eq!(serialized_length("x serializedlength:77"), None);
    assert_eq!(serialized_length("x refcount:1 "), None);
    assert_eq!(serialized_length("serializedlength:abc "), None);
}

#[test]
fn key_kinds() {
    assert_eq!(KeyKind::from_name("string"), KeyKind::Text);
    assert_eq!(KeyKind::from_name("list"), KeyKind::List);
    assert_eq!(KeyKind::from_name("set"), KeyKind::Members);
    assert_eq!(KeyKind::from_name("zset"), KeyKind::SortedSet);
    assert_eq!(KeyKind::from_name("hash"), KeyKind::Hash);
    assert_eq!(KeyKind::from_name("stream"), KeyKind::Stream);
    assert_eq!(KeyKind::from_name("none"), KeyKind::Unknown);
    assert!(KeyKind::List.has_size());
    assert!(!KeyKind::Text.has_size());
    assert!(!KeyKind::Stream.has_size());
}

#[test]
fn list_sides_and_trim_strategies() {
    assert_eq!(ListSide::from_name("left"), Some(ListSide::Left));
    assert_eq!(ListSide::from_name("right"), Some(ListSide::Right));
    assert_eq!(ListSide::from_name("Left"), None);
    assert_eq!(TrimStrategy::from_name("MAXLEN"), Some(TrimStrategy::MaxLen));
    assert_eq!(TrimStrategy::from_name("MINID"), Some(TrimStrategy::MinId));
    assert_eq!(TrimStrategy::from_name("maxlen"), None);
}

#[test]
fn command_line_words() {
    assert_eq!(command_words("  SET  k v "), Some(vec!["SET".to_string(), "k".to_string(), "v".to_string()]));
    assert_eq!(command_words("   "), None);
    assert_eq!(command_words(""), None);
}

#[test]
fn page_results() {
    assert_eq!(page_end(0, 50), Some(49));
    assert_eq!(page_end(10, 0), Some(9));
    assert_eq!(page_end(i64::MAX, 2), None);
    assert!(PaginatedListResult::new(vec![], 0, 50, 120).has_more);
    assert!(!PaginatedListResult::new(vec![], 100, 50, 120).has_more);
    assert!(!PaginatedListResult::new(vec![], 70, 50, 120).has_more);
    assert!(ScanResult::new(vec![], 3).has_more);
    assert!(!ScanResult::new(vec![], 0).has_more);
    assert!(!PaginatedSetResult::new(vec!["m".to_string()], 0).has_more);
}

#[test]
fn unsigned_numbers() {
    assert_eq!(parse_u64("0"), Some(0));
    assert_eq!(parse_u64("+42"), Some(42));
    assert_eq!(parse_u64("18446744073709551615"), Some(u64::MAX));
    assert_eq!(parse_u64("18446744073709551616"), None);
    assert_eq!(parse_u64(""), None);
    assert_eq!(parse_u64("+"), None);
    assert_eq!(parse_u64("-1"), None);
    assert_eq!(parse_u64("12a"), None);
    assert_eq!(parse_usize("007"), Some(7));
}

#[test]
fn searching_text() {
    assert_eq!(find_from("abcabc", "bc", 0), Some(1));
    assert_eq!(find_from("abcabc", "bc", 2), Some(4));
    assert_eq!(find_from("abcabc", "x", 0), None);
    assert_eq!(find_from("abc", "", 3), Some(3));
    assert!(contains("hello world", "o w"));
    assert!(!contains("hi", "hello"));
}

#[test]
fn ttl_changes() {
    assert_eq!(TtlChange::from_ttl(60), TtlChange::Expire { seconds: 60 });
    assert_eq!(TtlChange::from_ttl(0), TtlChange::Persist);
    assert_eq!(TtlChange::from_ttl(-1), TtlChange::Persist);
}

#[test]
fn members_render_as_json() {
    let items = vec!["a".to_string(), "b\"c".to_string()];
    assert_eq!(members_text(&items), "[\n  \"a\",\n  \"b\\\"c\"\n]");
    assert_eq!(members_text(&Vec::new()), "[]");
}

#[test]
fn scanned_keys_are_sorted_and_unique() {
    let keys: Vec<String> = ["user:2", "b", "user:10", "a", "b", "\u{e9}", "Z", "a"].iter().map(|s| s.to_string()).collect();
    assert_eq!(sorted_unique(keys), vec!["Z", "a", "b", "user:10", "user:2", "\u{e9}"]);
    assert!(sorted_unique(Vec::new()).is_empty());
}
