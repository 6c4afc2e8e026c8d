//! Texts, maps and times.

use acp_client::text;
use acp_client::text_map::TextMap;
use acp_client::time::Timestamp;

#[test]
fn numbers_are_written_and_read_in_decimal() {
    for n in [0u64, 7, 10, 42, 999, u64::MAX] {
        assert_eq!(text::decimal_text(n), n.to_string());
        assert_eq!(text::parse_u64(&n.to_string()), Some(n));
    }
    for n in [0i64, -1, 5, i64::MIN, i64::MAX] {
        assert_eq!(text::signed_text(n), n.to_string());
    }
    for bad in ["", "+", "-1", "1x", "18446744073709551616", " 1"] {
        assert_eq!(text::parse_u64(bad), bad.parse::<u64>().ok(), "{bad:?}");
    }
    assert_eq!(text::parse_u64("+12"), "+12".parse::<u64>().ok());
}

#[test]
fn white_space_is_trimmed_as_unicode_has_it() {
    for sample in ["", "  a b \n", "\u{3000}x\u{a0}", "\u{2028}", "no", "\u{200b}z"] {
        assert_eq!(text::trim(sample), sample.trim(), "{sample:?}");
        assert_eq!(text::trim_start(sample), sample.trim_start(), "{sample:?}");
        assert_eq!(text::trim_end(sample), sample.trim_end(), "{sample:?}");
    }
}

#[test]
fn texts_are_split_into_lines() {
    for sample in ["", "a", "a\nb", "a\r\nb\r\n", "\n\n", "a\rb\n"] {
        let want: Vec<String> = sample.lines().map(str::to_string).collect();
        assert_eq!(text::lines(sample), want, "{sample:?}");
    }
}

#[test]
fn texts_are_searched() {
    assert!(text::contains("a needle here", "needle"));
    assert!(!text::contains("a needl", "needle"));
    assert!(text::contains("x", ""));
    assert!(text::starts_with("needle", "need"));
    assert!(!text::starts_with("nee", "need"));
}

#[test]
fn a_map_keeps_the_last_value_of_each_key() {
    let mut map: TextMap<i64> = TextMap::new();
    assert!(map.is_empty());
    map.insert("a".to_string(), 1);
    map.insert("b".to_string(), 2);
    map.insert("a".to_string(), 3);
    assert_eq!(map.get("a"), Some(3));
    assert_eq!(map.get("c"), None);
    assert_eq!(map.to_entries(), vec![("b".to_string(), 2), ("a".to_string(), 3)]);
    assert_eq!(map.remove("a"), Some(3));
    assert_eq!(map.remove("a"), None);
    assert!(!map.is_empty());
    map.clear();
    assert!(map.is_empty());
}

#[test]
fn times_are_moved_by_milliseconds() {
    let at = Timestamp { secs: -1, nanos: 999_999_999 };
    assert_eq!(at.millis(), -1);
    assert_eq!(at.plus_millis(1), Timestamp { secs: 0, nanos: 999_999 });
    assert_eq!(at.plus_millis(-1000), Timestamp { secs: -2, nanos: 999_999_999 });
    assert!(at.is_valid());
    assert!(!Timestamp { secs: i64::MAX, nanos: 0 }.is_valid());
}
