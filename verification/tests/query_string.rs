use nasa_rs::escape::escape;
use nasa_rs::prelude::map_to_query;
use nasa_rs::query::{QueryMap, QueryValues};
use std::collections::HashMap;

fn map_of(list: &[(&str, &str)]) -> QueryMap {
    let mut map = QueryMap::new();
    for (key, value) in list {
        map.insert(key.to_string(), value.to_string());
    }
    map
}

fn unescape(text: &str) -> String {
    let bytes = text.as_bytes();
    let mut out = Vec::new();
    let mut i = 0;
    while i < bytes.len() {
        let hex = |b: u8| (b as char).to_digit(16);
        if bytes[i] == b'%' && i + 2 < bytes.len() && hex(bytes[i + 1]).is_some() && hex(bytes[i + 2]).is_some() {
            out.push((hex(bytes[i + 1]).unwrap() * 16 + hex(bytes[i + 2]).unwrap()) as u8);
            i += 3;
        } else {
            out.push(bytes[i]);
            i += 1;
        }
    }
    String::from_utf8(out).unwrap()
}

fn read_back(text: &str) -> Vec<(String, String)> {
    text.split('&')
        .map(|part| match part.split_once('=') {
            Some((key, value)) => (unescape(key), unescape(value)),
            None => (unescape(part), String::new()),
        })
        .collect()
}

fn owned(list: &[(&str, &str)]) -> Vec<(String, String)> {
    list.iter().map(|(k, v)| (k.to_string(), v.to_string())).collect()
}

#[test]
fn empty_mapping_renders_to_empty_text() {
    assert_eq!(map_to_query(QueryMap::new()), "");
}

#[test]
fn one_entry_has_no_separator() {
    assert_eq!(map_to_query(map_of(&[("date", "2020-01-01")])), "date=2020-01-01");
}

#[test]
fn entries_are_joined_without_leading_or_trailing_separator() {
    let text = map_to_query(map_of(&[("a", "1"), ("b", "2"), ("c", "3")]));
    assert_eq!(text, "a=1&b=2&c=3");
    assert!(!text.starts_with('&'));
    assert!(!text.ends_with('&'));
    assert_eq!(text.matches('&').count(), 2);
}

#[test]
fn empty_keys_and_values_are_rendered() {
    assert_eq!(map_to_query(map_of(&[("", "")])), "=");
    assert_eq!(map_to_query(map_of(&[("k", ""), ("", "v")])), "k=&=v");
}

#[test]
fn reserved_characters_are_escaped() {
    assert_eq!(map_to_query(map_of(&[("keyword", "a&b=c")])), "keyword=a%26b%3Dc");
    assert_eq!(map_to_query(map_of(&[("q", "a b"), ("r", "x=y")])), "q=a%20b&r=x%3Dy");
    assert_eq!(map_to_query(map_of(&[("a&b", "c")])), "a%26b=c");
    assert_eq!(map_to_query(map_of(&[("k=l", "100%")])), "k%3Dl=100%25");
    assert_eq!(map_to_query(map_of(&[("t", "2020-01-01T00:00")])), "t=2020-01-01T00%3A00");
    let text = map_to_query(map_of(&[("keyword", "a&b=c")]));
    assert_eq!(text.matches('&').count(), 0);
    assert_eq!(text.matches('=').count(), 1);
    assert_eq!(text.len(), 17);
}

#[test]
fn unreserved_characters_are_written_as_they_are() {
    let plain = "ABCDEFGHIJKLMNOPQRSTUVWXYZabcdefghijklmnopqrstuvwxyz0123456789-._~";
    assert_eq!(escape(plain), plain);
    assert_eq!(escape(""), "");
    assert_eq!(map_to_query(map_of(&[("start_date", "2023-01-01")])), "start_date=2023-01-01");
}

#[test]
fn every_other_byte_is_written_in_hexadecimal() {
    assert_eq!(escape(" "), "%20");
    assert_eq!(escape("\0"), "%00");
    assert_eq!(escape("\u{7f}"), "%7F");
    assert_eq!(escape("!*'();:@&=+$,/?#[]"), "%21%2A%27%28%29%3B%3A%40%26%3D%2B%24%2C%2F%3F%23%5B%5D");
    assert_eq!(escape("%41"), "%2541");
    assert_eq!(escape("é"), "%C3%A9");
    assert_eq!(escape("日本"), "%E6%97%A5%E6%9C%AC");
    assert_eq!(escape("🚀"), "%F0%9F%9A%80");
    assert_eq!(map_to_query(map_of(&[("naïve", "日本")])), "na%C3%AFve=%E6%97%A5%E6%9C%AC");
    for code in 0u32..=0x7f {
        let c = char::from_u32(code).unwrap();
        let written = escape(&c.to_string());
        if c.is_ascii_alphanumeric() || "-._~".contains(c) {
            assert_eq!(written, c.to_string());
        } else {
            assert_eq!(written, format!("%{:02X}", code));
        }
    }
}

#[test]
fn reading_back_gives_the_mapping() {
    let cases: Vec<Vec<(&str, &str)>> = vec![
        vec![("date", "2020-01-01")],
        vec![("start_date", "2023-01-01"), ("end_date", "2023-01-03")],
        vec![("a", ""), ("b", "x=y"), ("", "v")],
        vec![("a&b", "c"), ("k=l", "v&w"), ("%", "%25"), ("sp ace", "日本 🚀")],
        vec![("keyword", "a&b=c")],
        vec![("k", "1"), ("l", "2"), ("m", "3"), ("n", "4")],
    ];
    for case in cases {
        let text = map_to_query(map_of(&case));
        assert_eq!(read_back(&text), owned(&case));
    }
}

#[test]
fn reading_back_does_not_depend_on_the_order() {
    let one = map_to_query(map_of(&[("a", "1"), ("b", "2"), ("c", "3")]));
    let other = map_to_query(map_of(&[("c", "3"), ("a", "1"), ("b", "2")]));
    assert_ne!(one, other);
    let first: HashMap<String, String> = read_back(&one).into_iter().collect();
    let second: HashMap<String, String> = read_back(&other).into_iter().collect();
    assert_eq!(first, second);
    assert_eq!(first.len(), 3);
}

#[test]
fn a_separator_inside_a_key_is_read_back() {
    let text = map_to_query(map_of(&[("a&b", "c")]));
    assert_eq!(text, "a%26b=c");
    assert_eq!(read_back(&text), owned(&[("a&b", "c")]));
    let text = map_to_query(map_of(&[("k", "v&w")]));
    assert_eq!(read_back(&text), owned(&[("k", "v&w")]));
    let text = map_to_query(map_of(&[("k=l", "v")]));
    assert_eq!(read_back(&text), owned(&[("k=l", "v")]));
}

#[test]
fn another_parser_reads_the_same_mapping() {
    let list = vec![("date", "2019-01-01"), ("hd", "true"), ("keyword", "a&b=c d"), ("é", "%")];
    let text = map_to_query(list.values());
    let read: HashMap<String, String> = serde_qs::from_str(&text).unwrap();
    let expected: HashMap<String, String> = owned(&list).into_iter().collect();
    assert_eq!(read, expected);
}
