use urbit_http_api::text::{parse_u64, trimmed};
use urbit_http_api::utils::{camelize, hex_string, hex_text, uncamelize, EventEmitter};
use std::cell::RefCell;
use std::rc::Rc;

fn chars(s: &str) -> Vec<char> {
    s.chars().collect()
}

#[test]
fn camelize_joins_words() {
    assert_eq!(camelize("hello world"), "helloWorld");
    assert_eq!(camelize("make  it   camel"), "makeItCamel");
    assert_eq!(camelize(" leading space"), "LeadingSpace");
    assert_eq!(camelize("trailing "), "trailing");
    assert_eq!(camelize(""), "");
    assert_eq!(camelize("tab\tand\nnewline"), "tabAndNewline");
    assert_eq!(camelize("über cool"), "überCool");
    assert_eq!(camelize("a 1b"), "a1b");
}

#[test]
fn uncamelize_splits_words() {
    assert_eq!(uncamelize("helloWorld", " "), "hello world");
    assert_eq!(uncamelize("HelloWorld", " "), "hello world");
    assert_eq!(uncamelize("someLongName", "-"), "some-long-name");
    assert_eq!(uncamelize("plain", "_"), "plain");
    assert_eq!(uncamelize("ABC", "_"), "a_b_c");
    assert_eq!(uncamelize("aB", ""), "ab");
    assert_eq!(uncamelize("", "-"), "");
    // Non-ASCII upper case is separated but keeps its case.
    assert_eq!(uncamelize("aÉb", "-"), "a-Éb");
}

#[test]
fn camelize_and_uncamelize_invert_each_other() {
    for phrase in ["hello world", "a b c", "single", "two words here", "ünï-code! ok", "Éa É", "x1 y2"] {
        assert_eq!(uncamelize(&camelize(phrase), " "), phrase);
    }
    for ident in ["helloWorld", "aBC", "x1Y2", "plain", "9lives", "ÉaÉb", "a-B_c!", "çaVa"] {
        assert_eq!(camelize(&uncamelize(ident, " ")), ident);
    }
    // Outside the laws' conditions the round trip can differ.
    assert_eq!(uncamelize(&camelize("A b"), " "), "a b");
    assert_eq!(camelize(&uncamelize("Hello", " ")), "hello");
}

#[test]
fn camelize_leaves_no_white_space() {
    let out = camelize(" a\u{a0}b\u{3000}c \t");
    assert!(!out.chars().any(char::is_whitespace));
    assert_eq!(out, "ABC");
}

#[test]
fn hex_string_has_the_length_and_digits() {
    for len in [0usize, 1, 6, 32] {
        let s = hex_string(len);
        assert_eq!(s.chars().count(), len);
        assert!(s.chars().all(|c| c.is_ascii_digit() || ('a'..='f').contains(&c)));
    }
}

#[test]
fn hex_text_writes_lower_case_digits() {
    assert_eq!(hex_text(&[0, 9, 10, 15, 3]), "09af3");
    assert_eq!(hex_text(&[]), "");
}

#[test]
fn parse_u64_follows_str_parse() {
    let cases = ["0", "42", "+7", "", "+", "-1", "12a", " 3", "18446744073709551615", "18446744073709551616", "007"];
    for c in cases {
        assert_eq!(parse_u64(&chars(c)), c.parse::<u64>().ok(), "case {:?}", c);
    }
}

#[test]
fn trimmed_follows_str_trim() {
    let cases = ["  a b  ", "\t\n", "", "x", "\u{a0}y\u{2003}", "\u{85}z\u{3000}"];
    for c in cases {
        let t: String = trimmed(&chars(c)).into_iter().collect();
        assert_eq!(t, c.trim());
    }
}

#[test]
fn event_emitter_calls_listeners_in_order() {
    let log = Rc::new(RefCell::new(Vec::new()));
    let mut emitter: EventEmitter<Box<dyn Fn(&serde_json::Value)>> = EventEmitter::new();
    let l1 = log.clone();
    emitter.on("a", Box::new(move |v: &serde_json::Value| l1.borrow_mut().push(format!("first {}", v))));
    let l2 = log.clone();
    emitter.on("b", Box::new(move |v: &serde_json::Value| l2.borrow_mut().push(format!("other {}", v))));
    let l3 = log.clone();
    emitter.on("a", Box::new(move |v: &serde_json::Value| l3.borrow_mut().push(format!("second {}", v))));
    emitter.emit("a", serde_json::Value::from(1));
    emitter.emit("missing", serde_json::Value::from(2));
    assert_eq!(*log.borrow(), vec!["first 1".to_string(), "second 1".to_string()]);
}

#[test]
fn white_space_matches_char_is_whitespace() {
    for c in (0u32..0x3100).chain([0xFEFF, 0x10FFFF, 0x1F600]).filter_map(char::from_u32) {
        assert_eq!(urbit_http_api::text::is_whitespace_char(c), c.is_whitespace(), "char {:?}", c);
    }
}

#[test]
fn ascii_case_conversion() {
    for c in (0u32..0x300).filter_map(char::from_u32) {
        assert_eq!(urbit_http_api::text::to_ascii_upper(c), c.to_ascii_uppercase());
        assert_eq!(urbit_http_api::text::to_ascii_lower(c), c.to_ascii_lowercase());
    }
    // Upper-case ASCII letters, and only they among ASCII, are separated.
    for c in (0u8..128).map(char::from) {
        let s = format!("a{}", c);
        let expected = if c.is_ascii_uppercase() { format!("a_{}", c.to_ascii_lowercase()) } else { s.clone() };
        assert_eq!(uncamelize(&s, "_"), expected);
    }
}
