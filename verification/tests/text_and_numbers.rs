use opencli_rs::number::{decimal_text, parse_or, parse_unsigned};
use opencli_rs::text::{
    begins_with, chars_of, clone_opt_text, clone_texts, has_text, is_white_space, join2, join3,
    join4, same_text, split_and_trim, trim,
};

#[test]
fn white_space_is_that_of_unicode() {
    for c in '\0'..=char::MAX {
        assert_eq!(is_white_space(c), c.is_whitespace(), "{:?}", c);
    }
}

#[test]
fn trimming_takes_outer_white_space() {
    for s in ["", " ", "a", "  a b\t", "\u{3000}字幕\u{a0}", "\n\n", "x \u{2003}"] {
        assert_eq!(trim(s), s.trim(), "{:?}", s);
    }
    assert_eq!(trim(" a b "), "a b");
}

#[test]
fn trimming_twice_is_trimming_once() {
    let once = trim("\t 字 幕 \r\n");
    assert_eq!(once, "字 幕");
    assert_eq!(trim(&once), once);
}

#[test]
fn labels_are_split_at_commas() {
    assert_eq!(split_and_trim("Comments,CC,字幕", ','), vec!["Comments", "CC", "字幕"]);
    assert_eq!(split_and_trim(" a , b ,,c ", ','), vec!["a", "b", "", "c"]);
    assert_eq!(split_and_trim("", ','), vec![""]);
    assert_eq!(split_and_trim(",", ','), vec!["", ""]);
    assert_eq!(split_and_trim("one", ','), vec!["one"]);
}

#[test]
fn joining_the_parts_gives_the_text_back() {
    let text = "a,bb,,字";
    assert_eq!(split_and_trim(text, ',').join(","), text);
}

#[test]
fn texts_are_found_in_texts() {
    let cases = [
        ("abc", ""),
        ("", ""),
        ("", "a"),
        ("abc", "bc"),
        ("abc", "abc"),
        ("abc", "abcd"),
        ("aab", "ab"),
        ("[exact]   知乎 hot", "知乎"),
        ("abc", "ac"),
    ];
    for (hay, needle) in cases {
        assert_eq!(has_text(hay, needle), hay.contains(needle), "{:?} {:?}", hay, needle);
        assert_eq!(begins_with(hay, needle), hay.starts_with(needle), "{:?} {:?}", hay, needle);
    }
    assert!(begins_with("🔄 x", "🔄"));
    assert!(!begins_with("x 🔄", "🔄"));
}

#[test]
fn texts_are_joined_and_copied() {
    assert_eq!(chars_of("aé字"), vec!['a', 'é', '字']);
    assert!(same_text("é", "é"));
    assert!(!same_text("a", "A"));
    assert_eq!(join2("a", "字"), "a字");
    assert_eq!(join3("a", "", "c"), "ac");
    assert_eq!(join4("a", "b", "c", "d"), "abcd");
    let list = vec!["x".to_string(), "y".to_string()];
    assert_eq!(clone_texts(&list), list);
    assert_eq!(clone_opt_text(&Some("z".to_string())), Some("z".to_string()));
    assert_eq!(clone_opt_text(&None), None);
}

#[test]
fn numbers_are_read_as_the_standard_library_reads_them() {
    let cases = [
        "", "+", "-", "0", "7", "007", "+5", "++5", "-1", " 5", "5 ", "12a", "65535", "65536",
        "18446744073709551615", "18446744073709551616", "99999999999999999999999", "1_000", "１",
        "+0", "4294967295",
    ];
    for s in cases {
        assert_eq!(parse_unsigned(s, u64::MAX), s.parse::<u64>().ok(), "{:?}", s);
        assert_eq!(
            parse_unsigned(s, u16::MAX as u64),
            s.parse::<u16>().ok().map(|n| n as u64),
            "{:?}",
            s
        );
    }
    assert_eq!(parse_unsigned("3", 2), None);
    assert_eq!(parse_unsigned("2", 2), Some(2));
    assert_eq!(parse_unsigned("0", 0), Some(0));
}

#[test]
fn a_default_stands_in_for_what_is_no_number() {
    assert_eq!(parse_or(Some("12"), u64::MAX, 3), 12);
    assert_eq!(parse_or(Some("x"), u64::MAX, 3), 3);
    assert_eq!(parse_or(None, u64::MAX, 3), 3);
    assert_eq!(parse_or(Some("300"), 255, 3), 3);
}

#[test]
fn written_numbers_read_back() {
    for n in [0u64, 9, 10, 60, 19825, 1234567890, u64::MAX] {
        assert_eq!(decimal_text(n), n.to_string());
        assert_eq!(parse_unsigned(&decimal_text(n), u64::MAX), Some(n));
    }
}
