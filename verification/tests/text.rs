use hook_tracer::text::{
    chars_of, count_lines, decimal_of, extend_chars, extend_widened, find_from, holds_name,
    matches_at, replace_all, same_text, string_of,
};

fn chars(s: &str) -> Vec<char> {
    s.chars().collect()
}

fn replace(text: &str, from: &str, to: &str) -> String {
    string_of(&replace_all(&chars(text), &chars(from), &chars(to)))
}

#[test]
fn chars_and_strings_convert_both_ways() {
    assert_eq!(chars_of("a-b é"), vec!['a', '-', 'b', ' ', 'é']);
    assert_eq!(chars_of(""), Vec::<char>::new());
    assert_eq!(string_of(&vec!['h', 'o', 'o', 'k']), "hook");
    assert_eq!(string_of(&chars_of("config-changed\u{1b}")), "config-changed\u{1b}");
    assert_eq!(string_of(&Vec::new()), "");
}

#[test]
fn extend_chars_appends() {
    let mut out = chars("ab");
    extend_chars(&mut out, &chars("cd"));
    assert_eq!(out, chars("abcd"));
    extend_chars(&mut out, &Vec::new());
    assert_eq!(out, chars("abcd"));
}

#[test]
fn extend_widened_reads_each_byte_as_a_character() {
    let mut out = chars("x");
    extend_widened(&mut out, &[0x61, 0x1b, 0xe9, 0x00]);
    assert_eq!(out, vec!['x', 'a', '\u{1b}', '\u{e9}', '\u{0}']);
}

#[test]
fn matches_at_checks_the_place() {
    let text = chars("abcabc");
    assert!(matches_at(&text, 0, &chars("abc")));
    assert!(matches_at(&text, 3, &chars("abc")));
    assert!(!matches_at(&text, 1, &chars("abc")));
    assert!(!matches_at(&text, 4, &chars("abc")));
    assert!(!matches_at(&text, 7, &chars("")));
    assert!(matches_at(&text, 6, &chars("")));
    assert!(!matches_at(&text, usize::MAX, &chars("a")));
}

#[test]
fn find_from_gives_the_first_place() {
    let text = chars("xxabxxab");
    assert_eq!(find_from(&text, 0, &chars("ab")), Some(2));
    assert_eq!(find_from(&text, 2, &chars("ab")), Some(2));
    assert_eq!(find_from(&text, 3, &chars("ab")), Some(6));
    assert_eq!(find_from(&text, 7, &chars("ab")), None);
    assert_eq!(find_from(&text, 0, &chars("abc")), None);
    assert_eq!(find_from(&text, 100, &chars("ab")), None);
    assert_eq!(find_from(&chars(""), 0, &chars("a")), None);
}

#[test]
fn replace_all_replaces_every_occurrence() {
    assert_eq!(replace("a b a", "a", "xy"), "xy b xy");
    assert_eq!(replace("aaa", "aa", "b"), "ba");
    assert_eq!(replace("abc", "d", "e"), "abc");
    assert_eq!(replace("", "a", "b"), "");
    assert_eq!(replace("abc", "", "x"), "abc");
    assert_eq!(replace("abcabc", "abc", ""), "");
    assert_eq!(replace("say \"hi\"", "\"", "\\\""), "say \\\"hi\\\"");
}

#[test]
fn replace_all_agrees_with_the_standard_library() {
    let cases = [
        ("        deep\n    once\n  two\n", "    ", "\\t"),
        ("x9999y99999", "9999", "12"),
        ("aXbXXc", "X", "--"),
        ("ababab", "aba", "c"),
        ("tail ab", "ab", "ab"),
    ];
    for (text, from, to) in cases {
        assert_eq!(replace(text, from, to), text.replace(from, to));
    }
}

#[test]
fn count_lines_counts_as_lines_does() {
    let cases = ["", "a", "a\n", "a\nb", "a\nb\n", "\n", "\n\n", "a\r\nb", "a\n\nb\n", "\r"];
    for text in cases {
        assert_eq!(count_lines(&chars(text)), text.lines().count(), "{:?}", text);
    }
    assert_eq!(count_lines(&chars("one\ntwo\nthree")), 3);
    assert_eq!(count_lines(&chars("")), 0);
}

#[test]
fn decimal_of_writes_numerals() {
    assert_eq!(string_of(&decimal_of(0)), "0");
    assert_eq!(string_of(&decimal_of(7)), "7");
    assert_eq!(string_of(&decimal_of(10)), "10");
    assert_eq!(string_of(&decimal_of(9999)), "9999");
    assert_eq!(string_of(&decimal_of(1234567890)), "1234567890");
    assert_eq!(string_of(&decimal_of(u128::MAX)), u128::MAX.to_string());
}

#[test]
fn same_text_compares_texts() {
    assert!(same_text("juju", "juju"));
    assert!(same_text("", ""));
    assert!(!same_text("juju", "juj"));
    assert!(!same_text("juju", "jujv"));
    assert!(!same_text("", "a"));
}

#[test]
fn holds_name_finds_a_name() {
    let names = vec!["mysql".to_string(), "wordpress".to_string()];
    assert!(holds_name(&names, "mysql"));
    assert!(holds_name(&names, "wordpress"));
    assert!(!holds_name(&names, "word"));
    assert!(!holds_name(&Vec::new(), "mysql"));
}
