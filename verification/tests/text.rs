use rauthy_pam_nss::text::{
    chars_of, concat2, concat3, contains, decimal_string, has_char, join_path, line_starts_with,
    lines, matches_at, parse_u32, push_decimal, split, starts_with, str_equal,
};

fn chars(s: &str) -> Vec<char> {
    s.chars().collect()
}

#[test]
fn characters_of_a_text() {
    assert_eq!(chars_of(""), Vec::<char>::new());
    assert_eq!(chars_of("aé𝄞"), vec!['a', 'é', '𝄞']);
}

#[test]
fn texts_are_compared_by_their_characters() {
    assert!(str_equal("", ""));
    assert!(str_equal("abc", "abc"));
    assert!(!str_equal("abc", "abd"));
    assert!(!str_equal("abc", "ab"));
    assert!(!str_equal("é", "e"));
    assert!(str_equal("é𝄞", "é𝄞"));
}

#[test]
fn texts_are_joined() {
    assert_eq!(concat2("ab", "cd"), "abcd");
    assert_eq!(concat2("", ""), "");
    assert_eq!(concat3("a", "", "b"), "ab");
    assert_eq!(concat3("x", "yy", "zzz"), "xyyzzz");
}

#[test]
fn numbers_are_written_in_decimal() {
    for n in [0u64, 1, 9, 10, 11, 99, 100, 101, 65_535, 100_000, 4_294_967_295, u64::MAX] {
        assert_eq!(decimal_string(n), n.to_string());
    }
    let mut s = "uid=".to_string();
    push_decimal(&mut s, 1005);
    assert_eq!(s, "uid=1005");
}

#[test]
fn numbers_are_read_from_decimal() {
    assert_eq!(parse_u32(&chars("0")), Some(0));
    assert_eq!(parse_u32(&chars("007")), Some(7));
    assert_eq!(parse_u32(&chars("+12")), Some(12));
    assert_eq!(parse_u32(&chars("4294967295")), Some(u32::MAX));
    assert_eq!(parse_u32(&chars("4294967296")), None);
    assert_eq!(parse_u32(&chars("99999999999999999999999999")), None);
    assert_eq!(parse_u32(&chars("")), None);
    assert_eq!(parse_u32(&chars("+")), None);
    assert_eq!(parse_u32(&chars("-1")), None);
    assert_eq!(parse_u32(&chars("1a")), None);
    assert_eq!(parse_u32(&chars(" 1")), None);
    assert_eq!(parse_u32(&chars("++1")), None);
    assert_eq!(parse_u32(&chars("١٢")), None);
    for s in ["0", "000", "+0", "12", "+", "", "4294967295", "4294967296", "x", "1 ", "-0"] {
        assert_eq!(parse_u32(&chars(s)), s.parse::<u32>().ok(), "{s:?}");
    }
}

#[test]
fn texts_are_split_at_a_separator() {
    for s in ["", "a", ":", "a:b", "a::b", ":a:", "wheel:x:10:root,alice", ":::", "é:𝄞"] {
        let expected: Vec<String> = s.split(':').map(String::from).collect();
        assert_eq!(split(s, ':'), expected, "{s:?}");
    }
    assert_eq!(split("a,b,,c", ','), vec!["a", "b", "", "c"]);
    assert_eq!(split("", ','), vec![""]);
}

#[test]
fn texts_are_cut_into_lines() {
    for s in [
        "",
        "\n",
        "a",
        "a\n",
        "a\nb",
        "a\r\nb\r\n",
        "a\r",
        "a\r\n\r\nb",
        "\r\n",
        "a\n\nb\n\n",
        "a\rb\n",
        "x\r\r\n",
    ] {
        let expected: Vec<String> = s.lines().map(String::from).collect();
        assert_eq!(lines(s), expected, "{s:?}");
    }
}

#[test]
fn searching_in_texts() {
    let hay = chars("Please Touch the key");
    assert!(contains(&hay, &chars("Touch")));
    assert!(contains(&hay, &chars("")));
    assert!(contains(&hay, &chars("key")));
    assert!(contains(&hay, &chars("Please")));
    assert!(!contains(&hay, &chars("touch")));
    assert!(!contains(&hay, &chars("keys")));
    assert!(!contains(&chars(""), &chars("a")));
    assert!(contains(&chars(""), &chars("")));
    assert!(starts_with(&hay, &chars("Please")));
    assert!(starts_with(&hay, &chars("")));
    assert!(!starts_with(&hay, &chars("lease")));
    assert!(!starts_with(&chars("ab"), &chars("abc")));
    assert!(matches_at(&chars("Touch"), &hay, 7));
    assert!(!matches_at(&chars("Touch"), &hay, 6));
    assert!(!matches_at(&chars("Touch"), &hay, 18));
    assert!(!matches_at(&chars("x"), &hay, usize::MAX));
    assert!(has_char(&hay, 'T'));
    assert!(!has_char(&hay, 'z'));
}

#[test]
fn lines_that_start_with_a_text() {
    let text = chars("one\ntwo\nthree");
    assert!(line_starts_with(&text, &chars("one")));
    assert!(line_starts_with(&text, &chars("tw")));
    assert!(line_starts_with(&text, &chars("three")));
    assert!(!line_starts_with(&text, &chars("wo")));
    assert!(!line_starts_with(&text, &chars("one\ntwo")));
    assert!(line_starts_with(&text, &chars("")));
    assert!(!line_starts_with(&text, &chars("threes")));
}

#[test]
fn paths_are_joined_as_the_file_system_joins_them() {
    for (base, name) in [
        ("/var/lib", "alice"),
        ("/var/lib/", "alice"),
        ("/var/lib", "/etc/passwd"),
        ("", "alice"),
        ("/home", ""),
        ("/", "x"),
        ("rel", "a/b"),
        ("/home", "é"),
    ] {
        let expected = std::path::Path::new(base).join(name);
        assert_eq!(join_path(base, name), expected.to_str().unwrap(), "{base:?} {name:?}");
    }
    assert_eq!(join_path("/home", "alice"), "/home/alice");
}
