use druid_garden_os::text::{
    chars_of, join_path, next_word, push_decimal, push_squeezed, same_text,
};
use druid_garden_os::{named_version, pkg_name, version};

#[test]
fn named_version_joins_name_and_version() {
    assert_eq!(named_version(), "druid_garden_os: 0.1.0");
    assert_eq!(named_version(), format!("{}: {}", pkg_name(), version()));
}

#[test]
fn chars_of_gives_the_characters() {
    assert_eq!(chars_of("héllo"), vec!['h', 'é', 'l', 'l', 'o']);
    assert_eq!(chars_of(""), Vec::<char>::new());
}

#[test]
fn same_text_compares_characters() {
    assert!(same_text("abc", "abc"));
    assert!(same_text("", ""));
    assert!(!same_text("abc", "abd"));
    assert!(!same_text("abc", "ab"));
    assert!(!same_text("abc", "ABC"));
}

#[test]
fn push_decimal_writes_numbers() {
    for (number, text) in [
        (0u64, "0"),
        (7, "7"),
        (10, "10"),
        (9090, "9090"),
        (u64::MAX, "18446744073709551615"),
    ] {
        let mut out = String::from("n=");
        push_decimal(&mut out, number);
        assert_eq!(out, format!("n={}", text));
    }
}

#[test]
fn push_squeezed_makes_each_run_of_slashes_one() {
    let cases = [
        ("a//b", "a/b"),
        ("a///b", "a/b"),
        ("a//////b//c/", "a/b/c/"),
        ("//", "/"),
        ("/", "/"),
        ("", ""),
        ("no slashes", "no slashes"),
    ];
    for (text, expected) in cases {
        let mut out = String::from(">");
        push_squeezed(&mut out, &chars_of(text), 0);
        assert_eq!(out, format!(">{}", expected));
    }
    let mut out = String::from("ab");
    push_squeezed(&mut out, &chars_of("ab//c//d"), 2);
    assert_eq!(out, "ab/c/d");
    let mut end = String::new();
    push_squeezed(&mut end, &chars_of("abc"), 3);
    assert_eq!(end, "");
}

#[test]
fn join_path_puts_a_path_under_a_folder() {
    assert_eq!(join_path("./plugins", "tool"), "./plugins/tool");
    assert_eq!(join_path("./plugins/", "tool"), "./plugins/tool");
    assert_eq!(join_path("", "tool"), "tool");
    assert_eq!(join_path("/opt", "/abs"), "/abs");
    assert_eq!(join_path("/opt", ""), "/opt/");
    for (base, path) in [("./plugins", "tool"), ("a/", "b"), ("", "c"), ("/x", "/y"), ("/", "z")] {
        let expected = std::path::Path::new(base).join(path);
        assert_eq!(join_path(base, path), expected.to_string_lossy());
    }
}

#[test]
fn next_word_finds_words_between_whitespace() {
    let chars = chars_of("  fast_farmer \t1.2.3\n");
    let (first, after_first) = next_word(&chars, 0);
    assert_eq!(first, Some(String::from("fast_farmer")));
    assert_eq!(after_first, 13);
    let (second, after_second) = next_word(&chars, after_first);
    assert_eq!(second, Some(String::from("1.2.3")));
    assert_eq!(after_second, 20);
    let (third, after_third) = next_word(&chars, after_second);
    assert_eq!(third, None);
    assert_eq!(after_third, 21);
}

#[test]
fn next_word_knows_unicode_whitespace() {
    let chars = chars_of("a\u{a0}b\u{2003}c");
    let (first, rest) = next_word(&chars, 0);
    assert_eq!(first, Some(String::from("a")));
    let (second, rest) = next_word(&chars, rest);
    assert_eq!(second, Some(String::from("b")));
    let (third, _) = next_word(&chars, rest);
    assert_eq!(third, Some(String::from("c")));
    let words: Vec<&str> = "a\u{a0}b\u{2003}c".split_whitespace().collect();
    assert_eq!(words, vec!["a", "b", "c"]);
}

#[test]
fn next_word_of_nothing_is_nothing() {
    let chars = chars_of("");
    assert_eq!(next_word(&chars, 0), (None, 0));
    let blank = chars_of("   ");
    assert_eq!(next_word(&blank, 0), (None, 3));
}
