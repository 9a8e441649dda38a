use github_actions_ls::text::{
    chars_of, ends_with, find_from, is_white_space, same_text, slice_of, starts_with, trim_bounds,
};

fn chars(s: &str) -> Vec<char> {
    s.chars().collect()
}

fn trim(s: &str) -> String {
    let text = chars(s);
    let (from, to) = trim_bounds(&text);
    text[from..to].iter().collect()
}

#[test]
fn chars_of_lists_characters() {
    assert_eq!(chars_of("a/é"), vec!['a', '/', 'é']);
    assert_eq!(chars_of(""), Vec::<char>::new());
}

#[test]
fn slice_of_counts_characters_not_bytes() {
    assert_eq!(slice_of("héllo", 1, 3), "él");
    assert_eq!(slice_of("héllo", 0, 5), "héllo");
    assert_eq!(slice_of("héllo", 2, 2), "");
}

#[test]
fn starts_with_compares_the_front() {
    assert!(starts_with(&chars("https://x"), &chars("https://")));
    assert!(starts_with(&chars("abc"), &chars("")));
    assert!(starts_with(&chars("abc"), &chars("abc")));
    assert!(!starts_with(&chars("abc"), &chars("abcd")));
    assert!(!starts_with(&chars("abc"), &chars("b")));
}

#[test]
fn ends_with_compares_the_back() {
    assert!(ends_with(&chars("repo.git"), &chars(".git")));
    assert!(ends_with(&chars(".git"), &chars(".git")));
    assert!(ends_with(&chars("abc"), &chars("")));
    assert!(!ends_with(&chars("git"), &chars(".git")));
    assert!(!ends_with(&chars("repo.git "), &chars(".git")));
}

#[test]
fn same_text_is_equality() {
    assert!(same_text("GITHUB_TOKEN", "GITHUB_TOKEN"));
    assert!(same_text("", ""));
    assert!(!same_text("GITHUB_TOKEN", "GITHUB_TOKE"));
    assert!(!same_text("GITHUB_TOKE", "GITHUB_TOKEN"));
    assert!(!same_text("GH_TOKEN", "gh_token"));
}

#[test]
fn find_from_gives_the_first_separator() {
    let text = chars("a/bc/d");
    assert_eq!(find_from(&text, 0, '/'), 1);
    assert_eq!(find_from(&text, 1, '/'), 1);
    assert_eq!(find_from(&text, 2, '/'), 4);
    assert_eq!(find_from(&text, 5, '/'), 6);
    assert_eq!(find_from(&text, 6, '/'), 6);
    assert_eq!(find_from(&chars(""), 0, '/'), 0);
}

#[test]
fn white_space_is_what_the_standard_library_calls_so() {
    let mut n: u32 = 0;
    while n <= 0x10FFFF {
        if let Some(c) = char::from_u32(n) {
            assert_eq!(is_white_space(c), c.is_whitespace(), "U+{:04X}", n);
        }
        n += 1;
    }
}

#[test]
fn trimming_removes_white_space_at_both_ends() {
    assert_eq!(trim("https://github.com/acme/widgets\n"), "https://github.com/acme/widgets");
    assert_eq!(trim("  \t a b \r\n"), "a b");
    assert_eq!(trim("\u{a0}x\u{2003}"), "x");
    assert_eq!(trim("x"), "x");
    assert_eq!(trim(""), "");
    assert_eq!(trim(" \n\t"), "");
}

#[test]
fn trimming_agrees_with_the_standard_library() {
    let samples = ["", " ", "a", " a", "a ", " a b ", "\n\na\n", "\u{3000}a\u{85}", "a\u{200b}"];
    for s in samples {
        assert_eq!(trim(s), s.trim());
    }
}
