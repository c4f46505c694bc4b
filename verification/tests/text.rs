use devdash::text::chars_of;
use devdash::text::first_line;
use devdash::text::fitting;
use devdash::text::prefix;
use devdash::text::repo_name;
use devdash::text::str_eq;

#[test]
fn str_eq_compares_characters() {
    assert!(str_eq("", ""));
    assert!(str_eq("completed", "completed"));
    assert!(!str_eq("completed", "complete"));
    assert!(!str_eq("completed", "Completed"));
    assert!(!str_eq("a", ""));
    assert!(str_eq("grüße", "grüße"));
    assert!(!str_eq("grüße", "grusse"));
}

#[test]
fn prefix_takes_whole_characters() {
    assert_eq!(prefix("0123456789", 7), "0123456");
    assert_eq!(prefix("0123456", 7), "0123456");
    assert_eq!(prefix("012", 7), "012");
    assert_eq!(prefix("", 7), "");
    assert_eq!(prefix("abc", 0), "");
    assert_eq!(prefix("héllo wörld", 2), "hé");
    assert_eq!(prefix("abc", usize::MAX), "abc");
}

#[test]
fn first_line_stops_at_the_line_feed() {
    assert_eq!(first_line("one\ntwo\nthree"), "one");
    assert_eq!(first_line("one"), "one");
    assert_eq!(first_line(""), "");
    assert_eq!(first_line("\nrest"), "");
    assert_eq!(first_line("one\n"), "one");
}

#[test]
fn first_line_drops_the_carriage_return_before_the_line_feed() {
    assert_eq!(first_line("one\r\ntwo"), "one");
    assert_eq!(first_line("\r\ntwo"), "");
    assert_eq!(first_line("one\r\r\ntwo"), "one\r");
    assert_eq!(first_line("one\rtwo\nthree"), "one\rtwo");
}

#[test]
fn first_line_keeps_a_bare_carriage_return_at_the_end() {
    assert_eq!(first_line("one\r"), "one\r");
    assert_eq!(first_line("\r"), "\r");
}

#[test]
fn first_line_agrees_with_lines() {
    let samples = ["", "a", "a\nb", "a\r\nb", "a\r", "\n", "\r\n", "\r\r\n", "ü\r\nö", "x\n\ny"];
    for sample in samples {
        assert_eq!(first_line(sample), sample.lines().next().unwrap_or(""));
    }
}

#[test]
fn repo_name_is_what_follows_the_last_slash() {
    assert_eq!(repo_name("https://github.com/owner/devdash.git"), "devdash");
    assert_eq!(repo_name("https://github.com/owner/devdash"), "devdash");
    assert_eq!(repo_name("git@github.com:owner/devdash.git"), "devdash");
    assert_eq!(repo_name("devdash.git"), "devdash");
    assert_eq!(repo_name("devdash"), "devdash");
    assert_eq!(repo_name("https://example.org/owner/"), "");
    assert_eq!(repo_name(""), "");
}

#[test]
fn repo_name_drops_every_git_ending() {
    assert_eq!(repo_name("a/name.git.git"), "name");
    assert_eq!(repo_name("a/.git"), "");
    assert_eq!(repo_name("a/.git.git"), "");
    assert_eq!(repo_name("a/name.gitx"), "name.gitx");
    assert_eq!(repo_name("a/name.git.x"), "name.git.x");
    assert_eq!(repo_name("a/git"), "git");
    assert_eq!(repo_name("a/xgit"), "xgit");
}

#[test]
fn repo_name_agrees_with_split_and_trim() {
    let samples = ["", "/", "a", "a/b", "a/b.git", "a.git/b", "x/.git.git.git", "ü/ö.git", "a//"];
    for sample in samples {
        let expected = sample.split('/').last().unwrap().trim_end_matches(".git");
        assert_eq!(repo_name(sample), expected);
    }
}

#[test]
fn chars_of_lists_the_characters() {
    assert_eq!(chars_of("aü/"), vec!['a', 'ü', '/']);
    assert_eq!(chars_of(""), Vec::<char>::new());
}

#[test]
fn fitting_keeps_whole_characters_within_the_bytes() {
    assert_eq!(fitting("hello", 5), "hello");
    assert_eq!(fitting("hello", 9), "hello");
    assert_eq!(fitting("hello", 4), "hell");
    assert_eq!(fitting("hello", 0), "");
    assert_eq!(fitting("", 0), "");
    assert_eq!(fitting("", 3), "");
    assert_eq!(fitting("üü", 4), "üü");
    assert_eq!(fitting("üü", 3), "ü");
    assert_eq!(fitting("üü", 2), "ü");
    assert_eq!(fitting("üü", 1), "");
    assert_eq!(fitting("a\u{20AC}b", 3), "a");
    assert_eq!(fitting("a\u{20AC}b", 4), "a\u{20AC}");
    assert_eq!(fitting("\u{1F600}", 3), "");
    assert_eq!(fitting("\u{1F600}", 4), "\u{1F600}");
    assert_eq!(fitting("abc", usize::MAX), "abc");
}

#[test]
fn fitting_agrees_with_slicing_at_a_boundary() {
    let text = "aé\u{20AC}\u{1F600}z";
    for limit in 0..text.len() + 2 {
        let head = fitting(text, limit);
        assert!(head.len() <= limit);
        assert!(text.starts_with(head));
        if limit <= text.len() && text.is_char_boundary(limit) {
            assert_eq!(head, &text[..limit]);
        }
        if limit >= text.len() {
            assert_eq!(head, text);
        }
    }
}
