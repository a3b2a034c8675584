use zephpost::text::chars_of;
use zephpost::text::has_keyword_prefix;
use zephpost::text::is_keyword;
use zephpost::text::lower_string_of;
use zephpost::text::drop_line_end;
use zephpost::text::split_at_spaces;
use zephpost::text::string_of;
use zephpost::text::to_ascii_lower;
use zephpost::text::to_ascii_upper;
use zephpost::text::trimmed_len;
use zephpost::utils::validate_email_address;

fn chars(s: &str) -> Vec<char> {
    s.chars().collect()
}

fn split(s: &str) -> Vec<String> {
    split_at_spaces(&chars(s))
        .iter()
        .map(|token| string_of(token))
        .collect()
}

#[test]
fn characters_round_trip() {
    assert_eq!(chars_of("a\u{e9}\u{1f600} z"), chars("a\u{e9}\u{1f600} z"));
    assert_eq!(string_of(&chars("a\u{e9}\u{1f600} z")), "a\u{e9}\u{1f600} z");
    assert_eq!(string_of(&chars("")), "");
}

#[test]
fn ascii_folding() {
    assert_eq!(to_ascii_upper('a'), 'A');
    assert_eq!(to_ascii_upper('z'), 'Z');
    assert_eq!(to_ascii_upper('Q'), 'Q');
    assert_eq!(to_ascii_upper('`'), '`');
    assert_eq!(to_ascii_upper('{'), '{');
    assert_eq!(to_ascii_upper('\u{e9}'), '\u{e9}');
    assert_eq!(to_ascii_lower('A'), 'a');
    assert_eq!(to_ascii_lower('Z'), 'z');
    assert_eq!(to_ascii_lower('@'), '@');
    assert_eq!(to_ascii_lower('['), '[');
    assert_eq!(to_ascii_lower('\u{c9}'), '\u{c9}');
    assert_eq!(lower_string_of(&chars("MiXeD-09.\u{c9}")), "mixed-09.\u{c9}");
}

#[test]
fn trailing_line_ends() {
    assert_eq!(trimmed_len(&chars("")), 0);
    assert_eq!(trimmed_len(&chars("\r\n")), 0);
    assert_eq!(trimmed_len(&chars("QUIT")), 4);
    assert_eq!(trimmed_len(&chars("QUIT\r\n")), 4);
    assert_eq!(trimmed_len(&chars("QUIT\n\n\r")), 4);
    assert_eq!(trimmed_len(&chars("a\rb\r")), 3);
    assert_eq!(trimmed_len(&chars("QUIT \r\n")), 5);
}

#[test]
fn splitting() {
    assert_eq!(split(""), vec![""]);
    assert_eq!(split("a"), vec!["a"]);
    assert_eq!(split("a b"), vec!["a", "b"]);
    assert_eq!(split("a  b"), vec!["a", "", "b"]);
    assert_eq!(split(" a"), vec!["", "a"]);
    assert_eq!(split("a "), vec!["a", ""]);
    assert_eq!(split(" "), vec!["", ""]);
    assert_eq!(split("MAIL FROM:<x@y.z> SIZE=1"), vec!["MAIL", "FROM:<x@y.z>", "SIZE=1"]);
    assert_eq!(split("a\tb"), vec!["a\tb"]);
}

#[test]
fn dropping_the_line_end() {
    for (line, kept) in [
        ("", ""),
        ("\r\n", ""),
        ("QUIT", "QUIT"),
        ("QUIT\r\n", "QUIT"),
        ("a\nb\n\n", "a\nb"),
        (" x \r", " x "),
    ] {
        let mut all = chars(line);
        drop_line_end(&mut all);
        assert_eq!(all, chars(kept));
    }
}

#[test]
fn joining_gives_the_line_back() {
    for line in ["", " ", "a", "a b", "  a  b  ", "MAIL FROM:<x@y.z>"] {
        assert_eq!(split(line).join(" "), line);
    }
}

#[test]
fn keywords() {
    assert!(is_keyword(&chars("quit"), "QUIT"));
    assert!(is_keyword(&chars("QuIt"), "QUIT"));
    assert!(!is_keyword(&chars("quits"), "QUIT"));
    assert!(!is_keyword(&chars("qui"), "QUIT"));
    assert!(!is_keyword(&chars(""), "QUIT"));
    assert!(has_keyword_prefix(&chars("from:<x>"), "FROM:<"));
    assert!(has_keyword_prefix(&chars("FROM:<"), "FROM:<"));
    assert!(!has_keyword_prefix(&chars("FROM:"), "FROM:<"));
    assert!(!has_keyword_prefix(&chars("FROM;<x>"), "FROM:<"));
}

#[test]
fn addresses() {
    assert!(validate_email_address("user@example.com"));
    assert!(validate_email_address("x@y.z"));
    assert!(validate_email_address("a@b"));
    assert!(validate_email_address("first.last+tag@sub-domain.example.org"));
    assert!(validate_email_address("A_b!#$%&'*+-/=?^`{|}~@host"));
    assert!(!validate_email_address("not-an-address"));
    assert!(!validate_email_address(""));
    assert!(!validate_email_address("@"));
    assert!(!validate_email_address("a@"));
    assert!(!validate_email_address("@b"));
    assert!(!validate_email_address("a@b@c"));
    assert!(!validate_email_address("a b@c"));
    assert!(!validate_email_address("a@b c"));
    assert!(!validate_email_address("a@b_c"));
    assert!(!validate_email_address("<a@b>"));
    assert!(!validate_email_address("a@b\r\n"));
    assert!(!validate_email_address("\u{e9}@b"));
}
