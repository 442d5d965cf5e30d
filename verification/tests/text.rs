use auth_gate::text::{characters, is_whitespace, split, split_words, Separator};

#[test]
fn whitespace_is_what_std_calls_whitespace() {
    let mut code: u32 = 0;
    while code <= 0x10FFFF {
        if let Some(c) = char::from_u32(code) {
            assert_eq!(is_whitespace(c), c.is_whitespace(), "U+{:04X}", code);
        }
        code += 1;
    }
}

#[test]
fn separators_tell_their_characters() {
    assert!(Separator::Dot.is_separator('.'));
    assert!(!Separator::Dot.is_separator(' '));
    assert!(Separator::Whitespace.is_separator(' '));
    assert!(Separator::Whitespace.is_separator('\t'));
    assert!(Separator::Whitespace.is_separator('\u{3000}'));
    assert!(!Separator::Whitespace.is_separator('.'));
    assert!(!Separator::Whitespace.is_separator('\u{200B}'));
}

#[test]
fn characters_come_in_order() {
    assert_eq!(characters("a.b"), vec!['a', '.', 'b']);
    assert_eq!(characters(""), Vec::<char>::new());
    assert_eq!(characters("é¤"), vec!['é', '¤']);
}

#[test]
fn split_keeps_empty_fields() {
    assert_eq!(split("a.b.c", Separator::Dot), vec!["a", "b", "c"]);
    assert_eq!(split("", Separator::Dot), vec![""]);
    assert_eq!(split(".", Separator::Dot), vec!["", ""]);
    assert_eq!(split("a..b", Separator::Dot), vec!["a", "", "b"]);
    assert_eq!(split(".a.", Separator::Dot), vec!["", "a", ""]);
    assert_eq!(split("no dots", Separator::Dot), vec!["no dots"]);
}

#[test]
fn split_agrees_with_std() {
    let samples = [
        "",
        ".",
        "..",
        "a",
        "a.b",
        "héllo.wörld.",
        ".x.y.z",
        "aaa.bbb.ccc.ddd",
        "one two.three four",
    ];
    for sample in samples {
        let expected: Vec<String> = sample.split('.').map(|s| s.to_string()).collect();
        assert_eq!(split(sample, Separator::Dot), expected, "{:?}", sample);
        let expected: Vec<String> =
            sample.split(char::is_whitespace).map(|s| s.to_string()).collect();
        assert_eq!(split(sample, Separator::Whitespace), expected, "{:?}", sample);
    }
}

#[test]
fn words_leave_out_empty_fields() {
    assert_eq!(split_words("  Bearer   abc ", Separator::Whitespace), vec!["Bearer", "abc"]);
    assert_eq!(split_words("", Separator::Whitespace), Vec::<String>::new());
    assert_eq!(split_words(" \t\n", Separator::Whitespace), Vec::<String>::new());
    assert_eq!(split_words("a..b.", Separator::Dot), vec!["a", "b"]);
}

#[test]
fn words_agree_with_std() {
    let samples = [
        "",
        " ",
        "Bearer abc",
        "Bearer\tabc",
        "Bearer\u{00A0}abc",
        "\u{2003}Bearer\u{2028}abc\u{3000}",
        "a b c d",
        "Bearer\u{200B}abc",
        "\r\n x \r\n",
    ];
    for sample in samples {
        let expected: Vec<String> = sample.split_whitespace().map(|s| s.to_string()).collect();
        assert_eq!(split_words(sample, Separator::Whitespace), expected, "{:?}", sample);
    }
}
