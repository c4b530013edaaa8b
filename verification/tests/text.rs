use baru::text::{
    chars_of, contains, has_prefix, replace, same_text, split_words, string_of, trim,
};
use baru::util::parse_content;

#[test]
fn replace_all_occurrences() {
    assert_eq!(replace("%l:%v", "%v", "85%"), "%l:85%");
    assert_eq!(replace("%l:85%", "%l", "bat"), "bat:85%");
    assert_eq!(replace("a%vb%vc", "%v", ""), "abc");
    assert_eq!(replace("no marker", "%v", "x"), "no marker");
    assert_eq!(replace("", "%v", "x"), "");
    assert_eq!(replace("%", "%v", "x"), "%");
    assert_eq!(replace("%v", "%v", "%v%v"), "%v%v");
}

#[test]
fn replace_does_not_overlap() {
    assert_eq!(replace("aaa", "aa", "b"), "ba");
    assert_eq!(replace("aaaa", "aa", "b"), "bb");
    assert_eq!(replace("\\\\%", "\\%", "%"), "\\%");
}

#[test]
fn replace_of_empty_pattern() {
    assert_eq!(replace("abc", "", "-"), "-a-b-c-");
    assert_eq!(replace("", "", "-"), "-");
}

#[test]
fn replace_agrees_with_std() {
    let cases = [
        ("%v%v%l", "%v", "1"),
        ("héllo wörld", "ö", "oe"),
        ("abcabcabc", "bc", "x"),
        ("abc", "abcd", "x"),
        ("xxx", "x", "xx"),
        ("a\\%b\\%", "\\%", "%"),
        ("ab", "", "é"),
    ];
    for (s, from, to) in cases {
        assert_eq!(replace(s, from, to), s.replace(from, to));
    }
}

#[test]
fn characters_round_trip() {
    let s = "a é ✗ %";
    let chars = chars_of(s);
    assert_eq!(chars, vec!['a', ' ', 'é', ' ', '✗', ' ', '%']);
    assert_eq!(string_of(&chars), s);
    assert!(chars_of("").is_empty());
}

#[test]
fn comparisons() {
    assert!(same_text("Full", "Full"));
    assert!(!same_text("Full", "full"));
    assert!(!same_text("Full", "Ful"));
    assert!(same_text("", ""));
    assert!(has_prefix("POWER_SUPPLY_STATUS=Full", "POWER_SUPPLY_STATUS"));
    assert!(!has_prefix("POWER", "POWER_SUPPLY"));
    assert!(has_prefix("abc", ""));
    assert!(contains("xxPOWERxx", "POWER"));
    assert!(contains("POWER", "POWER"));
    assert!(contains("abc", ""));
    assert!(contains("", ""));
    assert!(!contains("POWE", "POWER"));
    assert!(!contains("abcabd", "abe"));
    assert!(contains("abcabd", "abd"));
}

#[test]
fn words_agree_with_std() {
    let lines = [
        "cpu  4705 356  584    3699 23 23 0 0 0 0",
        "",
        "   ",
        "one",
        " lead and trail ",
        "tab\tand\nnewline\u{b}vt\u{a0}nbsp\u{3000}wide",
        "cpu MHz\t\t: 1800.000",
    ];
    for line in lines {
        let expected: Vec<String> = line.split_whitespace().map(|w| w.to_string()).collect();
        assert_eq!(split_words(line, false), expected);
        let expected: Vec<String> =
            line.split_ascii_whitespace().map(|w| w.to_string()).collect();
        assert_eq!(split_words(line, true), expected);
    }
}

#[test]
fn trim_agrees_with_std() {
    let samples = [
        "", " ", "a", " a", "a ", "  a b  ", "\n42\n", "\t\u{a0}x\u{3000}\r\n", "\u{b}v\u{c}",
        " é ",
    ];
    for s in samples {
        assert_eq!(trim(s), s.trim());
    }
    assert_eq!(trim("  a b  "), "a b");
}

#[test]
fn content_of_a_file_as_number() {
    assert_eq!(parse_content("42\n").unwrap(), 42);
    assert_eq!(parse_content("  -7 ").unwrap(), -7);
    assert_eq!(
        parse_content("\n").err().unwrap().to_string(),
        "cannot parse integer from empty string"
    );
    assert_eq!(
        parse_content("4 2").err().unwrap().to_string(),
        "invalid digit found in string"
    );
    assert_eq!(
        parse_content("3000000000").err().unwrap().to_string(),
        "number too large to fit in target type"
    );
    assert_eq!(
        parse_content("-3000000000").err().unwrap().to_string(),
        "number too small to fit in target type"
    );
}
