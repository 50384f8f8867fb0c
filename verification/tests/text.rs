use clips_app::progress::Stage;
use clips_app::text::{
    is_whitespace, same_text, ascii_lowercase, blank, chars_of, decimal, find_from, find_text, join2, join3, join_texts,
    same_ignoring_case, split, starts_with, text_of, trim,
};

#[test]
fn decimal_numerals() {
    assert_eq!(decimal(0), "0");
    assert_eq!(decimal(7), "7");
    assert_eq!(decimal(10), "10");
    assert_eq!(decimal(60_000), "60000");
    assert_eq!(decimal(1_234_567_890), "1234567890");
    assert_eq!(decimal(u64::MAX), "18446744073709551615");
}

#[test]
fn blank_texts() {
    assert!(blank(""));
    assert!(blank(" \t\r\n"));
    assert!(blank("\u{00A0}\u{3000}"));
    assert!(!blank(" a "));
    assert!(!blank("_"));
    assert!(!blank("\u{200B}"));
}

#[test]
fn joined_texts() {
    assert_eq!(join2("ab", "cd"), "abcd");
    assert_eq!(join2("", ""), "");
    assert_eq!(join3("a", "", "c"), "ac");
}

#[test]
fn lowercase_touches_ascii_capitals_only() {
    assert_eq!(ascii_lowercase("RAM"), "ram");
    assert_eq!(ascii_lowercase("Disk-9 @[`{"), "disk-9 @[`{");
    assert_eq!(ascii_lowercase("ÄZÜa"), "ÄzÜa");
    assert_eq!(ascii_lowercase(""), "");
}

#[test]
fn stage_labels() {
    assert_eq!(Stage::Detected.label(), "Detected");
    assert_eq!(Stage::Transform.label(), "Transforming audio/video");
    assert_eq!(Stage::AwaitExport.label(), "Awaiting export");
    assert_eq!(Stage::Finalise.label(), "Finalising files");
    assert_eq!(Stage::Upload.label(), "Uploading to YouTube");
    assert_eq!(Stage::Done.label(), "Completed");
}

#[test]
fn trim_takes_whitespace_off_both_ends() {
    assert_eq!(trim("  a b \t\n"), "a b");
    assert_eq!(trim("\u{00A0}x\u{2003}"), "x");
    assert_eq!(trim("x"), "x");
    assert_eq!(trim(" \n "), "");
    assert_eq!(trim(""), "");
    for text in ["", " ", " a", "a ", " a  b ", "\r\n", "\u{200B} x"] {
        assert_eq!(trim(text), text.trim());
    }
}

#[test]
fn characters_and_ranges() {
    assert_eq!(chars_of("aß✓"), vec!['a', 'ß', '✓']);
    let chars = chars_of("hello");
    assert_eq!(text_of(&chars, 1, 4), "ell");
    assert_eq!(text_of(&chars, 2, 2), "");
    assert_eq!(text_of(&chars, 0, 5), "hello");
}

#[test]
fn prefixes() {
    let chars = chars_of("Uid:\t1");
    assert!(starts_with(&chars, "Uid:"));
    assert!(starts_with(&chars, ""));
    assert!(!starts_with(&chars, "uid:"));
    assert!(!starts_with(&chars, "Uid:\t12"));
    assert!(starts_with(&chars_of(""), ""));
}

#[test]
fn searches() {
    let chars = chars_of("a=b=c");
    assert_eq!(find_from(&chars, 0, '='), Some(1));
    assert_eq!(find_from(&chars, 2, '='), Some(3));
    assert_eq!(find_from(&chars, 4, '='), None);
    assert_eq!(find_from(&chars, 9, '='), None);
    assert_eq!(find_text(&chars, "=c"), Some(3));
    assert_eq!(find_text(&chars, "="), Some(1));
    assert_eq!(find_text(&chars, ""), Some(0));
    assert_eq!(find_text(&chars, "a=b=c"), Some(0));
    assert_eq!(find_text(&chars, "a=b=c="), None);
    assert_eq!(find_text(&chars_of("aab"), "ab"), Some(1));
}

#[test]
fn splits() {
    assert_eq!(split("Alt+X", '+'), vec!["Alt".to_string(), "X".to_string()]);
    assert_eq!(split("", '+'), vec![String::new()]);
    assert_eq!(split("+", '+'), vec![String::new(), String::new()]);
    for text in ["a+b+c", "++", "a+", "+a", "no separator"] {
        let expected: Vec<String> = text.split('+').map(|part| part.to_string()).collect();
        assert_eq!(split(text, '+'), expected);
    }
}

#[test]
fn joins() {
    let parts = vec!["a".to_string(), String::new(), "c".to_string()];
    assert_eq!(join_texts(&parts, ";"), "a;;c");
    assert_eq!(join_texts(&parts, ""), "ac");
    assert_eq!(join_texts(&Vec::new(), ";"), "");
    assert_eq!(join_texts(&vec!["only".to_string()], ";"), "only");
}

#[test]
fn case_is_ignored_for_ascii_letters() {
    assert!(same_ignoring_case("Voice", "vOICE"));
    assert!(same_ignoring_case("", ""));
    assert!(!same_ignoring_case("voice", "voices"));
    assert!(!same_ignoring_case("ä", "Ä"));
}

#[test]
fn whitespace_is_what_the_standard_library_calls_so() {
    let mut count = 0;
    for code in 0..=0x10FFFFu32 {
        if let Some(c) = char::from_u32(code) {
            assert_eq!(is_whitespace(c), c.is_whitespace(), "U+{code:04X}");
            if is_whitespace(c) {
                count += 1;
            }
        }
    }
    assert_eq!(count, 25);
    assert!(is_whitespace(' '));
    assert!(is_whitespace('\u{3000}'));
    assert!(!is_whitespace('\u{200B}'));
    assert!(!is_whitespace('d'));
}

#[test]
fn texts_are_the_same_when_their_characters_are() {
    assert!(same_text("", ""));
    assert!(same_text("auto", "auto"));
    assert!(same_text("ÄÖ✓", "ÄÖ✓"));
    assert!(!same_text("auto", "Auto"));
    assert!(!same_text("auto", "auto "));
    assert!(!same_text("", " "));
    assert!(!same_text("ab", "ba"));
}
