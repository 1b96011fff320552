use dioxus_test::text::{chars_of, contains_text, join_strings};

#[test]
fn contains_text_finds_substrings() {
    assert!(contains_text("Click me!", "me"));
    assert!(contains_text("Click me!", ""));
    assert!(contains_text("Click me!", "Click me!"));
    assert!(!contains_text("Click me!", "Click me!!"));
    assert!(!contains_text("", "a"));
    assert!(contains_text("aaab", "aab"));
    assert!(contains_text("héllo wörld", "ö"));
}

#[test]
fn join_strings_puts_separator_between_parts() {
    let parts = vec!["a".to_string(), "bc".to_string(), "".to_string(), "d".to_string()];
    assert_eq!(join_strings(&parts, " "), "a bc  d");
    assert_eq!(join_strings(&vec![], ", "), "");
    assert_eq!(join_strings(&vec!["only".to_string()], ", "), "only");
}

#[test]
fn chars_of_lists_characters() {
    assert_eq!(chars_of("añb"), vec!['a', 'ñ', 'b']);
}
