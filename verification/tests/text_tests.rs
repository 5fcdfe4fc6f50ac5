use mize_dev::text::{contains_char, join_texts, same_text, split_text, text_of, unescape_newlines_text};

#[test]
fn split_text_keeps_empty_pieces() {
    let words = split_text("a  b ", ' ');
    assert_eq!(words, vec!["a".to_string(), "".to_string(), "b".to_string(), "".to_string()]);
}

#[test]
fn split_text_of_empty_text_is_one_empty_piece() {
    assert_eq!(split_text("", ' '), vec!["".to_string()]);
}

#[test]
fn join_texts_from_a_position() {
    let words = vec!["Run".to_string(), "echo".to_string(), "hi".to_string()];
    assert_eq!(join_texts(&words, 1, " "), "echo hi");
    assert_eq!(join_texts(&words, 0, ""), "Runechohi");
    assert_eq!(join_texts(&words, 3, " "), "");
}

#[test]
fn join_of_split_gives_the_text_back() {
    for line in ["", " ", "a b", "  lead", "trail  ", "x y  z"] {
        let words = split_text(line, ' ');
        assert_eq!(join_texts(&words, 0, " "), line);
    }
}

#[test]
fn unescape_turns_escapes_into_newlines() {
    assert_eq!(unescape_newlines_text("a\\nb"), "a\nb");
    assert_eq!(unescape_newlines_text("\\\\n"), "\\\n");
    assert_eq!(unescape_newlines_text("no escapes"), "no escapes");
    assert_eq!(unescape_newlines_text("end\\"), "end\\");
    assert_eq!(unescape_newlines_text("\\n\\n"), "\n\n");
}

#[test]
fn same_text_and_contains_char() {
    assert!(same_text("Run", "Run"));
    assert!(!same_text("Run", "run"));
    assert!(!same_text("Run", "Runs"));
    assert!(contains_char("a=b", '='));
    assert!(!contains_char("ab", '='));
    assert_eq!(text_of("héllo"), "héllo");
}
