use markdown_blockquote_formatter::whitespace::{blank, content_len, is_space_char};

#[test]
fn test_is_space_char() {
    assert!(is_space_char(' '));
    assert!(is_space_char('\n'));
    assert!(is_space_char('\t'));
    assert!(is_space_char('\r'));
    assert!(is_space_char('\u{a0}'));
    assert!(is_space_char('\u{3000}'));
    assert!(!is_space_char('a'));
    assert!(!is_space_char('>'));
    assert!(!is_space_char('…'));
    assert!(!is_space_char('\u{200b}'));
    assert!(!is_space_char('越'));
}

#[test]
fn test_blank() {
    assert!(blank(""));
    assert!(blank(" \n  \t "));
    assert!(!blank(" \n x \t "));
    assert!(!blank("x"));
}

#[test]
fn test_content_len() {
    assert_eq!(content_len(""), 0);
    assert_eq!(content_len("   "), 0);
    assert_eq!(content_len("ab"), 2);
    assert_eq!(content_len("ab \n"), 2);
    assert_eq!(content_len("  ab c \n\t"), 6);
    assert_eq!(content_len("日本語 \n"), 3);
}
