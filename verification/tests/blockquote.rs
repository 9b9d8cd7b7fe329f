use markdown_blockquote_formatter::blockquote::write_char;
use markdown_blockquote_formatter::Blockquote;

#[test]
fn test_simple() {
    const INPUT: &str = "this is a simple test";
    const OUTPUT: &str = "> this is a simple test";

    let formatter = Blockquote::new(INPUT).soft_limit(50);

    assert_eq!(formatter.render(), OUTPUT);
}

#[test]
fn test_is_empty() {
    assert!(Blockquote::new("").is_empty());
    assert!(Blockquote::new(" \n  \t ").is_empty());
}

#[test]
fn test_newlines() {
    const EXPECTED: &str = "> test\n> two\n> three";

    let formatter = Blockquote::new("test\ntwo\nthree").soft_limit(50);

    assert_eq!(formatter.render(), EXPECTED);
}

#[test]
fn test_soft_limit() {
    const EXPECTED: &str = "> this is just:\n> a really cool…";

    let before_cut = "this is just:\na really co";
    let after_cut = "ol test!";
    let text = before_cut.to_owned() + after_cut;

    let formatter = Blockquote::new(&text)
        .soft_limit(before_cut.len())
        .hard_limit(10);

    assert_eq!(formatter.render(), EXPECTED);
}

#[test]
fn test_soft_limit_cutoff() {
    const EXPECTED: &str = "> this is just:\n> a really coo…";

    let before_cut = "this is just:\na really co";
    let after_cut = "ol test!";
    let text = before_cut.to_owned() + after_cut;

    let formatter = Blockquote::new(&text)
        .soft_limit(before_cut.len())
        .hard_limit(1);

    assert_eq!(formatter.render(), EXPECTED);
}

#[test]
fn test_soft_limit_none() {
    const INPUT: &str = "this text is too long :(";
    const OUTPUT: &str = "> this text is too lo…";

    let formatter = Blockquote::new(INPUT).soft_limit(19);

    assert_eq!(formatter.render(), OUTPUT);
}

#[test]
fn test_soft_limit_zero() {
    const INPUT: &str = "this text is too long :(";
    const OUTPUT: &str = "> this text is too lo…";

    let formatter = Blockquote::new(INPUT).soft_limit(19);

    assert_eq!(formatter.render(), OUTPUT);
}

#[test]
fn test_end_with_newline() {
    const INPUT: &str = "test\nagain\n\n";
    const OUTPUT: &str = "> test\n> again";

    let formatter = Blockquote::new(INPUT);
    assert_eq!(formatter.render(), OUTPUT);
}

#[test]
fn test_defaults_quote_everything() {
    let formatter = Blockquote::new("hey, this is cool!");

    assert_eq!(formatter.render(), "> hey, this is cool!");
    assert!(!formatter.is_empty());
    assert!(!formatter.reached_limit(usize::MAX - 1, true));
    assert!(!formatter.reached_limit(usize::MAX - 1, false));
    assert!(formatter.reached_limit(usize::MAX, true));
}

#[test]
fn test_blank_text_renders_nothing() {
    for text in ["", " ", "\n", " \n  \t ", "\n\n\n", "\u{a0}\u{2003}\u{3000}"] {
        let formatter = Blockquote::new(text);
        assert!(formatter.is_empty());
        assert_eq!(formatter.render(), "");
        assert_eq!(formatter.soft_limit(0).render(), "");
        assert_eq!(formatter.soft_limit(1).hard_limit(3).render(), "");
        assert_eq!(formatter.with_ellipsis(false).render(), "");
    }
}

#[test]
fn test_text_with_content_is_not_empty() {
    assert!(!Blockquote::new("a").is_empty());
    assert!(!Blockquote::new("  \n x \n").is_empty());
    assert!(!Blockquote::new("\u{200b}").is_empty());
}

#[test]
fn test_render_twice_gives_the_same() {
    let text = "one\ntwo three\n\nfour";
    let formatter = Blockquote::new(text).soft_limit(9).hard_limit(4);

    let first = formatter.render();
    let second = formatter.render();

    assert_eq!(first, second);
    assert_eq!(first, "> one\n> two three…");
}

#[test]
fn test_marker_on_blank_lines() {
    let formatter = Blockquote::new("a\n\nb");

    assert_eq!(formatter.render(), "> a\n> \n> b");
}

#[test]
fn test_marker_is_not_taken_from_text() {
    let formatter = Blockquote::new("> a\n> b");

    assert_eq!(formatter.render(), "> > a\n> > b");
}

#[test]
fn test_every_line_starts_with_marker() {
    let rendered = Blockquote::new("first\n second\n\n\nthird line\n  ").render();

    assert_eq!(rendered, "> first\n>  second\n> \n> \n> third line");
    for line in rendered.split('\n') {
        assert!(line.starts_with("> "));
    }
}

#[test]
fn test_limit_at_line_start_leaves_marker() {
    let formatter = Blockquote::new("a\nb").soft_limit(2);

    assert_eq!(formatter.render(), "> a\n> …");
    assert_eq!(formatter.with_ellipsis(false).render(), "> a\n> ");
}

#[test]
fn test_soft_limit_of_nothing() {
    let formatter = Blockquote::new("abc").soft_limit(0);

    assert_eq!(formatter.render(), "> …");
    assert_eq!(formatter.with_ellipsis(false).render(), "> ");
    assert_eq!(formatter.hard_limit(2).render(), "> ab…");
}

#[test]
fn test_without_ellipsis() {
    let formatter = Blockquote::new("this text is too long :(")
        .soft_limit(19)
        .with_ellipsis(false);

    assert_eq!(formatter.render(), "> this text is too lo");
}

#[test]
fn test_no_ellipsis_when_only_whitespace_is_dropped() {
    let formatter = Blockquote::new("test   \n ").soft_limit(4);

    assert_eq!(formatter.render(), "> test");
}

#[test]
fn test_ellipsis_when_content_is_dropped_at_whitespace() {
    let formatter = Blockquote::new("test more").soft_limit(4).hard_limit(100);

    assert_eq!(formatter.render(), "> test…");
}

#[test]
fn test_text_that_fits_exactly() {
    let formatter = Blockquote::new("exact").soft_limit(5);

    assert_eq!(formatter.render(), "> exact");
    assert_eq!(formatter.soft_limit(4).render(), "> exac…");
}

#[test]
fn test_hard_limit_adds_to_soft_limit() {
    let formatter = Blockquote::new("abcdefghijkl").soft_limit(3).hard_limit(4);

    assert_eq!(formatter.render(), "> abcdefg…");
    assert!(!formatter.reached_limit(6, false));
    assert!(formatter.reached_limit(7, false));
    assert!(!formatter.reached_limit(2, true));
    assert!(formatter.reached_limit(3, true));
}

#[test]
fn test_hard_limit_alone_is_not_the_cutoff() {
    let formatter = Blockquote::new("abcdefghijkl").soft_limit(6).hard_limit(2);

    assert_eq!(formatter.render(), "> abcdefgh…");
}

#[test]
fn test_hard_limit_saturates() {
    let formatter = Blockquote::new("abc").soft_limit(usize::MAX).hard_limit(5);

    assert!(!formatter.reached_limit(usize::MAX - 1, false));
    assert!(formatter.reached_limit(usize::MAX, false));
    assert_eq!(formatter.render(), "> abc");

    let formatter = Blockquote::new("abc").soft_limit(2).hard_limit(usize::MAX);

    assert!(!formatter.reached_limit(usize::MAX - 1, false));
    assert!(formatter.reached_limit(usize::MAX, false));
    assert!(formatter.reached_limit(2, true));
    assert_eq!(formatter.render(), "> abc");
}

#[test]
fn test_absent_hard_limit_is_zero() {
    let formatter = Blockquote::new("abcdef").soft_limit(3);

    assert!(!formatter.reached_limit(2, false));
    assert!(formatter.reached_limit(3, false));
    assert_eq!(formatter.render(), formatter.hard_limit(0).render());
    assert_eq!(formatter.render(), "> abc…");
}

#[test]
fn test_limits_count_characters() {
    let formatter = Blockquote::new("héllo wörld").soft_limit(5);

    assert_eq!(formatter.render(), "> héllo…");

    let formatter = Blockquote::new("日本語のテキスト").soft_limit(2).hard_limit(1);

    assert_eq!(formatter.render(), "> 日本語…");

    let formatter = Blockquote::new("日本語").soft_limit(3);

    assert_eq!(formatter.render(), "> 日本語");
}

#[test]
fn test_trailing_whitespace_behind_wide_characters() {
    let formatter = Blockquote::new("日本語\n\n");

    assert_eq!(formatter.render(), "> 日本語");
}

#[test]
fn test_unicode_whitespace_takes_the_soft_limit() {
    let formatter = Blockquote::new("ab\u{2003}cd ef").soft_limit(2).hard_limit(3);

    assert_eq!(formatter.render(), "> ab…");

    let formatter = Blockquote::new("abc\u{2003}d ef").soft_limit(2).hard_limit(3);

    assert_eq!(formatter.render(), "> abc…");
}

#[test]
fn test_remaining_empty() {
    let formatter = Blockquote::new("ab \n");

    assert!(!formatter.remaining_empty(0));
    assert!(!formatter.remaining_empty(1));
    assert!(formatter.remaining_empty(2));
    assert!(formatter.remaining_empty(3));
    assert!(formatter.remaining_empty(4));
    assert!(!formatter.remaining_empty(5));
    assert!(!formatter.remaining_empty(usize::MAX));
}

#[test]
fn test_remaining_empty_counts_characters() {
    let formatter = Blockquote::new("日本 ");

    assert!(!formatter.remaining_empty(1));
    assert!(formatter.remaining_empty(2));
    assert!(formatter.remaining_empty(3));
    assert!(!formatter.remaining_empty(4));
}

#[test]
fn test_write_char_appends() {
    let mut out = String::from("ab");

    write_char('c', &mut out);
    write_char('…', &mut out);
    write_char('\n', &mut out);

    assert_eq!(out, "abc…\n");
}

#[test]
fn test_builders_replace_one_value() {
    let formatter = Blockquote::new("abcdef").soft_limit(1).soft_limit(4);

    assert_eq!(formatter.render(), "> abcd…");
    assert_eq!(formatter.hard_limit(9).hard_limit(1).render(), "> abcde…");
    assert_eq!(
        formatter.with_ellipsis(false).with_ellipsis(true).render(),
        "> abcd…"
    );
    assert_eq!(formatter, Blockquote::new("abcdef").soft_limit(4));
}
