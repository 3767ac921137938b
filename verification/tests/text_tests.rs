use rpg_ui::text::{
    char_utf8_width, generate_horizontal_bar, is_white_space_char, push_decimal,
    push_signed_decimal, push_str, split_words, truncate_message, word_wrap,
};

#[test]
fn word_wrap_fills_lines_up_to_the_width() {
    assert_eq!(word_wrap("hello world foo", 11), vec!["hello world", "foo"]);
}

#[test]
fn word_wrap_breaks_before_a_word_that_would_overflow() {
    assert_eq!(word_wrap("hello world foo", 10), vec!["hello", "world foo"]);
}

#[test]
fn word_wrap_of_empty_or_blank_text_is_empty() {
    assert!(word_wrap("", 10).is_empty());
    assert!(word_wrap("   \t\n ", 10).is_empty());
}

#[test]
fn word_wrap_collapses_runs_of_whitespace() {
    assert_eq!(word_wrap("  a \t b\n c  ", 10), vec!["a b c"]);
}

#[test]
fn word_wrap_keeps_an_overlong_word_whole() {
    assert_eq!(word_wrap("supercalifragilistic word", 5), vec!["supercalifragilistic", "word"]);
}

#[test]
fn word_wrap_counts_bytes() {
    // each "é" takes two bytes, so "é é" needs five
    assert_eq!(word_wrap("é é", 4), vec!["é", "é"]);
    assert_eq!(word_wrap("é é", 5), vec!["é é"]);
}

#[test]
fn word_wrap_with_zero_width_puts_each_word_alone() {
    assert_eq!(word_wrap("a b c", 0), vec!["a", "b", "c"]);
}

#[test]
fn word_wrap_law_keeps_every_word_in_order() {
    let text = "the quick brown fox jumps over the lazy dog";
    let lines = word_wrap(text, 12);
    for line in &lines {
        assert!(!line.is_empty());
        assert!(line.len() <= 12 || !line.contains(' '));
    }
    let rejoined: Vec<String> = lines
        .iter()
        .flat_map(|l| l.split_whitespace().map(|w| w.to_string()))
        .collect();
    let words: Vec<String> = text.split_whitespace().map(|w| w.to_string()).collect();
    assert_eq!(rejoined, words);
}

#[test]
fn split_words_splits_on_unicode_whitespace() {
    assert_eq!(split_words("fire  ice\u{3000}wind\tearth"), vec!["fire", "ice", "wind", "earth"]);
    assert!(split_words(" \n ").is_empty());
}

#[test]
fn truncate_message_keeps_a_fitting_message() {
    assert_eq!(truncate_message("hello", 10), "hello");
    assert_eq!(truncate_message("hello", 5), "hello");
}

#[test]
fn truncate_message_cuts_and_adds_dots() {
    assert_eq!(truncate_message("hello world", 8), "hello...");
    assert_eq!(truncate_message("Not enough gold to buy that", 18), "Not enough gold...");
}

#[test]
fn truncate_message_below_three_bytes_keeps_only_dots() {
    assert_eq!(truncate_message("abcdef", 2), "...");
    assert_eq!(truncate_message("abcdef", 3), "...");
}

#[test]
fn truncate_message_cuts_on_a_character_boundary() {
    // "éé" is 4 bytes; max 5 cuts after 2 bytes, that is after the first "é"
    assert_eq!(truncate_message("ééé", 5), "é...");
}

#[test]
fn horizontal_bar_narrow_is_dashes() {
    assert_eq!(generate_horizontal_bar(0), "");
    assert_eq!(generate_horizontal_bar(3), "---");
    assert_eq!(generate_horizontal_bar(4), "----");
}

#[test]
fn horizontal_bar_has_prefix_pattern_and_suffix() {
    assert_eq!(generate_horizontal_bar(5), "-._.-");
    assert_eq!(generate_horizontal_bar(11), "-._.-=-._.-");
    assert_eq!(generate_horizontal_bar(13), "-._.-=-._._.-");
}

#[test]
fn horizontal_bar_is_as_wide_as_asked() {
    for w in 0..40 {
        assert_eq!(generate_horizontal_bar(w).chars().count(), w);
    }
}

#[test]
fn decimal_formatting_matches_display() {
    let mut s = String::new();
    push_decimal(&mut s, 0);
    assert_eq!(s, "0");
    let mut s = String::from("x=");
    push_decimal(&mut s, 1234567890);
    assert_eq!(s, "x=1234567890");
    let mut s = String::new();
    push_decimal(&mut s, u64::MAX);
    assert_eq!(s, u64::MAX.to_string());
}

#[test]
fn signed_decimal_formatting_matches_display() {
    for n in [0i64, 7, -42, i64::MAX, i64::MIN] {
        let mut s = String::new();
        push_signed_decimal(&mut s, n);
        assert_eq!(s, n.to_string());
    }
}

#[test]
fn push_str_appends() {
    let mut s = String::from("ab");
    push_str(&mut s, "cd");
    assert_eq!(s, "abcd");
}

#[test]
fn utf8_widths() {
    assert_eq!(char_utf8_width('a'), 1);
    assert_eq!(char_utf8_width('é'), 2);
    assert_eq!(char_utf8_width('€'), 3);
    assert_eq!(char_utf8_width('😀'), 4);
    for c in ['a', 'é', '€', '😀', '\u{7f}', '\u{80}', '\u{7ff}', '\u{800}', '\u{ffff}', '\u{10000}'] {
        assert_eq!(char_utf8_width(c), c.len_utf8());
    }
}

#[test]
fn white_space_matches_std() {
    for c in [' ', '\t', '\n', '\r', '\u{85}', '\u{a0}', '\u{2028}', '\u{3000}', 'x', '_', '\u{200b}'] {
        assert_eq!(is_white_space_char(c), c.is_whitespace(), "{:?}", c);
    }
}
