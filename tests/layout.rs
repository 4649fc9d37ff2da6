use adventure::layout::{
    get_inventory_width, history_window, inventory_label, paragraph_list_to_lines, split_words,
};
use adventure::text::{is_white_space, trimmed};

#[test]
fn paragraphs_wrap_greedily() {
    let paragraphs = vec![String::from("the quick brown fox"), String::from("jumps")];
    let lines = paragraph_list_to_lines(&paragraphs, 10);
    assert_eq!(
        lines,
        vec![
            String::from("the quick "),
            String::from("brown fox "),
            String::from(""),
            String::from("jumps "),
            String::from(""),
        ]
    );
}

#[test]
fn wide_paragraph_stays_on_one_line() {
    let paragraphs = vec![String::from("  a  b\tc ")];
    let lines = paragraph_list_to_lines(&paragraphs, 80);
    assert_eq!(lines, vec![String::from("a b c "), String::from("")]);
}

#[test]
fn long_first_word_starts_after_empty_line() {
    let paragraphs = vec![String::from("extraordinary")];
    let lines = paragraph_list_to_lines(&paragraphs, 5);
    assert_eq!(lines, vec![String::from(""), String::from("extraordinary "), String::from("")]);
}

#[test]
fn no_paragraphs_no_lines() {
    assert!(paragraph_list_to_lines(&Vec::new(), 10).is_empty());
}

#[test]
fn inventory_width_is_clamped() {
    assert_eq!(get_inventory_width(&[]), 12);
    assert_eq!(get_inventory_width(&[String::from("key")]), 12);
    assert_eq!(get_inventory_width(&[String::from("rope"), String::from("silver coin 15")]), 16);
    assert_eq!(get_inventory_width(&[String::from("an extremely long item name")]), 20);
}

#[test]
fn long_labels_are_cut() {
    assert_eq!(inventory_label("short"), "short");
    assert_eq!(inventory_label("exactly twenty chars"), "exactly twenty chars");
    assert_eq!(inventory_label("a very long inventory item"), "a very long invent..");
}

#[test]
fn history_window_follows_scroll() {
    assert_eq!(history_window(30, 0, 10), (20, 10));
    assert_eq!(history_window(30, 5, 10), (15, 10));
    assert_eq!(history_window(30, 25, 10), (0, 10));
    assert_eq!(history_window(4, 0, 10), (0, 4));
}

#[test]
fn words_split_on_white_space() {
    assert_eq!(
        split_words(" one\u{3000}two\n three "),
        vec![String::from("one"), String::from("two"), String::from("three")]
    );
    assert!(split_words("   ").is_empty());
}

#[test]
fn white_space_matches_std() {
    for c in ['\u{0}', 'a', ' ', '\t', '\n', '\u{85}', '\u{A0}', '\u{200B}', '\u{2009}', '\u{3000}', '\u{1C}', '\u{1F}', '\u{180E}', '\u{FEFF}', 'é'] {
        assert_eq!(is_white_space(c), c.is_whitespace());
    }
}

#[test]
fn trimmed_matches_std() {
    for s in ["", "  ", " a b ", "\u{A0}x\u{2028}", "plain"] {
        assert_eq!(trimmed(s), s.trim());
    }
}
