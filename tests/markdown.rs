use nostromo_notes::markdown::{clean_inline_formatting, simple_markdown_to_clean_text};

#[test]
fn inline_marks_are_dropped() {
    assert_eq!(clean_inline_formatting("**bold** and __strong__"), "bold and strong");
    assert_eq!(clean_inline_formatting("*it* and _em_ and `code`"), "it and em and code");
    assert_eq!(clean_inline_formatting("see [the site](http://x.y) now"), "see the site now");
}

#[test]
fn unclosed_marks_stay() {
    assert_eq!(clean_inline_formatting("a ** b"), "a  b");
    assert_eq!(clean_inline_formatting("a * b"), "a * b");
    assert_eq!(clean_inline_formatting("[x] (y)"), "[x] (y)");
    assert_eq!(clean_inline_formatting("2 * 3"), "2 * 3");
}

#[test]
fn markdown_note_becomes_plain_text() {
    let md = "# Title\n- item **b**\n1. first\nplain _x_\n\n";
    assert_eq!(simple_markdown_to_clean_text(md), "Title\n\n• item b\n• first\nplain x");
}

#[test]
fn headings_of_each_level_and_crlf_lines() {
    let md = "## Two\r\n### Three\r\n  text  ";
    assert_eq!(simple_markdown_to_clean_text(md), "Two\n\n\nThree\n\ntext");
}

#[test]
fn empty_note_is_empty_text() {
    assert_eq!(simple_markdown_to_clean_text(""), "");
    assert_eq!(simple_markdown_to_clean_text("\n\n  \n"), "");
}
