use yd::sentences::{emphasize, format_entry, format_sentences, SentenceParts};

fn item(english: Option<&str>, translation: Option<&str>, attribution: Option<&str>) -> SentenceParts {
    SentenceParts {
        english: english.map(String::from),
        translation: translation.map(String::from),
        attribution: attribution.map(String::from),
    }
}

#[test]
fn bold_becomes_emphasis() {
    assert_eq!(emphasize("The <b>fire</b> is hot."), "The **fire** is hot.");
    assert_eq!(emphasize("<b></b>"), "****");
    assert_eq!(emphasize("no tags <i>here</i>"), "no tags <i>here</i>");
    assert_eq!(emphasize(""), "");
    assert_eq!(emphasize("<<b>b>"), "<**b>");
    assert_eq!(emphasize("<b"), "<b");
    assert_eq!(emphasize("</b"), "</b");
    assert_eq!(emphasize("<B>"), "<B>");
    assert_eq!(emphasize("\u{4e2d}<b>\u{6587}</b>"), "\u{4e2d}**\u{6587}**");
}

#[test]
fn emphasis_leaves_no_bold_tag() {
    for markup in ["<b><b>", "</</b>b>", "<</b>b>", "<b></b><b>x</b>", "<<b>/b>"] {
        let text = emphasize(markup);
        assert!(!text.contains("<b>"));
        assert!(!text.contains("</b>"));
    }
}

#[test]
fn entry_is_three_aligned_lines() {
    assert_eq!(format_entry(1, "a", "b", "c"), "1. a\\\n   b\\\n   c");
    assert_eq!(format_entry(10, "a", "b", "c"), "10. a\\\n    b\\\n    c");
    assert_eq!(format_entry(123, "a", "b", "c"), "123. a\\\n     b\\\n     c");
    assert_eq!(format_entry(0, "", "", ""), "0. \\\n   \\\n   ");
}

#[test]
fn entry_keeps_markup_outside_the_english_sentence() {
    assert_eq!(
        format_entry(2, "<b>x</b>", "<b>y</b>", "<b>z</b>"),
        "2. **x**\\\n   <b>y</b>\\\n   <b>z</b>"
    );
}

#[test]
fn no_items_give_an_empty_block() {
    assert_eq!(format_sentences(&Vec::new()), "");
    let incomplete = vec![
        item(None, Some("b"), Some("c")),
        item(Some("a"), None, Some("c")),
        item(Some("a"), Some("b"), None),
        item(None, None, None),
    ];
    assert_eq!(format_sentences(&incomplete), "");
}

#[test]
fn kept_items_are_numbered_from_one() {
    let items = vec![
        item(Some("a"), Some("b"), Some("c")),
        item(Some("dropped"), None, Some("c")),
        item(Some("d"), Some("e"), Some("f")),
        item(None, Some("dropped"), Some("c")),
        item(Some("g"), Some("h"), Some("i")),
    ];
    assert_eq!(
        format_sentences(&items),
        "1. a\\\n   b\\\n   c\n2. d\\\n   e\\\n   f\n3. g\\\n   h\\\n   i"
    );
}

#[test]
fn indentation_grows_with_the_index() {
    let mut items = Vec::new();
    for _ in 0..11 {
        items.push(item(Some("e"), Some("t"), Some("s")));
    }
    let block = format_sentences(&items);
    let lines: Vec<&str> = block.split('\n').collect();
    assert_eq!(lines.len(), 33);
    assert_eq!(lines[0], "1. e\\");
    assert_eq!(lines[1], "   t\\");
    assert_eq!(lines[2], "   s");
    assert_eq!(lines[24], "9. e\\");
    assert_eq!(lines[27], "10. e\\");
    assert_eq!(lines[28], "    t\\");
    assert_eq!(lines[29], "    s");
    assert_eq!(lines[30], "11. e\\");
}
