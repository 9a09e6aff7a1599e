use reader_fw::bounded::Text;
use reader_fw::chars::{bytes_contain, is_whitespace, split_words};
use reader_fw::line::{
    append_styled_word, block_align_for, heading_toc_level, preview_style_for_proto_style,
    push_plain_styled_text, takes_indent, FontStyle, StyleMarks, TextAlign, TextRole,
};
use reader_fw::text::{
    contains_gutenberg_metadata, decorative_prefix_rest, is_decorative_separator,
    is_epub_titlepage_label, is_leading_punctuation_word, normalize_decorative_separator,
    push_normalized_char, push_normalized_decoded, sanitize_preview_block, trim_leading_space,
    trim_trailing_space, LowerAscii,
};

const MARKS: StyleMarks = StyleMarks {
    marker: '\u{1}',
    regular: 'r',
    bold: 'b',
    italic: 'i',
    bold_italic: 'x',
};

fn held<const N: usize>(text: &Text<N>) -> String {
    text.chars().into_iter().collect()
}

fn plain(text: &str) -> Vec<Option<char>> {
    text.chars().map(|_| None).collect()
}

#[test]
fn text_holds_what_fits_and_no_more() {
    assert_eq!(Text::<4>::of("abcd").map(|t| held(&t)), Some("abcd".to_string()));
    assert!(Text::<4>::of("abcde").is_none());
    assert!(Text::<4>::of("aé\u{4e2d}").is_none());
    assert_eq!(Text::<6>::of("aé\u{4e2d}").map(|t| t.len()), Some(6));
    assert!(Text::<4>::of("").unwrap().is_empty());
}

#[test]
fn push_of_a_wide_char_needs_all_its_bytes() {
    let mut text = Text::<4>::of("abc").unwrap();
    assert!(push_normalized_char('é', &mut text).is_err());
    assert_eq!(held(&text), "abc");
    assert!(push_normalized_char('d', &mut text).is_ok());
    assert!(push_normalized_char('e', &mut text).is_err());
    assert_eq!(held(&text), "abcd");
}

#[test]
fn undrawable_characters_are_replaced() {
    let mut text = Text::<16>::of("").unwrap();
    assert!(push_normalized_char('\u{a0}', &mut text).is_ok());
    assert!(push_normalized_char('\u{ffff}', &mut text).is_ok());
    assert!(push_normalized_char('\u{1f600}', &mut text).is_ok());
    assert_eq!(held(&text), " \u{ffff}?");
}

#[test]
fn white_space_is_the_unicode_property() {
    for c in ['\t', '\u{b}', '\u{c}', ' ', '\u{85}', '\u{a0}', '\u{1680}', '\u{200a}', '\u{3000}'] {
        assert!(is_whitespace(c), "{:?}", c);
        assert!(c.is_whitespace());
    }
    for c in ['a', '\u{200b}', '\u{180e}', '\u{feff}', '\u{1}'] {
        assert!(!is_whitespace(c), "{:?}", c);
        assert!(!c.is_whitespace());
    }
}

#[test]
fn white_space_agrees_with_std_everywhere() {
    for code in 0u32..0x11_0000 {
        if let Some(c) = char::from_u32(code) {
            assert_eq!(is_whitespace(c), c.is_whitespace(), "{:x}", code);
        }
    }
}

#[test]
fn words_are_the_runs_between_space() {
    let text: Vec<char> = " one\ttwo \u{3000}three".chars().collect();
    let found: Vec<String> = split_words(&text)
        .into_iter()
        .map(|span| text[span.start..span.end].iter().collect())
        .collect();
    assert_eq!(found, vec!["one", "two", "three"]);
    assert!(split_words(&"  \n".chars().collect()).is_empty());
}

#[test]
fn bytes_are_found_anywhere() {
    assert!(bytes_contain(b"<html><body>", b"<body"));
    assert!(bytes_contain(b"<h:body", b":body"));
    assert!(!bytes_contain(b"<bod", b"<body"));
    assert!(bytes_contain(b"aab", b"ab"));
    assert!(!bytes_contain(b"", b"a"));
}

#[test]
fn lower_ascii_reads_bytes_and_stops_at_its_capacity() {
    let lower = LowerAscii::<8>::new("HeLLo WORLD");
    assert!(lower.eq("hello wo"));
    assert!(lower.starts_with("hello"));
    assert!(lower.ends_with("o wo"));
    assert!(lower.contains("lo w"));
    assert!(!lower.contains("world"));
    // A byte past ASCII is a character of its own and takes two bytes.
    let lower = LowerAscii::<3>::new("é");
    assert!(lower.eq("\u{c3}"));
    let lower = LowerAscii::<4>::new("é");
    assert!(lower.eq("\u{c3}\u{a9}"));
}

#[test]
fn lower_ascii_finds_whole_words_only() {
    let props = LowerAscii::<96>::new("scripted NAV svg");
    assert!(props.word_eq("nav"));
    assert!(!props.word_eq("na"));
    assert!(!props.word_eq(""));
    assert!(!LowerAscii::<96>::new("navigation").word_eq("nav"));
    assert!(LowerAscii::<96>::new("nav").word_eq("nav"));
}

#[test]
fn punctuation_opens_a_word_that_attaches() {
    for word in [",", ".5", ";", ": a", "!", "?", ")", "]", "}", "\u{2019}s", "\u{201d}"] {
        assert!(is_leading_punctuation_word(word), "{:?}", word);
    }
    for word in ["", "a,", "(", "\u{2018}", "-"] {
        assert!(!is_leading_punctuation_word(word), "{:?}", word);
    }
}

#[test]
fn separators_are_three_stars_and_space() {
    assert!(is_decorative_separator("***"));
    assert!(is_decorative_separator(" * *\u{a0}* *"));
    assert!(!is_decorative_separator("**"));
    assert!(!is_decorative_separator("*** a"));
    assert!(!is_decorative_separator(""));
}

#[test]
fn separators_take_one_form() {
    let mut block = Text::<32>::of("*  *****").unwrap();
    normalize_decorative_separator(&mut block);
    assert_eq!(held(&block), "* * *");
    normalize_decorative_separator(&mut block);
    assert_eq!(held(&block), "* * *");
    let mut block = Text::<4>::of("****").unwrap();
    normalize_decorative_separator(&mut block);
    assert_eq!(held(&block), "");
    let mut block = Text::<32>::of("not one").unwrap();
    normalize_decorative_separator(&mut block);
    assert_eq!(held(&block), "not one");
}

#[test]
fn the_rest_behind_stars_is_trimmed() {
    assert_eq!(decorative_prefix_rest("*** Title \t"), Some("Title"));
    assert_eq!(decorative_prefix_rest(" * * * "), Some(""));
    assert_eq!(decorative_prefix_rest("** Title"), None);
    assert_eq!(decorative_prefix_rest("a ***"), None);
}

#[test]
fn labels_of_title_pages_are_known() {
    for label in [
        ": something", "Title", "AUTHOR", "creator", "Language", "English", "english:",
        "Release Date", "Original Publication", "Most recently updated: May", "Other information",
        "Other formats", "Credits: someone", "Produced by", "Transcribed from",
        "Project Gutenberg", "The Project Gutenberg eBook",
    ] {
        assert!(is_epub_titlepage_label(label), "{}", label);
    }
    for text in ["Titles", "The author", "an english:", "release date 1"] {
        assert!(!is_epub_titlepage_label(text), "{}", text);
    }
}

#[test]
fn notices_are_found_inside_a_block() {
    for text in [
        "It was MOST RECENTLY UPDATED in May",
        "the project gutenberg ebook of",
        "*** START OF THE PROJECT GUTENBERG",
        "end of the project gutenberg",
        "other information and formats",
        "This eBook is for the use of anyone",
        "full Project Gutenberg License",
        "see www.gutenberg.org for",
        "the laws of the country where you are located",
    ] {
        assert!(contains_gutenberg_metadata(text), "{}", text);
    }
    assert!(!contains_gutenberg_metadata("Johannes Gutenberg printed books"));
    // Only the first 160 bytes are looked at.
    let long = format!("{}www.gutenberg.org", "x".repeat(150));
    assert!(!contains_gutenberg_metadata(&long));
}

#[test]
fn spaces_are_trimmed_at_both_ends() {
    let mut text = Text::<32>::of("a \t  ").unwrap();
    trim_trailing_space(&mut text);
    assert_eq!(held(&text), "a \t");
    let mut text = Text::<32>::of(" \u{3000}\tb ").unwrap();
    trim_leading_space(&mut text);
    assert_eq!(held(&text), "b ");
    let mut text = Text::<32>::of("  \t").unwrap();
    trim_leading_space(&mut text);
    assert_eq!(held(&text), "");
}

#[test]
fn a_block_is_kept_only_if_it_is_text() {
    let keep = |text: &str| {
        let mut block = Text::<128>::of(text).unwrap();
        let kept = sanitize_preview_block(&mut block);
        (kept, held(&block))
    };
    assert_eq!(keep(" Call me Ishmael. "), (true, "Call me Ishmael.".to_string()));
    assert_eq!(keep("  "), (false, String::new()));
    assert_eq!(keep("Title").0, false);
    assert_eq!(keep("www.gutenberg.org").0, false);
    assert_eq!(keep("* * * *"), (true, "* * *".to_string()));
    assert_eq!(keep("*** Produced by us").0, false);
    assert_eq!(keep("*** START OF THE PROJECT GUTENBERG EBOOK").0, false);
    assert_eq!(keep("*** A chapter").0, true);
}

#[test]
fn a_kept_block_is_kept_again_unchanged() {
    for text in [" Call me Ishmael. ", "* * * *", "*** A chapter", "\t x"] {
        let mut block = Text::<128>::of(text).unwrap();
        assert!(sanitize_preview_block(&mut block));
        let once = held(&block);
        assert!(sanitize_preview_block(&mut block));
        assert_eq!(held(&block), once);
    }
}

#[test]
fn space_is_normalized_and_entities_are_decoded() {
    let mut out = Text::<64>::of("").unwrap();
    push_normalized_decoded("  a \n\u{a0} b  ", &plain("  a \n\u{a0} b  "), &mut out);
    assert_eq!(held(&out), "a b ");

    let text = "x&amp;y&nbsp;&nbsp;z";
    let mut entities = plain(text);
    entities[1] = Some('&');
    entities[7] = Some('\u{a0}');
    entities[13] = Some('\u{a0}');
    let mut out = Text::<64>::of("").unwrap();
    push_normalized_decoded(text, &entities, &mut out);
    assert_eq!(held(&out), "x&y z");
}

#[test]
fn an_unclosed_entity_is_passed_by_one_byte() {
    let text = "&lt b";
    let mut entities = plain(text);
    entities[0] = Some('<');
    let mut out = Text::<64>::of("").unwrap();
    push_normalized_decoded(text, &entities, &mut out);
    assert_eq!(held(&out), "<lt b");
}

#[test]
fn normalizing_stops_at_the_first_character_that_does_not_fit() {
    let mut out = Text::<4>::of("").unwrap();
    push_normalized_decoded("abcéd", &plain("abcéd"), &mut out);
    assert_eq!(held(&out), "abc");
}

#[test]
fn normalizing_twice_changes_nothing() {
    let raw = "  one\t\ttwo \u{1f600} three\u{a0}";
    let mut once = Text::<64>::of("").unwrap();
    push_normalized_decoded(raw, &plain(raw), &mut once);
    let first = held(&once);
    let mut twice = Text::<64>::of("").unwrap();
    push_normalized_decoded(&first, &plain(&first), &mut twice);
    assert_eq!(held(&twice), first);
    assert_eq!(first, "one two ? three ");
}

#[test]
fn a_word_is_marked_only_where_the_style_changes() {
    let mut line = Text::<32>::of("").unwrap();
    let add = |line: &mut Text<32>, word: &str, style, current, space| {
        append_styled_word(line, word, style, current, space, &MARKS)
    };
    assert!(add(&mut line, "plain", FontStyle::Regular, FontStyle::Regular, false).is_ok());
    assert!(add(&mut line, "bold", FontStyle::Bold, FontStyle::Regular, true).is_ok());
    assert!(add(&mut line, "still", FontStyle::Bold, FontStyle::Bold, true).is_ok());
    assert_eq!(held(&line), "plain \u{1}bbold still");
}

#[test]
fn a_word_that_does_not_fit_leaves_the_pieces_before_it() {
    let mut line = Text::<6>::of("abc").unwrap();
    assert!(append_styled_word(&mut line, "d", FontStyle::Italic, FontStyle::Regular, true, &MARKS)
        .is_err());
    assert_eq!(held(&line), "abc \u{1}i");
}

#[test]
fn markers_are_left_out_of_plain_text() {
    let mut out = Text::<8>::of("").unwrap();
    push_plain_styled_text("a\u{1}bb\u{1}rc\u{1}", '\u{1}', &mut out);
    assert_eq!(held(&out), "abc");
    let mut out = Text::<3>::of("").unwrap();
    push_plain_styled_text("abé!", '\u{1}', &mut out);
    assert_eq!(held(&out), "ab!");
}

#[test]
fn roles_decide_style_alignment_and_level() {
    assert_eq!(
        preview_style_for_proto_style(FontStyle::Regular, TextRole::Heading2),
        FontStyle::Bold
    );
    assert_eq!(
        preview_style_for_proto_style(FontStyle::Italic, TextRole::Heading2),
        FontStyle::Italic
    );
    assert_eq!(
        preview_style_for_proto_style(FontStyle::Regular, TextRole::BlockQuote),
        FontStyle::Regular
    );
    assert_eq!(heading_toc_level(TextRole::Heading1), 1);
    assert_eq!(heading_toc_level(TextRole::Heading2), 2);
    assert_eq!(heading_toc_level(TextRole::Heading3), 3);
    assert_eq!(heading_toc_level(TextRole::Body), 1);
    assert_eq!(block_align_for(TextAlign::Left, "x", TextRole::Heading3), TextAlign::Center);
    assert_eq!(block_align_for(TextAlign::Left, "***", TextRole::Body), TextAlign::Center);
    assert_eq!(block_align_for(TextAlign::Justify, "x", TextRole::Body), TextAlign::Justify);
    assert!(takes_indent(TextRole::Body, TextAlign::Justify));
    assert!(!takes_indent(TextRole::Body, TextAlign::Center));
    assert!(!takes_indent(TextRole::BlockQuote, TextAlign::Left));
}
