use reader_fw::bounded::Text;
use reader_fw::cache_error::{
    container_error, from_publish, preview_error_label, session_error_label, EpubError,
    PublishError, ReaderCacheError, SdSessionError, ZipError,
};
use reader_fw::href::{
    file_name, href_matches_spine, inferred_start_spine_index, resolve_epub_href,
    spine_item_is_navigation, spine_position, start_spine_index,
};
use reader_fw::toc::{
    chapter_spine_index, continue_toc, load_epub_toc, toc_parser, TocAction, TocParser,
    TocParserSource, TocReply, TocSink,
};

fn spine(items: &[&str]) -> Vec<String> {
    items.iter().map(|item| item.to_string()).collect()
}

fn resolve<const N: usize>(opf: &str, href: &str) -> Option<String> {
    let mut out = Text::<N>::of("").unwrap();
    match resolve_epub_href(opf, href, &mut out) {
        Ok(()) => Some(out.chars().into_iter().collect()),
        Err(error) => {
            assert_eq!(error, ReaderCacheError::EntryNameTooLong);
            None
        }
    }
}

#[test]
fn the_file_name_is_what_follows_the_last_slash() {
    assert_eq!(file_name("OEBPS/text/ch1.xhtml"), "ch1.xhtml");
    assert_eq!(file_name("ch1.xhtml"), "ch1.xhtml");
    assert_eq!(file_name("text/"), "");
    assert_eq!(file_name(""), "");
    assert_eq!(file_name(file_name("a/b")), "b");
}

#[test]
fn a_link_names_an_item_by_path_or_name() {
    assert!(href_matches_spine("text/ch1.xhtml", "text/ch1.xhtml"));
    assert!(href_matches_spine("OEBPS/text/ch1.xhtml", "text/ch1.xhtml"));
    assert!(href_matches_spine("ch1.xhtml", "text/ch1.xhtml"));
    assert!(href_matches_spine("a/ch1.xhtml", "b/ch1.xhtml"));
    assert!(!href_matches_spine("a/ch1.xhtml", "a/ch2.xhtml"));
    assert!(href_matches_spine("a#b", "a"));
    assert!(href_matches_spine("text/ch1.xhtml#part2", "OEBPS/text/ch1.xhtml"));
    assert!(!href_matches_spine("ch1.xhtml#ch2.xhtml", "ch2.xhtml"));
    for (a, b) in [("x/y", "y"), ("p", "q/p"), ("m", "n")] {
        assert_eq!(href_matches_spine(a, b), href_matches_spine(b, a));
    }
}

#[test]
fn the_first_matching_item_is_taken() {
    let items = spine(&["cover.xhtml", "a/ch1.xhtml", "b/ch1.xhtml"]);
    assert_eq!(spine_position("ch1.xhtml", &items), Some(1));
    assert_eq!(spine_position("ch9.xhtml", &items), None);
    assert_eq!(chapter_spine_index("b/ch1.xhtml", &items), 1);
    assert_eq!(chapter_spine_index("none", &items), -1);
    assert_eq!(spine_position("b/ch1.xhtml#s", &spine(&["a.xhtml", "b/ch1.xhtml"])), Some(1));
    assert_eq!(chapter_spine_index("a/ch1.xhtml#s", &items), 1);
}

#[test]
fn links_resolve_from_the_package_directory() {
    assert_eq!(resolve::<64>("OEBPS/content.opf", "text/a.xhtml#p1"), Some("OEBPS/text/a.xhtml".into()));
    assert_eq!(resolve::<64>("content.opf", "a.xhtml"), Some("a.xhtml".into()));
    assert_eq!(resolve::<64>("OEBPS/content.opf", "//a.xhtml#x"), Some("a.xhtml#x".into()));
    assert_eq!(resolve::<64>("OEBPS/content.opf", "#only"), Some("OEBPS/".into()));
    assert_eq!(resolve::<64>("a/b/c.opf", ""), Some("a/b/".into()));
}

#[test]
fn a_path_longer_than_the_buffer_is_refused() {
    assert_eq!(resolve::<9>("OEBPS/c.opf", "abc"), Some("OEBPS/abc".into()));
    assert_eq!(resolve::<8>("OEBPS/c.opf", "abc"), None);
    assert_eq!(resolve::<5>("OEBPS/c.opf", "abc"), None);
    assert_eq!(resolve::<3>("OEBPS/c.opf", "/abc"), Some("abc".into()));
    assert_eq!(resolve::<2>("OEBPS/c.opf", "/abc"), None);
}

#[test]
fn navigation_is_told_from_text() {
    let nav = |href: &str, props: &str, media: &str| {
        spine_item_is_navigation(href, props, media, Some("nav/own.xhtml"), Some("toc.ncx"))
    };
    assert!(nav("x", "", "application/x-dtbncx+xml"));
    assert!(nav("nav/own.xhtml", "", "text"));
    assert!(nav("toc.ncx", "", "text"));
    assert!(nav("x", "cover NAV", "text"));
    assert!(nav("text/TOC.xhtml", "", "text"));
    assert!(nav("nav.html", "", "text"));
    assert!(!nav("chapter1.xhtml", "svg", "text"));
    assert!(!nav("toc.xhtml.bak", "", "text"));
    assert!(!spine_item_is_navigation("own.xhtml", "", "text", None, None));
}

#[test]
fn a_book_starts_past_its_front_matter() {
    assert_eq!(inferred_start_spine_index::<64>(&spine(&["TitlePage.xhtml", "a"])), 1);
    assert_eq!(inferred_start_spine_index::<64>(&spine(&["title-page.xhtml", "a"])), 1);
    assert_eq!(inferred_start_spine_index::<64>(&spine(&["Cover.html", "a"])), 1);
    assert_eq!(inferred_start_spine_index::<64>(&spine(&["cover.html"])), 0);
    assert_eq!(inferred_start_spine_index::<64>(&spine(&["ch1.html", "cover.html"])), 0);
    assert_eq!(inferred_start_spine_index::<64>(&spine(&[])), 0);
    // The name is read only as far as the buffer goes.
    assert_eq!(inferred_start_spine_index::<4>(&spine(&["cover.html", "a"])), 0);
}

#[test]
fn a_named_start_outranks_the_inferred_one() {
    let items = spine(&["cover.html", "a.html", "b.html"]);
    assert_eq!(start_spine_index::<64>(Some("b.html"), &items), 2);
    assert_eq!(start_spine_index::<64>(Some("b.html#start"), &items), 2);
    assert_eq!(start_spine_index::<64>(Some("gone.html"), &items), 1);
    assert_eq!(start_spine_index::<64>(None, &items), 1);
}

#[test]
fn session_errors_have_labels() {
    assert_eq!(session_error_label(SdSessionError::CardInit), "CARD INIT");
    assert_eq!(session_error_label(SdSessionError::Volume), "VOLUME");
    assert_eq!(session_error_label(SdSessionError::Root), "ROOT");
}

#[test]
fn build_errors_have_labels() {
    let table = [
        (ReaderCacheError::Zip(ZipError::OutputTooSmall), "EPUB TOO BIG"),
        (ReaderCacheError::Zip(ZipError::EntryBufferTooSmall), "PATH LONG"),
        (ReaderCacheError::Zip(ZipError::UnsupportedCompression), "ZIP METHOD"),
        (ReaderCacheError::Zip(ZipError::EntryNotFound), "ZIP MISSING"),
        (ReaderCacheError::Zip(ZipError::Inflate), "ZIP INFLATE"),
        (ReaderCacheError::Zip(ZipError::Io), "OPEN BUDGET"),
        (ReaderCacheError::Zip(ZipError::Other), "ZIP"),
        (ReaderCacheError::Epub(EpubError::TooManyManifestItems), "OPF MANIFEST"),
        (ReaderCacheError::Epub(EpubError::TooManySpineItems), "OPF SPINE"),
        (ReaderCacheError::Epub(EpubError::MissingOpfPath), "NO OPF"),
        (ReaderCacheError::Epub(EpubError::MissingOpf), "NO OPF FILE"),
        (ReaderCacheError::Epub(EpubError::Utf8), "OPF UTF8"),
        (ReaderCacheError::Epub(EpubError::Zip(ZipError::Io)), "OPF ZIP"),
        (ReaderCacheError::Epub(EpubError::Other), "OPF"),
        (ReaderCacheError::XhtmlFull, "TEXT FULL"),
        (ReaderCacheError::Utf8, "UTF8"),
        (ReaderCacheError::MissingSpine, "NO SPINE"),
        (ReaderCacheError::NoBodyText, "NO BODY TEXT"),
        (ReaderCacheError::SectionRead, "SECTION READ"),
        (ReaderCacheError::IndexWrite, "CACHE WRITE"),
        (ReaderCacheError::EntryNameTooLong, "PATH LONG"),
    ];
    for (error, label) in table {
        assert_eq!(preview_error_label(error), label);
    }
}

#[test]
fn errors_keep_their_stage() {
    assert_eq!(container_error(EpubError::Zip(ZipError::Io)), ReaderCacheError::Zip(ZipError::Io));
    assert_eq!(container_error(EpubError::Utf8), ReaderCacheError::Utf8);
    assert_eq!(
        container_error(EpubError::MissingOpfPath),
        ReaderCacheError::Epub(EpubError::MissingOpfPath)
    );
    assert_eq!(from_publish(PublishError::IndexWrite), ReaderCacheError::IndexWrite);
    assert_eq!(from_publish(PublishError::SectionRead), ReaderCacheError::SectionRead);
}

#[test]
fn contents_come_from_the_first_source_that_has_any() {
    let parsed = |ok, records, resident| TocReply::Parsed { ok, records, resident };
    assert_eq!(load_epub_toc(true, true), TocAction::Find(TocParserSource::Nav));
    assert_eq!(load_epub_toc(false, true), TocAction::Find(TocParserSource::Ncx));
    assert_eq!(load_epub_toc(false, false), TocAction::Finish { records: 0 });
    let nav = TocAction::Parse(TocParserSource::Nav);
    assert_eq!(continue_toc(nav, parsed(true, 3, 0), true), Some(TocAction::Finish { records: 3 }));
    assert_eq!(continue_toc(nav, parsed(true, 0, 2), true), Some(TocAction::Finish { records: 0 }));
    assert_eq!(
        continue_toc(nav, parsed(false, 3, 3), true),
        Some(TocAction::Clear(TocParserSource::Nav))
    );
    let clear = TocAction::Clear(TocParserSource::Nav);
    assert_eq!(continue_toc(nav, parsed(true, 0, 0), false), Some(clear));
    assert_eq!(
        continue_toc(clear, TocReply::Cleared, true),
        Some(TocAction::Find(TocParserSource::Ncx))
    );
    assert_eq!(continue_toc(clear, TocReply::Cleared, false), Some(TocAction::Finish { records: 0 }));
    assert_eq!(continue_toc(clear, TocReply::Found(true), false), None);
    assert_eq!(
        continue_toc(TocAction::Find(TocParserSource::Nav), TocReply::Found(true), true),
        Some(nav)
    );
    assert_eq!(continue_toc(nav, TocReply::Found(true), true), None);
    assert_eq!(toc_parser("OEBPS/toc.ncx"), TocParser::Ncx);
    assert_eq!(toc_parser("OEBPS/nav.xhtml"), TocParser::Nav);
}

#[test]
fn chapter_records_stop_at_the_buffer() {
    let mut sink = TocSink::new(48, 100);
    assert_eq!(sink.next_offset(), Some(0));
    sink.record_written(true);
    assert_eq!(sink.next_offset(), Some(48));
    sink.record_written(false);
    assert_eq!(sink.next_offset(), Some(48));
    sink.record_written(true);
    assert_eq!(sink.next_offset(), None);
    assert!(sink.offers_resident());
    sink.resident_offered(true);
    assert!(sink.offers_resident());
    sink.resident_offered(false);
    assert!(!sink.offers_resident());
    sink.resident_offered(true);
    assert!(!sink.offers_resident());
}

#[test]
fn a_path_that_does_not_fit_leaves_its_directory() {
    let left = |opf: &str, href: &str| {
        let mut out = reader_fw::bounded::Text::<8>::of("before").unwrap();
        assert_eq!(
            resolve_epub_href(opf, href, &mut out),
            Err(ReaderCacheError::EntryNameTooLong)
        );
        out.chars().into_iter().collect::<String>()
    };
    assert_eq!(left("OPS/book.opf", "chapter.xhtml"), "OPS/");
    assert_eq!(left("CONTENTS/book.opf", "a"), "CONTENTS");
    assert_eq!(left("LONGCONTENTS/book.opf", "a"), "");
    assert_eq!(left("OPS/book.opf", "/chapter.xhtml"), "");
}
