//! Which items of a book are not its text, and where a link of its package
//! leads.
use vstd::prelude::*;
use vstd::string::*;
use crate::chars::{holds, position_from, stands_at};
use crate::href::{
    directory_of, file_name_len, is_front_matter, is_navigation, resolved,
    without_fragment, without_leading_slashes,
};
use crate::phrases::{
    is_letter, is_plain, is_plain_text, lemma_found_is_read, lemma_plain_lower, lemma_plain_stands,
    mentions, reads,
};
use crate::text::{has_ascii_word, is_ascii_space, is_ascii_word_of, lower_ascii};

verus! {

/// Whether `phrase` can be read at the end of `text`.
pub open spec fn ends_in(text: Seq<char>, phrase: Seq<char>) -> bool {
    reads(text, phrase, text.len() - phrase.len())
}

/// Whether `word` can be read in `text` at `at`, by itself between spaces.
pub open spec fn reads_word(text: Seq<char>, word: Seq<char>, at: int) -> bool {
    &&& reads(text, word, at)
    &&& at == 0 || is_ascii_space(text[at - 1])
    &&& at + word.len() == text.len() || is_ascii_space(text[at + word.len()])
}

pub open spec fn has_word(text: Seq<char>, word: Seq<char>) -> bool {
    exists|at: int| reads_word(text, word, at)
}

proof fn lemma_navigation_names()
    ensures
        is_plain("nav"@),
        is_plain("toc.xhtml"@),
        is_plain("toc.html"@),
        is_plain("nav.xhtml"@),
        is_plain("nav.html"@),
{
    reveal_strlit("nav");
    reveal_strlit("toc.xhtml");
    reveal_strlit("toc.html");
    reveal_strlit("nav.xhtml");
    reveal_strlit("nav.html");
}

proof fn lemma_front_matter_names()
    ensures
        is_plain("titlepage"@),
        is_plain("title-page"@),
        is_plain("cover"@),
{
    reveal_strlit("titlepage");
    reveal_strlit("title-page");
    reveal_strlit("cover");
}

proof fn lemma_space_stays(text: Seq<char>, capacity: int, i: int)
    requires
        is_plain_text(text),
        text.len() <= capacity,
        0 <= i < text.len(),
    ensures
        is_ascii_space(lower_ascii(text, capacity)[i]) <==> is_ascii_space(text[i]),
{
    lemma_plain_lower(text, capacity);
    let c = lower_ascii(text, capacity)[i];
    let feed = 0x0cu32 as char;
    assert(c == ' ' <==> is_letter(text[i], ' '));
    assert(c == '\t' <==> is_letter(text[i], '\t'));
    assert(c == '\n' <==> is_letter(text[i], '\n'));
    assert(c == '\r' <==> is_letter(text[i], '\r'));
    assert(c == feed <==> is_letter(text[i], feed));
    assert(feed as u32 == 0x0c);
    vstd::utf8::char_u32_cast(c, c as u32);
    vstd::utf8::char_u32_cast(text[i], text[i] as u32);
}

proof fn lemma_word_is_read(text: Seq<char>, word: Seq<char>, capacity: int)
    requires
        is_plain_text(text),
        text.len() <= capacity,
        is_plain(word),
    ensures
        has_ascii_word(lower_ascii(text, capacity), word) <==> has_word(text, word),
{
    let name = lower_ascii(text, capacity);
    let n = word.len() as int;
    lemma_plain_lower(text, capacity);
    assert forall|at: int| is_ascii_word_of(name, word, at) <==> reads_word(text, word, at) by {
        lemma_plain_stands(text, word, capacity, at);
        if stands_at(name, word, at) {
            if at > 0 {
                lemma_space_stays(text, capacity, at - 1);
            }
            if at + n < text.len() {
                lemma_space_stays(text, capacity, at + n);
            }
        }
    }
    if has_ascii_word(name, word) {
        let at = choose|at: int| is_ascii_word_of(name, word, at);
        assert(reads_word(text, word, at));
    }
    if has_word(text, word) {
        let at = choose|at: int| reads_word(text, word, at);
        assert(is_ascii_word_of(name, word, at));
    }
}

/// An item is a table of contents, and not text, exactly when the package says
/// so, by its type, as its own or by the word `nav`, or when it is named as
/// one. Letter case does not matter in the word or the name, which are short
/// and plain here.
pub proof fn law_navigation_is_known_by_its_name(
    href: Seq<char>,
    properties: Seq<char>,
    media_type: Seq<char>,
    nav_href: Option<&str>,
    ncx_href: Option<&str>,
)
    requires
        is_plain_text(href),
        href.len() <= 160,
        is_plain_text(properties),
        properties.len() <= 96,
    ensures
        is_navigation(href, properties, media_type, nav_href, ncx_href) <==> {
            ||| media_type == "application/x-dtbncx+xml"@
            ||| nav_href is Some && nav_href->0@ == href
            ||| ncx_href is Some && ncx_href->0@ == href
            ||| has_word(properties, "nav"@)
            ||| ends_in(href, "toc.xhtml"@)
            ||| ends_in(href, "toc.html"@)
            ||| ends_in(href, "nav.xhtml"@)
            ||| ends_in(href, "nav.html"@)
        },
{
    lemma_navigation_names();
    lemma_word_is_read(properties, "nav"@, 96);
    lemma_plain_lower(href, 160);
    lemma_plain_stands(href, "toc.xhtml"@, 160, href.len() - "toc.xhtml"@.len());
    lemma_plain_stands(href, "toc.html"@, 160, href.len() - "toc.html"@.len());
    lemma_plain_stands(href, "nav.xhtml"@, 160, href.len() - "nav.xhtml"@.len());
    lemma_plain_stands(href, "nav.html"@, 160, href.len() - "nav.html"@.len());
}

/// Whatever its name, an item is left out as a table of contents only where
/// the package says that it is one, or its name holds one of four endings.
pub proof fn law_only_navigation_is_left_out(
    href: Seq<char>,
    properties: Seq<char>,
    media_type: Seq<char>,
    nav_href: Option<&str>,
    ncx_href: Option<&str>,
)
    requires
        is_navigation(href, properties, media_type, nav_href, ncx_href),
        media_type != "application/x-dtbncx+xml"@,
        nav_href is Some ==> nav_href->0@ != href,
        ncx_href is Some ==> ncx_href->0@ != href,
        !mentions(properties, "nav"@),
    ensures
        mentions(href, "toc.xhtml"@) || mentions(href, "toc.html"@) || mentions(href, "nav.xhtml"@)
            || mentions(href, "nav.html"@),
{
    lemma_navigation_names();
    let words = lower_ascii(properties, 96);
    let name = lower_ascii(href, 160);
    if has_ascii_word(words, "nav"@) {
        let at = choose|at: int| is_ascii_word_of(words, "nav"@, at);
        let found = lemma_found_is_read(properties, "nav"@, 96, at);
        assert(reads(properties, "nav"@, found));
        assert(false);
    }
    if stands_at(name, "toc.xhtml"@, name.len() - "toc.xhtml"@.len()) {
        let found = lemma_found_is_read(href, "toc.xhtml"@, 160, name.len() - "toc.xhtml"@.len());
        assert(reads(href, "toc.xhtml"@, found));
    } else if stands_at(name, "toc.html"@, name.len() - "toc.html"@.len()) {
        let found = lemma_found_is_read(href, "toc.html"@, 160, name.len() - "toc.html"@.len());
        assert(reads(href, "toc.html"@, found));
    } else if stands_at(name, "nav.xhtml"@, name.len() - "nav.xhtml"@.len()) {
        let found = lemma_found_is_read(href, "nav.xhtml"@, 160, name.len() - "nav.xhtml"@.len());
        assert(reads(href, "nav.xhtml"@, found));
    } else {
        let found = lemma_found_is_read(href, "nav.html"@, 160, name.len() - "nav.html"@.len());
        assert(reads(href, "nav.html"@, found));
    }
}

proof fn lemma_held_is_mentioned(href: Seq<char>, phrase: Seq<char>, capacity: int)
    requires
        is_plain(phrase),
        capacity >= 0,
    ensures
        holds(lower_ascii(href, capacity), phrase) ==> mentions(href, phrase),
        is_plain_text(href) && href.len() <= capacity && mentions(href, phrase) ==> holds(
            lower_ascii(href, capacity),
            phrase,
        ),
{
    let name = lower_ascii(href, capacity);
    if holds(name, phrase) {
        let at = choose|at: int| stands_at(name, phrase, at);
        let found = lemma_found_is_read(href, phrase, capacity, at);
        assert(reads(href, phrase, found));
    }
    if is_plain_text(href) && href.len() <= capacity && mentions(href, phrase) {
        let at = choose|at: int| reads(href, phrase, at);
        lemma_plain_stands(href, phrase, capacity, at);
        assert(stands_at(name, phrase, at));
    }
}

/// An item counts as front matter only if its name mentions a title page or a
/// cover, whatever the letter case; and a plain name that fits counts as such
/// exactly then.
pub proof fn law_front_matter_is_known_by_its_name(href: Seq<char>, capacity: int)
    requires
        capacity >= 0,
    ensures
        is_front_matter(href, capacity) ==> mentions(href, "titlepage"@) || mentions(
            href,
            "title-page"@,
        ) || mentions(href, "cover"@),
        is_plain_text(href) && href.len() <= capacity && (mentions(href, "titlepage"@) || mentions(
            href,
            "title-page"@,
        ) || mentions(href, "cover"@)) ==> is_front_matter(href, capacity),
{
    lemma_front_matter_names();
    lemma_held_is_mentioned(href, "titlepage"@, capacity);
    lemma_held_is_mentioned(href, "title-page"@, capacity);
    lemma_held_is_mentioned(href, "cover"@, capacity);
}

/// Whether `dir` is the directory of `path`: what comes before its last part,
/// which has no slash.
pub open spec fn is_directory_of(dir: Seq<char>, path: Seq<char>) -> bool {
    &&& dir.len() <= path.len()
    &&& path.take(dir.len() as int) == dir
    &&& dir.len() == 0 || dir.last() == '/'
    &&& forall|i: int| dir.len() <= i < path.len() ==> #[trigger] path[i] != '/'
}

/// Whether `part` is a link up to its first fragment mark.
pub open spec fn is_before_fragment(part: Seq<char>, href: Seq<char>) -> bool {
    &&& part.len() <= href.len()
    &&& href.take(part.len() as int) == part
    &&& forall|i: int| 0 <= i < part.len() ==> #[trigger] part[i] != '#'
    &&& part.len() < href.len() ==> href[part.len() as int] == '#'
}

proof fn lemma_last_part(path: Seq<char>)
    ensures
        file_name_len(path) <= path.len(),
        forall|i: int| path.len() - file_name_len(path) <= i < path.len() ==> #[trigger] path[i] != '/',
        file_name_len(path) < path.len() ==> path[path.len() - file_name_len(path) - 1] == '/',
    decreases path.len(),
{
    if path.len() > 0 && path.last() != '/' {
        let front = path.drop_last();
        lemma_last_part(front);
        assert forall|i: int| path.len() - file_name_len(path) <= i < path.len() implies
            #[trigger] path[i] != '/' by {
            if i < path.len() - 1 {
                assert(front[i] == path[i]);
            }
        }
    }
}

proof fn lemma_first_mark(text: Seq<char>, mark: char, from: int)
    requires
        0 <= from <= text.len(),
    ensures
        match position_from(text, mark, from) {
            Some(at) => from <= at < text.len() && text[at] == mark && forall|i: int|
                from <= i < at ==> #[trigger] text[i] != mark,
            None => forall|i: int| from <= i < text.len() ==> #[trigger] text[i] != mark,
        },
    decreases text.len() - from,
{
    if from < text.len() && text[from] != mark {
        lemma_first_mark(text, mark, from + 1);
    }
}

proof fn lemma_slashes(href: Seq<char>) -> (count: int)
    ensures
        0 <= count <= href.len(),
        without_leading_slashes(href) == href.skip(count),
        forall|i: int| 0 <= i < count ==> #[trigger] href[i] == '/',
        count < href.len() ==> href[count] != '/',
    decreases href.len(),
{
    if href.len() > 0 && href[0] == '/' {
        let rest = href.drop_first();
        let count = lemma_slashes(rest);
        assert(rest.skip(count) =~= href.skip(count + 1));
        assert forall|i: int| 0 <= i < count + 1 implies #[trigger] href[i] == '/' by {
            if i > 0 {
                assert(rest[i - 1] == href[i]);
            }
        }
        if count < rest.len() {
            assert(rest[count] == href[count + 1]);
        }
        count + 1
    } else {
        assert(href.skip(0) =~= href);
        0
    }
}

/// A rooted link leads from the root of the archive: to what stands behind its
/// slashes, all of them. Any other leads from the directory of the package
/// document: the path is that directory and the link up to its fragment, one
/// behind the other.
pub proof fn law_link_is_taken_from_its_package(opf_path: Seq<char>, href: Seq<char>)
    ensures
        href.len() > 0 && href[0] == '/' ==> exists|count: int|
            1 <= count <= href.len() && resolved(opf_path, href) == #[trigger] href.skip(count) && (
            forall|i: int| 0 <= i < count ==> #[trigger] href[i] == '/') && (count < href.len()
                ==> href[count] != '/'),
        href.len() == 0 || href[0] != '/' ==> exists|dir: Seq<char>, part: Seq<char>|
            resolved(opf_path, href) == dir + part && #[trigger] is_directory_of(dir, opf_path)
                && #[trigger] is_before_fragment(part, href),
{
    if href.len() > 0 && href[0] == '/' {
        let count = lemma_slashes(href);
        assert(resolved(opf_path, href) == href.skip(count));
    } else {
        let dir = directory_of(opf_path);
        let part = without_fragment(href);
        lemma_last_part(opf_path);
        lemma_first_mark(href, '#', 0);
        assert(opf_path.take(dir.len() as int) =~= dir);
        assert(href.take(part.len() as int) =~= part);
        if dir.len() > 0 {
            assert(dir.last() == opf_path[dir.len() - 1]);
        }
        assert(is_directory_of(dir, opf_path));
        assert(is_before_fragment(part, href));
    }
}

} // verus!
