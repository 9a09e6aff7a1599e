//! Paths inside a book: which spine item a link names, where it lies in the
//! archive, and which items are not text.
use vstd::prelude::*;
use vstd::string::*;
use crate::bounded::{char_width, lemma_utf8_len_concat, utf8_len, Text};
use crate::cache_error::ReaderCacheError;
use crate::chars::{chars_of, ends_with, find_from, holds, position_from, same, stands_at};
use crate::text::{has_ascii_word, lower_ascii, LowerAscii};

verus! {

/// How many characters the last part of a path has: those after its last `/`.
pub open spec fn file_name_len(path: Seq<char>) -> nat
    decreases path.len(),
{
    if path.len() == 0 || path.last() == '/' {
        0
    } else {
        1 + file_name_len(path.drop_last())
    }
}

/// The last part of a path.
pub open spec fn file_name_of(path: Seq<char>) -> Seq<char> {
    path.skip(path.len() - file_name_len(path))
}

proof fn lemma_file_name_len(path: Seq<char>, start: int)
    requires
        0 <= start <= path.len(),
        forall|i: int| start <= i < path.len() ==> #[trigger] path[i] != '/',
        start == 0 || path[start - 1] == '/',
    ensures
        file_name_len(path) == path.len() - start,
    decreases path.len(),
{
    if start < path.len() {
        let rest = path.drop_last();
        assert forall|i: int| start <= i < rest.len() implies #[trigger] rest[i] != '/' by {
            assert(rest[i] == path[i]);
        }
        if start > 0 {
            assert(rest[start - 1] == path[start - 1]);
        }
        assert(path.last() == path[path.len() - 1]);
        lemma_file_name_len(rest, start);
    }
}

/// Where the last part of a path begins.
fn file_name_start(path: &Vec<char>) -> (start: usize)
    ensures
        start <= path@.len(),
        file_name_len(path@) == path@.len() - start,
        forall|i: int| start <= i < path@.len() ==> #[trigger] path@[i] != '/',
        start == 0 || path@[start - 1] == '/',
{
    let mut start: usize = path.len();
    while start > 0 && path[start - 1] != '/'
        invariant
            start <= path@.len(),
            forall|i: int| start <= i < path@.len() ==> #[trigger] path@[i] != '/',
        decreases start,
    {
        start -= 1;
    }
    proof {
        lemma_file_name_len(path@, start as int);
    }
    start
}

/// The last part of a path, after its last `/`.
pub fn file_name(value: &str) -> (name: &str)
    ensures
        name@ == file_name_of(value@),
{
    let chars = chars_of(value);
    let start: usize = file_name_start(&chars);
    assert(value@.subrange(start as int, value@.len() as int) =~= value@.skip(start as int));
    value.substring_char(start, chars.len())
}

/// A link up to its fragment.
pub open spec fn without_fragment(href: Seq<char>) -> Seq<char> {
    match position_from(href, '#', 0) {
        Some(at) => href.take(at),
        None => href,
    }
}

/// A link up to its fragment.
fn strip_fragment(href: &str) -> (path: &str)
    ensures
        path@ == without_fragment(href@),
{
    let link = chars_of(href);
    let end: usize = match find_from(&link, '#', 0) {
        Some(at) => at,
        None => link.len(),
    };
    assert(href@.subrange(0, end as int) =~= without_fragment(href@));
    href.substring_char(0, end)
}

/// Whether two paths may be of the same file: they are equal, one ends with
/// the other, or their last parts agree.
pub open spec fn paths_agree(a: Seq<char>, b: Seq<char>) -> bool {
    ||| a == b
    ||| stands_at(a, b, a.len() - b.len())
    ||| stands_at(b, a, b.len() - a.len())
    ||| file_name_of(a) == file_name_of(b)
}

/// Whether a link names a spine item: its path, up to the fragment, agrees
/// with the item's.
pub open spec fn names_item(href: Seq<char>, spine_href: Seq<char>) -> bool {
    paths_agree(without_fragment(href), spine_href)
}

/// Whether a link names a spine item. Where in the item it points does not
/// matter.
pub fn href_matches_spine(href: &str, spine_href: &str) -> (matches: bool)
    ensures
        matches == names_item(href@, spine_href@),
{
    let path = strip_fragment(href);
    let link = chars_of(path);
    let item = chars_of(spine_href);
    same(&link, &item) || ends_with(&link, &item) || ends_with(&item, &link) || same(
        &chars_of(file_name(path)),
        &chars_of(file_name(spine_href)),
    )
}

/// The first spine item from `from` on that a link names.
pub open spec fn named_item(href: Seq<char>, spine: Seq<String>, from: int) -> Option<int>
    decreases spine.len() - from,
{
    if from < 0 || from >= spine.len() {
        None
    } else if names_item(href, spine[from]@) {
        Some(from)
    } else {
        named_item(href, spine, from + 1)
    }
}

/// The first spine item that a link names.
pub fn spine_position(href: &str, spine: &Vec<String>) -> (position: Option<usize>)
    ensures
        match position {
            Some(at) => named_item(href@, spine@, 0) == Some(at as int) && at < spine@.len(),
            None => named_item(href@, spine@, 0) is None,
        },
{
    let mut at: usize = 0;
    while at < spine.len()
        invariant
            at <= spine@.len(),
            named_item(href@, spine@, 0) == named_item(href@, spine@, at as int),
        decreases spine@.len() - at,
    {
        if href_matches_spine(href, spine[at].as_str()) {
            return Some(at);
        }
        at += 1;
    }
    None
}

/// A link relative to the root of the archive, without its leading slashes.
pub open spec fn without_leading_slashes(href: Seq<char>) -> Seq<char>
    decreases href.len(),
{
    if href.len() > 0 && href[0] == '/' {
        without_leading_slashes(href.drop_first())
    } else {
        href
    }
}

/// The directory of a path, with its closing `/`; empty for a bare name.
pub open spec fn directory_of(path: Seq<char>) -> Seq<char> {
    path.take(path.len() - file_name_len(path))
}

/// Where a link of the package document points in the archive. A rooted link
/// is taken from the archive's root as it stands, any other from the package
/// document's directory and up to its fragment.
pub open spec fn resolved(opf_path: Seq<char>, href: Seq<char>) -> Seq<char> {
    if href.len() > 0 && href[0] == '/' {
        without_leading_slashes(href)
    } else {
        directory_of(opf_path) + without_fragment(href)
    }
}

proof fn lemma_position_bounds(text: Seq<char>, mark: char, from: int)
    requires
        0 <= from,
    ensures
        position_from(text, mark, from) matches Some(at) ==> from <= at < text.len(),
    decreases text.len() - from,
{
    if from < text.len() && text[from] != mark {
        lemma_position_bounds(text, mark, from + 1);
    }
}

/// What is left in a buffer that the path did not fit into: the directory, as
/// far as it went in whole, without its closing `/` if that was too much.
pub open spec fn left_over(opf_path: Seq<char>, href: Seq<char>, capacity: nat) -> Seq<char> {
    let dir = directory_of(opf_path);
    if (href.len() > 0 && href[0] == '/') || dir.len() == 0 || utf8_len(dir.drop_last()) > capacity {
        Seq::empty()
    } else if utf8_len(dir) > capacity {
        dir.drop_last()
    } else {
        dir
    }
}

/// Resolves a link of the package document to a path in the archive. It fails
/// exactly when the path is longer than the buffer.
pub fn resolve_epub_href<const N: usize>(opf_path: &str, href: &str, out: &mut Text<N>) -> (outcome: Result<
    (),
    ReaderCacheError,
>)
    ensures
        outcome is Ok <==> utf8_len(resolved(opf_path@, href@)) <= N,
        outcome is Ok ==> final(out)@ == resolved(opf_path@, href@),
        outcome matches Err(error) ==> error == ReaderCacheError::EntryNameTooLong && final(out)@
            == left_over(opf_path@, href@, N as nat),
{
    out.clear();
    let link = chars_of(href);
    assert(utf8_len(Seq::<char>::empty()) == 0);
    if link.len() > 0 && link[0] == '/' {
        let mut at: usize = 0;
        assert(href@.skip(0) =~= href@);
        while at < link.len() && link[at] == '/'
            invariant
                at <= link@.len(),
                link@ == href@,
                without_leading_slashes(href@.skip(at as int)) == without_leading_slashes(href@),
            decreases link@.len() - at,
        {
            proof {
                assert(href@.skip(at as int)[0] == link@[at as int]);
                assert(href@.skip(at as int).drop_first() =~= href@.skip(at + 1));
            }
            at += 1;
        }
        proof {
            if at < link@.len() {
                assert(href@.skip(at as int)[0] == link@[at as int]);
            }
            assert(href@.subrange(at as int, href@.len() as int) =~= href@.skip(at as int));
            assert(Seq::<char>::empty() + href@.skip(at as int) =~= href@.skip(at as int));
        }
        return match out.push_str(href.substring_char(at, link.len())) {
            Ok(()) => Ok(()),
            Err(()) => Err(ReaderCacheError::EntryNameTooLong),
        };
    }
    let opf = chars_of(opf_path);
    let start: usize = file_name_start(&opf);
    let ghost dir = directory_of(opf_path@);
    let ghost part = without_fragment(href@);
    proof {
        assert(dir =~= opf_path@.take(start as int));
        lemma_utf8_len_concat(dir, part);
        lemma_position_bounds(href@, '#', 0);
    }
    if start > 0 {
        proof {
            assert(dir.drop_last() =~= opf_path@.subrange(0, start - 1));
            assert(dir.last() == '/');
            assert(char_width('/') == 1);
            assert(Seq::<char>::empty() + dir.drop_last() =~= dir.drop_last());
        }
        if out.push_str(opf_path.substring_char(0, start - 1)).is_err() {
            return Err(ReaderCacheError::EntryNameTooLong);
        }
        if out.push('/').is_err() {
            return Err(ReaderCacheError::EntryNameTooLong);
        }
        assert(out@ =~= dir);
    } else {
        assert(out@ =~= dir);
    }
    let end: usize = match find_from(&link, '#', 0) {
        Some(at) => at,
        None => link.len(),
    };
    assert(href@.subrange(0, end as int) =~= part);
    match out.push_str(href.substring_char(0, end)) {
        Ok(()) => Ok(()),
        Err(()) => Err(ReaderCacheError::EntryNameTooLong),
    }
}

pub open spec fn is_same_path(path: Option<&str>, href: Seq<char>) -> bool {
    match path {
        Some(path) => path@ == href,
        None => false,
    }
}

/// Whether a spine item is a table of contents rather than text: by its media
/// type, by being the package's own, by its properties or by its name.
pub open spec fn is_navigation(
    href: Seq<char>,
    properties: Seq<char>,
    media_type: Seq<char>,
    nav_href: Option<&str>,
    ncx_href: Option<&str>,
) -> bool {
    let name = lower_ascii(href, 160);
    ||| media_type == "application/x-dtbncx+xml"@
    ||| is_same_path(nav_href, href)
    ||| is_same_path(ncx_href, href)
    ||| has_ascii_word(lower_ascii(properties, 96), "nav"@)
    ||| stands_at(name, "toc.xhtml"@, name.len() - "toc.xhtml"@.len())
    ||| stands_at(name, "toc.html"@, name.len() - "toc.html"@.len())
    ||| stands_at(name, "nav.xhtml"@, name.len() - "nav.xhtml"@.len())
    ||| stands_at(name, "nav.html"@, name.len() - "nav.html"@.len())
}

fn same_path(path: Option<&str>, href: &str) -> (same_path: bool)
    ensures
        same_path == is_same_path(path, href@),
{
    match path {
        Some(path) => same(&chars_of(path), &chars_of(href)),
        None => false,
    }
}

/// Whether a spine item is a table of contents rather than text.
pub fn spine_item_is_navigation(
    href: &str,
    properties: &str,
    media_type: &str,
    nav_href: Option<&str>,
    ncx_href: Option<&str>,
) -> (navigation: bool)
    ensures
        navigation == is_navigation(href@, properties@, media_type@, nav_href, ncx_href),
{
    let name = LowerAscii::<160>::new(href);
    let words = LowerAscii::<96>::new(properties);
    proof {
        reveal_strlit("nav");
    }
    same(&chars_of(media_type), &chars_of("application/x-dtbncx+xml")) || same_path(nav_href, href)
        || same_path(ncx_href, href) || words.word_eq("nav") || name.ends_with("toc.xhtml")
        || name.ends_with("toc.html") || name.ends_with("nav.xhtml") || name.ends_with("nav.html")
}

/// Whether a name is that of a title page or a cover, in a buffer of
/// `capacity` bytes.
pub open spec fn is_front_matter(href: Seq<char>, capacity: int) -> bool {
    let name = lower_ascii(href, capacity);
    holds(name, "titlepage"@) || holds(name, "title-page"@) || holds(name, "cover"@)
}

/// Where a book without a named start begins: past a title page or cover,
/// when it is not all there is.
pub fn inferred_start_spine_index<const N: usize>(spine: &Vec<String>) -> (start: usize)
    ensures
        start == inferred_start(spine@, N as int),
        start == if spine@.len() > 1 && is_front_matter(spine@[0]@, N as int) { 1int } else { 0 },
{
    if spine.len() <= 1 {
        return 0;
    }
    let name = LowerAscii::<N>::new(spine[0].as_str());
    if name.contains("titlepage") || name.contains("title-page") || name.contains("cover") {
        1
    } else {
        0
    }
}

/// Where a book begins: at the item its package names as the text, or else
/// past its front matter.
pub fn start_spine_index<const N: usize>(text_href: Option<&str>, spine: &Vec<String>) -> (start: usize)
    ensures
        start == start_of_text(text_href, spine@, N as int),
        start == match text_href {
            Some(href) => match named_item(href@, spine@, 0) {
                Some(at) => at,
                None => if spine@.len() > 1 && is_front_matter(spine@[0]@, N as int) { 1 } else { 0 },
            },
            None => if spine@.len() > 1 && is_front_matter(spine@[0]@, N as int) { 1 } else { 0 },
        },
{
    if let Some(href) = text_href {
        if let Some(at) = spine_position(href, spine) {
            return at;
        }
    }
    inferred_start_spine_index::<N>(spine)
}

/// A link names the same items with its fragment and without it. A path names
/// the items whose paths would name it, and itself.
pub proof fn law_naming_goes_by_the_path(href: Seq<char>, spine_href: Seq<char>)
    ensures
        names_item(href, spine_href) == names_item(without_fragment(href), spine_href),
        paths_agree(without_fragment(href), spine_href) == paths_agree(
            spine_href,
            without_fragment(href),
        ),
        names_item(href, without_fragment(href)),
{
    lemma_bare_of_fragment(href);
}

/// What is before the fragment has none of its own.
proof fn lemma_bare_of_fragment(href: Seq<char>)
    ensures
        without_fragment(without_fragment(href)) == without_fragment(href),
{
    lemma_position_bounds(href, '#', 0);
    let part = without_fragment(href);
    lemma_no_mark(href, part, 0);
}

proof fn lemma_no_mark(href: Seq<char>, part: Seq<char>, from: int)
    requires
        0 <= from,
        part == match position_from(href, '#', from) {
            Some(at) => href.take(at),
            None => href,
        },
    ensures
        position_from(part, '#', from) is None,
    decreases href.len() - from,
{
    lemma_position_bounds(href, '#', from);
    if from < part.len() {
        assert(part[from] == href[from]);
        lemma_no_mark(href, part, from + 1);
    }
}

/// The last part of a path holds no slash, and is its own last part.
pub proof fn law_file_name_is_bare(path: Seq<char>)
    ensures
        file_name_len(path) <= path.len(),
        forall|i: int| 0 <= i < file_name_of(path).len() ==> #[trigger] file_name_of(path)[i] != '/',
        file_name_of(file_name_of(path)) == file_name_of(path),
    decreases path.len(),
{
    lemma_bare(path);
    let name = file_name_of(path);
    assert(name.skip(0) =~= name);
    lemma_file_name_len(name, 0);
}

proof fn lemma_bare(path: Seq<char>)
    ensures
        file_name_len(path) <= path.len(),
        forall|i: int|
            path.len() - file_name_len(path) <= i < path.len() ==> #[trigger] path[i] != '/',
    decreases path.len(),
{
    if path.len() > 0 && path.last() != '/' {
        let rest = path.drop_last();
        lemma_bare(rest);
        assert forall|i: int|
            path.len() - file_name_len(path) <= i < path.len() implies #[trigger] path[i] != '/' by {
            if i < path.len() - 1 {
                assert(rest[i] == path[i]);
            }
        }
    }
}

/// Whether `part` is how `whole` ends.
pub open spec fn is_tail(whole: Seq<char>, part: Seq<char>) -> bool {
    part.len() <= whole.len() && whole.skip(whole.len() - part.len()) == part
}

/// Whether `name` is what a path calls its file: a name without a slash that
/// stands at the end of the path, alone or behind a slash.
pub open spec fn is_called(path: Seq<char>, name: Seq<char>) -> bool {
    &&& is_tail(path, name)
    &&& forall|i: int| 0 <= i < name.len() ==> #[trigger] name[i] != '/'
    &&& name.len() == path.len() || path[path.len() - name.len() - 1] == '/'
}

/// Whether a link is a path with no fragment, or with one behind its first
/// `#`.
pub open spec fn leads_to(href: Seq<char>, path: Seq<char>) -> bool {
    &&& path.len() <= href.len()
    &&& href.take(path.len() as int) == path
    &&& forall|i: int| 0 <= i < path.len() ==> #[trigger] path[i] != '#'
    &&& path.len() == href.len() || href[path.len() as int] == '#'
}

proof fn lemma_leads_to(href: Seq<char>, path: Seq<char>, from: int)
    requires
        leads_to(href, path),
        0 <= from <= path.len(),
    ensures
        position_from(href, '#', from) == if path.len() < href.len() {
            Some(path.len() as int)
        } else {
            None
        },
    decreases path.len() - from,
{
    if from < path.len() {
        assert(path[from] == href[from]);
        lemma_leads_to(href, path, from + 1);
    }
}

/// A link without its fragment is the path it leads to.
pub proof fn law_fragment_is_taken_off(href: Seq<char>, path: Seq<char>)
    requires
        leads_to(href, path),
    ensures
        without_fragment(href) == path,
{
    lemma_leads_to(href, path, 0);
    assert(href.take(href.len() as int) =~= href);
}

/// Every path calls its file by one name, the one behind its last slash.
pub proof fn law_file_has_one_name(path: Seq<char>, name: Seq<char>)
    ensures
        is_called(path, name) <==> file_name_of(path) == name,
{
    lemma_bare(path);
    let own = file_name_of(path);
    assert forall|i: int| 0 <= i < own.len() implies #[trigger] own[i] != '/' by {
        assert(own[i] == path[path.len() - own.len() + i]);
    }
    lemma_slash_before(path);
    if is_called(path, name) {
        let start = path.len() - name.len();
        assert forall|i: int| start <= i < path.len() implies #[trigger] path[i] != '/' by {
            assert(name[i - start] == path.skip(start)[i - start]);
        }
        lemma_file_name_len(path, start);
    }
}

proof fn lemma_slash_before(path: Seq<char>)
    ensures
        file_name_len(path) <= path.len(),
        file_name_len(path) == path.len() || path[path.len() - file_name_len(path) - 1] == '/',
    decreases path.len(),
{
    if path.len() > 0 && path.last() != '/' {
        lemma_slash_before(path.drop_last());
    }
}

/// A link names an item exactly when the two files have one name or one of
/// the two paths ends with the other.
pub proof fn law_link_names_only_its_file(href: Seq<char>, path: Seq<char>, item: Seq<char>, linked: Seq<char>, listed: Seq<char>)
    requires
        leads_to(href, path),
        is_called(path, linked),
        is_called(item, listed),
    ensures
        names_item(href, item) <==> linked == listed || is_tail(path, item) || is_tail(item, path),
{
    law_fragment_is_taken_off(href, path);
    law_file_has_one_name(path, linked);
    law_file_has_one_name(item, listed);
    if item.len() <= path.len() {
        assert(path.subrange(path.len() - item.len(), path.len() as int) =~= path.skip(
            path.len() - item.len(),
        ));
    }
    if path.len() <= item.len() {
        assert(item.subrange(item.len() - path.len(), item.len() as int) =~= item.skip(
            item.len() - path.len(),
        ));
    }
    assert(path.skip(0) =~= path);
    assert(item.skip(0) =~= item);
}

/// The item a link leads to is the first that it names.
pub proof fn law_first_named_item_is_found(href: Seq<char>, spine: Seq<String>, from: int)
    requires
        0 <= from <= spine.len(),
    ensures
        match named_item(href, spine, from) {
            Some(at) => {
                &&& from <= at < spine.len()
                &&& names_item(href, spine[at]@)
                &&& forall|i: int| from <= i < at ==> !names_item(href, #[trigger] spine[i]@)
            },
            None => forall|i: int|
                from <= i < spine.len() ==> !names_item(href, #[trigger] spine[i]@),
        },
    decreases spine.len() - from,
{
    if from < spine.len() && !names_item(href, spine[from]@) {
        law_first_named_item_is_found(href, spine, from + 1);
    }
}

/// In a spine whose files have names of their own, no path ending with
/// another, the link of an item leads to that item, with a fragment or
/// without.
pub proof fn law_link_leads_to_its_own_item(href: Seq<char>, spine: Seq<String>, item: int)
    requires
        0 <= item < spine.len(),
        leads_to(href, spine[item]@),
        forall|i: int, j: int|
            0 <= i < spine.len() && 0 <= j < spine.len() && i != j ==> !is_tail(
                #[trigger] spine[i]@,
                #[trigger] spine[j]@,
            ),
        forall|i: int, j: int, name: Seq<char>|
            0 <= i < spine.len() && 0 <= j < spine.len() && i != j ==> !(#[trigger] is_called(
                spine[i]@,
                name,
            ) && #[trigger] is_called(spine[j]@, name)),
    ensures
        named_item(href, spine, 0) == Some(item),
{
    let path = spine[item]@;
    let own = file_name_of(path);
    law_file_has_one_name(path, own);
    law_first_named_item_is_found(href, spine, 0);
    law_link_names_only_its_file(href, path, path, own, own);
    assert(names_item(href, spine[item]@));
    let at = named_item(href, spine, 0)->0;
    if at < item {
        let other = spine[at]@;
        law_file_has_one_name(other, file_name_of(other));
        law_link_names_only_its_file(href, path, other, own, file_name_of(other));
        assert(is_called(spine[item]@, own));
        assert(!is_called(spine[at]@, own));
        assert(false);
    }
}

/// A resolved path is never rooted by its link: a rooted link has lost its
/// slashes, and any other stands behind the package document's directory.
pub proof fn law_resolved_path_is_relative(opf_path: Seq<char>, href: Seq<char>)
    requires
        opf_path.len() == 0 || opf_path[0] != '/',
    ensures
        resolved(opf_path, href).len() == 0 || resolved(opf_path, href)[0] != '/',
{
    lemma_no_leading_slash(href);
    lemma_bare(opf_path);
    let dir = directory_of(opf_path);
    let part = without_fragment(href);
    lemma_position_bounds(href, '#', 0);
    if !(href.len() > 0 && href[0] == '/') {
        if dir.len() > 0 {
            assert((dir + part)[0] == opf_path[0]);
        } else {
            assert(dir + part =~= part);
            if part.len() > 0 {
                assert(part[0] == href[0]);
            }
        }
    }
}

proof fn lemma_no_leading_slash(href: Seq<char>)
    ensures
        without_leading_slashes(href).len() == 0 || without_leading_slashes(href)[0] != '/',
    decreases href.len(),
{
    if href.len() > 0 && href[0] == '/' {
        lemma_no_leading_slash(href.drop_first());
    }
}

pub open spec fn inferred_start(spine: Seq<String>, capacity: int) -> int {
    if spine.len() > 1 && is_front_matter(spine[0]@, capacity) { 1 } else { 0 }
}

pub open spec fn start_of_text(text_href: Option<&str>, spine: Seq<String>, capacity: int) -> int {
    match text_href {
        Some(href) => match named_item(href@, spine, 0) {
            Some(at) => at,
            None => inferred_start(spine, capacity),
        },
        None => inferred_start(spine, capacity),
    }
}

proof fn lemma_item_named_first(href: Seq<char>, spine: Seq<String>, from: int)
    requires
        0 <= from <= spine.len(),
    ensures
        match named_item(href, spine, from) {
            Some(item) => {
                &&& from <= item < spine.len()
                &&& names_item(href, spine[item]@)
                &&& forall|at: int| from <= at < item ==> !#[trigger] names_item(href, spine[at]@)
            },
            None => forall|at: int|
                from <= at < spine.len() ==> !#[trigger] names_item(href, spine[at]@),
        },
    decreases spine.len() - from,
{
    if from < spine.len() && !names_item(href, spine[from]@) {
        lemma_item_named_first(href, spine, from + 1);
    }
}

/// The text starts at the first item that the book's own pointer names.
/// Without one that names an item it starts at the first item, or at the
/// second where the first is front matter and there is a second. It always
/// starts within the book.
pub proof fn law_text_starts_where_the_book_says(href: &str, text_href: Option<&str>, spine: Seq<String>, item: int, capacity: int)
    requires
        spine.len() > 0,
    ensures
        0 <= start_of_text(text_href, spine, capacity) < spine.len(),
        (0 <= item < spine.len() && names_item(href@, spine[item]@) && (forall|at: int|
            0 <= at < item ==> !#[trigger] names_item(href@, spine[at]@))) ==> start_of_text(
            Some(href),
            spine,
            capacity,
        ) == item,
        (forall|at: int| 0 <= at < spine.len() ==> !#[trigger] names_item(href@, spine[at]@))
            ==> start_of_text(Some(href), spine, capacity) == start_of_text(None, spine, capacity),
        start_of_text(None, spine, capacity) <= 1,
        start_of_text(None, spine, capacity) == 1 <==> spine.len() > 1 && is_front_matter(
            spine[0]@,
            capacity,
        ),
{
    lemma_item_named_first(href@, spine, 0);
    if let Some(other) = text_href {
        lemma_item_named_first(other@, spine, 0);
    }
}

/// A path that does not fit leaves no part of a name behind: what is left in
/// the buffer is empty or the package's own directory, with or without its
/// closing slash, and it fits.
pub proof fn law_refused_path_leaves_a_directory(opf_path: Seq<char>, href: Seq<char>, capacity: nat)
    ensures
        ({
            let left = left_over(opf_path, href, capacity);
            let dir = directory_of(opf_path);
            &&& utf8_len(left) <= capacity
            &&& left.len() == 0 || left == dir || (dir.len() > 0 && left == dir.drop_last())
            &&& href.len() > 0 && href[0] == '/' ==> left.len() == 0
            &&& !(href.len() > 0 && href[0] == '/') && dir.len() > 0 && utf8_len(dir) <= capacity
                && utf8_len(dir.drop_last()) <= capacity ==> left == dir
        }),
{
}

} // verus!
