//! Reading a book's table of contents.
use vstd::prelude::*;
use crate::chars::{chars_of, ends_with, stands_at};
use crate::href::{names_item, named_item, spine_position};

verus! {

/// Where a chapter's spine item is noted when no item matches.
pub const NO_SPINE_ITEM: i16 = -1;

/// The chapters taken so far: full records for the card, and a short resident
/// list that stops at its first refusal.
#[derive(Clone, Copy, PartialEq, Eq, Structural, Debug)]
pub struct TocSink {
    pub record_count: usize,
    pub record_bytes: usize,
    pub buffer_len: usize,
    pub resident_full: bool,
}

impl TocSink {
    /// The records taken lie in the buffer.
    pub open spec fn wf(&self) -> bool {
        self.record_count * self.record_bytes <= self.buffer_len
    }

    pub fn new(record_bytes: usize, buffer_len: usize) -> (sink: TocSink)
        ensures
            sink == (TocSink { record_count: 0, record_bytes, buffer_len, resident_full: false }),
            sink.wf(),
    {
        assert(0 * record_bytes == 0);
        TocSink { record_count: 0, record_bytes, buffer_len, resident_full: false }
    }

    /// Where the next record goes in the buffer, if there is room for it.
    pub fn next_offset(&self) -> (offset: Option<usize>)
        requires
            self.wf(),
        ensures
            offset == offset_of_next(*self),
            match offset {
                Some(offset) => offset == self.record_count * self.record_bytes && offset
                    + self.record_bytes <= self.buffer_len,
                None => self.record_count * self.record_bytes + self.record_bytes
                    > self.buffer_len,
            },
    {
        let offset: usize = self.record_count * self.record_bytes;
        if self.buffer_len - offset >= self.record_bytes {
            Some(offset)
        } else {
            None
        }
    }

    /// A record was written at the next offset, or could not be encoded.
    pub fn record_written(&mut self, encoded: bool)
        requires
            old(self).wf(),
            old(self).record_count < usize::MAX,
            old(self).record_count * old(self).record_bytes + old(self).record_bytes <= old(
                self,
            ).buffer_len,
        ensures
            *final(self) == written_to(*old(self), encoded),
            final(self).wf(),
            *final(self) == (TocSink {
                record_count: if encoded {
                    (old(self).record_count + 1) as usize
                } else {
                    old(self).record_count
                },
                ..*old(self)
            }),
    {
        if encoded {
            proof {
                let n = self.record_count as int;
                let b = self.record_bytes as int;
                assert((n + 1) * b == n * b + b) by (nonlinear_arith);
            }
            self.record_count = self.record_count + 1;
        }
    }

    /// Whether a chapter is still offered to the resident list.
    pub fn offers_resident(&self) -> (offers: bool)
        ensures
            offers == !self.resident_full,
    {
        !self.resident_full
    }

    /// Whether the resident list took the chapter; after one refusal it is
    /// not asked again.
    pub fn resident_offered(&mut self, accepted: bool)
        ensures
            *final(self) == offered_to(*old(self), accepted),
            *final(self) == (TocSink {
                resident_full: old(self).resident_full || !accepted,
                ..*old(self)
            }),
    {
        if !accepted {
            self.resident_full = true;
        }
    }
}

/// An item's number in the sixteen bits a record has for it.
pub open spec fn in_sixteen_bits(at: int) -> int {
    if at % 65536 < 32768 { at % 65536 } else { at % 65536 - 65536 }
}

/// The spine item a chapter's link names, as the record keeps it: the low
/// bits of its number, or none.
pub fn chapter_spine_index(href: &str, spine: &Vec<String>) -> (index: i16)
    ensures
        index == chapter_item(href@, spine@),
        index == match named_item(href@, spine@, 0) {
            Some(at) => in_sixteen_bits(at),
            None => NO_SPINE_ITEM as int,
        },
{
    match spine_position(href, spine) {
        Some(at) => {
            let low: i32 = (at % 65536) as i32;
            if low < 32768 {
                low as i16
            } else {
                (low - 65536) as i16
            }
        },
        None => NO_SPINE_ITEM,
    }
}

/// In a spine whose items the record can number, a chapter's entry names the
/// first item its link names, and none only when no item has that name.
pub proof fn law_chapter_names_its_item(href: Seq<char>, spine: Seq<String>, at: int)
    requires
        spine.len() <= 32768,
        named_item(href, spine, 0) == Some(at),
        0 <= at < spine.len(),
    ensures
        in_sixteen_bits(at) == at,
        in_sixteen_bits(at) != NO_SPINE_ITEM,
{
}

/// Which parser reads a table of contents.
#[derive(Clone, Copy, PartialEq, Eq, Structural, Debug)]
pub enum TocParser {
    Ncx,
    Nav,
}

/// The parser for a path: by its ending.
pub fn toc_parser(path: &str) -> (parser: TocParser)
    ensures
        parser == parser_of(path@),
        parser == if stands_at(path@, ".ncx"@, path@.len() - ".ncx"@.len()) {
            TocParser::Ncx
        } else {
            TocParser::Nav
        },
{
    if ends_with(&chars_of(path), &chars_of(".ncx")) {
        TocParser::Ncx
    } else {
        TocParser::Nav
    }
}

/// What to do next to find a table of contents.
#[derive(Clone, Copy, PartialEq, Eq, Structural, Debug)]
pub enum TocAction {
    /// The chapters of the source that was read, or zero for none.
    Finish { records: usize },
    /// Resolve and find a source. Answer: `Found`.
    Find(TocParserSource),
    /// Parse it. Answer: `Parsed`.
    Parse(TocParserSource),
    /// Drop the chapters a source left that is of no use. Answer: `Cleared`.
    Clear(TocParserSource),
}

/// Where a table of contents may come from, in the order they are tried.
#[derive(Clone, Copy, PartialEq, Eq, Structural, Debug)]
pub enum TocParserSource {
    Nav,
    Ncx,
}

#[derive(Clone, Copy, PartialEq, Eq, Structural, Debug)]
pub enum TocReply {
    Found(bool),
    /// Whether it parsed, and how many chapters went to the buffer and stay
    /// resident.
    Parsed { ok: bool, records: usize, resident: usize },
    Cleared,
}

/// The source tried after `source`, if the package names it.
pub open spec fn toc_after(source: TocParserSource, has_ncx: bool) -> TocAction {
    if source is Nav && has_ncx {
        TocAction::Find(TocParserSource::Ncx)
    } else {
        TocAction::Finish { records: 0 }
    }
}

pub open spec fn toc_next(action: TocAction, reply: TocReply, has_ncx: bool) -> Option<TocAction> {
    match (action, reply) {
        (TocAction::Find(source), TocReply::Found(found)) => Some(
            if found { TocAction::Parse(source) } else { toc_after(source, has_ncx) },
        ),
        (TocAction::Parse(source), TocReply::Parsed { ok, records, resident }) => Some(
            if ok && (records > 0 || resident > 0) {
                TocAction::Finish { records }
            } else {
                TocAction::Clear(source)
            },
        ),
        (TocAction::Clear(source), TocReply::Cleared) => Some(toc_after(source, has_ncx)),
        _ => None,
    }
}

/// Begins to look for a table of contents: the book's own navigation first,
/// then its older one.
pub fn load_epub_toc(has_nav: bool, has_ncx: bool) -> (action: TocAction)
    ensures
        action == first_source(has_nav, has_ncx),
        action == if has_nav {
            TocAction::Find(TocParserSource::Nav)
        } else if has_ncx {
            TocAction::Find(TocParserSource::Ncx)
        } else {
            TocAction::Finish { records: 0 }
        },
{
    if has_nav {
        TocAction::Find(TocParserSource::Nav)
    } else if has_ncx {
        TocAction::Find(TocParserSource::Ncx)
    } else {
        TocAction::Finish { records: 0 }
    }
}

/// What the answer to the last action does: a source that parsed and held a
/// chapter ends the search, any other gives way to the next and leaves
/// nothing behind.
pub fn continue_toc(action: TocAction, reply: TocReply, has_ncx: bool) -> (next: Option<TocAction>)
    ensures
        next == toc_next(action, reply, has_ncx),
{
    let source = match (action, reply) {
        (TocAction::Find(source), TocReply::Found(found)) => {
            if found {
                return Some(TocAction::Parse(source));
            }
            source
        },
        (TocAction::Parse(source), TocReply::Parsed { ok, records, resident }) => {
            if ok && (records > 0 || resident > 0) {
                return Some(TocAction::Finish { records });
            }
            return Some(TocAction::Clear(source));
        },
        (TocAction::Clear(source), TocReply::Cleared) => source,
        _ => return None,
    };
    match source {
        TocParserSource::Nav => if has_ncx {
            Some(TocAction::Find(TocParserSource::Ncx))
        } else {
            Some(TocAction::Finish { records: 0 })
        },
        TocParserSource::Ncx => Some(TocAction::Finish { records: 0 }),
    }
}

/// Only the source that ends the search leaves chapters: one that does not is
/// cleared before another is tried or the search ends without any.
pub proof fn law_useless_source_is_cleared(source: TocParserSource, reply: TocReply, has_ncx: bool)
    ensures
        toc_next(TocAction::Parse(source), reply, has_ncx) matches Some(next) ==> next
            == TocAction::Clear(source) || (reply matches TocReply::Parsed {
            ok,
            records,
            resident,
        } && ok && (records > 0 || resident > 0) && next == TocAction::Finish { records }),
        toc_next(TocAction::Clear(source), TocReply::Cleared, has_ncx) == Some(
            toc_after(source, has_ncx),
        ),
{
}

/// What a search for a table of contents has come to.
pub struct TocWatch {
    pub action: TocAction,
    /// Chapters that a source left behind, in the buffer and in the resident
    /// list.
    pub kept: nat,
    /// Whether a source parsed and held a chapter.
    pub useful: bool,
    /// The sources that were looked for, in order.
    pub tried: Seq<TocParserSource>,
}

pub open spec fn with_source(tried: Seq<TocParserSource>, action: TocAction) -> Seq<TocParserSource> {
    match action {
        TocAction::Find(source) => tried.push(source),
        _ => tried,
    }
}

/// A search that began with looking for `first`, fed answers in order.
pub open spec fn toc_watched(first: TocParserSource, replies: Seq<TocReply>, has_ncx: bool) -> TocWatch
    decreases replies.len(),
{
    if replies.len() == 0 {
        TocWatch { action: TocAction::Find(first), kept: 0, useful: false, tried: seq![first] }
    } else {
        let before = toc_watched(first, replies.drop_last(), has_ncx);
        match toc_next(before.action, replies.last(), has_ncx) {
            Some(next) => TocWatch {
                action: next,
                kept: match replies.last() {
                    TocReply::Parsed { records, resident, .. } => records as nat + resident as nat,
                    TocReply::Cleared => 0,
                    TocReply::Found(_) => before.kept,
                },
                useful: match replies.last() {
                    TocReply::Parsed { ok, records, resident } => ok && records + resident > 0,
                    _ => before.useful,
                },
                tried: with_source(before.tried, next),
            },
            None => before,
        }
    }
}

/// A search ends with the chapters of the first source that parsed and holds
/// one. Without such a source it ends with none and leaves none behind, and
/// it has then tried both sources the package names, the book's own
/// navigation first and each once.
pub proof fn law_search_ends_with_a_useful_source(first: TocParserSource, replies: Seq<TocReply>, has_ncx: bool)
    requires
        first is Ncx ==> has_ncx,
    ensures
        ({
            let watch = toc_watched(first, replies, has_ncx);
            &&& watch.action is Find ==> watch.kept == 0 && !watch.useful
            &&& watch.action is Parse ==> watch.kept == 0 && !watch.useful
            &&& watch.action is Clear ==> !watch.useful
            &&& watch.action is Finish && watch.useful ==> watch.kept > 0
            &&& watch.action is Finish && !watch.useful ==> {
                &&& watch.action == TocAction::Finish { records: 0 }
                &&& watch.kept == 0
                &&& watch.tried == if first is Nav && has_ncx {
                    seq![TocParserSource::Nav, TocParserSource::Ncx]
                } else {
                    seq![first]
                }
            }
            &&& (watch.action matches TocAction::Find(source) ==> watch.tried.last() == source)
            &&& (watch.action matches TocAction::Parse(source) ==> watch.tried.last() == source)
            &&& (watch.action matches TocAction::Clear(source) ==> watch.tried.last() == source)
            &&& watch.tried == seq![first] || (first is Nav && has_ncx && watch.tried
                == seq![TocParserSource::Nav, TocParserSource::Ncx])
        }),
    decreases replies.len(),
{
    if replies.len() > 0 {
        law_search_ends_with_a_useful_source(first, replies.drop_last(), has_ncx);
        let before = toc_watched(first, replies.drop_last(), has_ncx);
        assert(seq![first].push(TocParserSource::Ncx) =~= seq![first, TocParserSource::Ncx]);
        assert(seq![first].last() == first);
        assert(seq![TocParserSource::Nav, TocParserSource::Ncx].last() == TocParserSource::Ncx);
    }
}

/// The number of chapters a search ends with is the number that the last
/// source put in the buffer.
pub proof fn law_search_tells_how_many_chapters(source: TocParserSource, ok: bool, records: usize, resident: usize, has_ncx: bool)
    ensures
        toc_next(TocAction::Parse(source), TocReply::Parsed { ok, records, resident }, has_ncx) matches Some(
            TocAction::Finish { records: told },
        ) ==> told == records && ok && records + resident > 0,
        ok && records + resident > 0 ==> toc_next(
            TocAction::Parse(source),
            TocReply::Parsed { ok, records, resident },
            has_ncx,
        ) == Some(TocAction::Finish { records }),
{
}

pub open spec fn offset_of_next(sink: TocSink) -> Option<usize> {
    if sink.record_count * sink.record_bytes + sink.record_bytes <= sink.buffer_len {
        Some((sink.record_count * sink.record_bytes) as usize)
    } else {
        None
    }
}

pub open spec fn written_to(sink: TocSink, encoded: bool) -> TocSink {
    TocSink {
        record_count: if encoded { (sink.record_count + 1) as usize } else { sink.record_count },
        ..sink
    }
}

pub open spec fn offered_to(sink: TocSink, accepted: bool) -> TocSink {
    TocSink { resident_full: sink.resident_full || !accepted, ..sink }
}

pub open spec fn chapter_item(href: Seq<char>, spine: Seq<String>) -> int {
    match named_item(href, spine, 0) {
        Some(at) => in_sixteen_bits(at),
        None => NO_SPINE_ITEM as int,
    }
}

pub open spec fn parser_of(path: Seq<char>) -> TocParser {
    if stands_at(path, ".ncx"@, path.len() - ".ncx"@.len()) {
        TocParser::Ncx
    } else {
        TocParser::Nav
    }
}

pub open spec fn first_source(has_nav: bool, has_ncx: bool) -> TocAction {
    if has_nav {
        TocAction::Find(TocParserSource::Nav)
    } else if has_ncx {
        TocAction::Find(TocParserSource::Ncx)
    } else {
        TocAction::Finish { records: 0 }
    }
}

/// A record lies behind those before it and within the buffer; one that was
/// not encoded leaves its place to the next; and a sink that once refused is
/// not offered to again.
pub proof fn law_records_follow_one_another(sink: TocSink, encoded: bool, accepted: bool)
    requires
        sink.record_count < usize::MAX,
    ensures
        offset_of_next(sink) matches Some(at) ==> at == sink.record_count * sink.record_bytes && at
            + sink.record_bytes <= sink.buffer_len && (offset_of_next(written_to(sink, true)) matches Some(
            next,
        ) ==> next == at + sink.record_bytes),
        offset_of_next(sink) is None ==> (sink.record_count + 1) * sink.record_bytes
            > sink.buffer_len,
        offset_of_next(written_to(sink, false)) == offset_of_next(sink),
        offset_of_next(offered_to(sink, accepted)) == offset_of_next(sink),
        written_to(sink, encoded).resident_full == sink.resident_full,
        offered_to(sink, accepted).resident_full <==> sink.resident_full || !accepted,
{
    let count = sink.record_count as int;
    let bytes = sink.record_bytes as int;
    assert((count + 1) * bytes == count * bytes + bytes) by (nonlinear_arith);
    assert(count * bytes >= 0) by (nonlinear_arith)
        requires
            count >= 0,
            bytes >= 0,
    ;
}

/// The nav document is looked for before the ncx, and a book with neither has
/// no chapters.
pub proof fn law_nav_is_looked_for_first(has_nav: bool, has_ncx: bool)
    ensures
        first_source(has_nav, has_ncx) == TocAction::Find(TocParserSource::Nav) <==> has_nav,
        first_source(has_nav, has_ncx) == TocAction::Find(TocParserSource::Ncx) <==> !has_nav
            && has_ncx,
        first_source(has_nav, has_ncx) is Finish <==> !has_nav && !has_ncx,
        first_source(has_nav, has_ncx) matches TocAction::Finish { records } ==> records == 0,
{
}

/// A path is read as an ncx exactly if it ends in that suffix.
pub proof fn law_suffix_tells_the_parser(stem: Seq<char>, path: Seq<char>)
    ensures
        parser_of(stem + ".ncx"@) is Ncx,
        parser_of(path) is Ncx ==> path.len() >= 4 && path[path.len() - 4] == '.' && path[path.len()
            - 3] == 'n' && path[path.len() - 2] == 'c' && path[path.len() - 1] == 'x',
{
    reveal_strlit(".ncx");
    let whole = stem + ".ncx"@;
    assert(whole.subrange(whole.len() - 4, whole.len() as int) =~= ".ncx"@);
    if parser_of(path) is Ncx {
        let tail = path.subrange(path.len() - 4, path.len() as int);
        assert(tail == ".ncx"@);
        assert(tail[0] == path[path.len() - 4]);
        assert(tail[1] == path[path.len() - 3]);
        assert(tail[2] == path[path.len() - 2]);
        assert(tail[3] == path[path.len() - 1]);
    }
}

/// A chapter is at the first spine item that it names, and at none exactly if
/// it names none.
pub proof fn law_chapter_is_at_the_item_it_names(href: Seq<char>, spine: Seq<String>)
    requires
        spine.len() <= 0x7fff,
    ensures
        chapter_item(href, spine) == NO_SPINE_ITEM as int <==> (forall|at: int|
            0 <= at < spine.len() ==> !#[trigger] names_item(href, spine[at]@)),
        chapter_item(href, spine) != NO_SPINE_ITEM as int ==> {
            let item = chapter_item(href, spine);
            &&& 0 <= item < spine.len()
            &&& names_item(href, spine[item]@)
            &&& forall|at: int| 0 <= at < item ==> !#[trigger] names_item(href, spine[at]@)
        },
{
    lemma_first_item_named(href, spine, 0);
}

proof fn lemma_first_item_named(href: Seq<char>, spine: Seq<String>, from: int)
    requires
        0 <= from <= spine.len(),
    ensures
        match named_item(href, spine, from) {
            Some(item) => {
                &&& from <= item < spine.len()
                &&& names_item(href, spine[item]@)
                &&& forall|at: int| from <= at < item ==> !#[trigger] names_item(href, spine[at]@)
            },
            None => forall|at: int|
                from <= at < spine.len() ==> !#[trigger] names_item(href, spine[at]@),
        },
    decreases spine.len() - from,
{
    if from < spine.len() && !names_item(href, spine[from]@) {
        lemma_first_item_named(href, spine, from + 1);
    }
}

} // verus!
