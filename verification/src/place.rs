//! Reading places: where a reader is in the content rather than on a page.
use vstd::prelude::*;
use vstd::arithmetic::div_mod::*;
use vstd::arithmetic::mul::*;
use crate::messages::{BookPosition, SourceIdentity};
use crate::storage::PlaceTarget;

verus! {

/// The denominator of a progression.
pub const PROGRESSION_WHOLE: u64 = 65_535;

/// What a copy's stored place says.
#[derive(Clone, Copy, PartialEq, Eq, Structural, Debug)]
pub enum SavedPlace {
    /// A place in the content. `exact` says that the bytes it was taken in
    /// are still the bytes of the copy.
    Place { spine: u16, offset: u32, exact: bool, progression: u16 },
    /// A page under whatever layout wrote it.
    Page { chapter: u16, page: u32 },
}

impl SavedPlace {
    /// Where to open while the place is unresolved: at the start of its spine
    /// item, or at the page.
    pub fn provisional(&self) -> (position: BookPosition)
        ensures
            position == place_meanwhile(*self),
            position == match *self {
                SavedPlace::Place { spine, .. } => BookPosition { chapter: spine, page: 0 },
                SavedPlace::Page { chapter, page } => BookPosition { chapter, page },
            },
    {
        match *self {
            SavedPlace::Place { spine, .. } => BookPosition { chapter: spine, page: 0 },
            SavedPlace::Page { chapter, page } => BookPosition { chapter, page },
        }
    }
}

/// Where in the content a page begins: an offset into a spine item.
#[derive(Clone, Copy, PartialEq, Eq, Structural, Debug)]
pub struct Anchor {
    pub spine: u16,
    pub offset: u32,
}

/// A place as it is kept for a copy.
#[derive(Clone, Copy, PartialEq, Eq, Structural, Debug)]
pub struct StoredPlace {
    pub copy_id: u64,
    pub anchor: Anchor,
    /// The bytes the anchor was taken in.
    pub source: SourceIdentity,
    pub progression: u16,
}

/// What a stored place, or else the page an older card holds, says to a copy
/// whose bytes are now `identity`.
pub open spec fn place_read(stored: Option<StoredPlace>, page: Option<BookPosition>, identity: SourceIdentity) -> Option<SavedPlace> {
    match (stored, page) {
        (Some(place), _) => Some(
            SavedPlace::Place {
                spine: place.anchor.spine,
                offset: place.anchor.offset,
                exact: place.source == identity,
                progression: place.progression,
            },
        ),
        (None, Some(position)) => Some(
            SavedPlace::Page { chapter: position.chapter, page: position.page },
        ),
        (None, None) => None,
    }
}

/// The place of a copy, or the page an older card holds for it. A row that no
/// longer says where its book is has neither.
pub fn load_place(
    located: bool,
    stored: Option<StoredPlace>,
    page: Option<BookPosition>,
    identity: SourceIdentity,
) -> (saved: Option<SavedPlace>)
    ensures
        saved == place_loaded(located, stored, page, identity),
        saved == if located { place_read(stored, page, identity) } else { None },
{
    if !located {
        return None;
    }
    match stored {
        Some(place) => Some(
            SavedPlace::Place {
                spine: place.anchor.spine,
                offset: place.anchor.offset,
                exact: place.source == identity,
                progression: place.progression,
            },
        ),
        None => match page {
            Some(position) => Some(
                SavedPlace::Page { chapter: position.chapter, page: position.page },
            ),
            None => None,
        },
    }
}

/// What is known when a place is to be stored.
#[derive(Clone, Copy, PartialEq, Eq, Structural, Debug)]
pub struct PlaceFacts {
    /// The copy's id; a row without one gets it on the next scan.
    pub copy_id: Option<u64>,
    /// Where the page begins; unknown outside the resident window.
    pub anchor: Option<Anchor>,
    pub source: Option<SourceIdentity>,
    pub index_is_partial: bool,
    /// The progression the copy's place holds now.
    pub stored_progression: Option<u16>,
    pub total_pages: u32,
}

pub open spec fn place_owed(facts: PlaceFacts, screen: u32) -> Option<StoredPlace> {
    let progression = if facts.index_is_partial {
        facts.stored_progression
    } else {
        Some(progression_of(screen, facts.total_pages))
    };
    match (facts.copy_id, facts.anchor, facts.source, progression) {
        (Some(copy_id), Some(anchor), Some(source), Some(progression)) => Some(
            StoredPlace { copy_id, anchor, source, progression },
        ),
        _ => None,
    }
}

/// The place to store for a page, when everything it is made of is known.
pub fn place_to_store(facts: &PlaceFacts, screen: u32) -> (place: Option<StoredPlace>)
    ensures
        place == place_owed(*facts, screen),
{
    let progression = place_progression(
        facts.index_is_partial,
        facts.stored_progression,
        screen,
        facts.total_pages,
    );
    match (facts.copy_id, facts.anchor, facts.source, progression) {
        (Some(copy_id), Some(anchor), Some(source), Some(progression)) => Some(
            StoredPlace { copy_id, anchor, source, progression },
        ),
        _ => None,
    }
}

/// A place that was stored is found again: the same anchor and progression,
/// exact as long as the copy's bytes are those it was taken in, whatever page
/// an older card still holds.
pub proof fn law_stored_place_is_found_again(facts: PlaceFacts, screen: u32, page: Option<BookPosition>, identity: SourceIdentity)
    requires
        place_owed(facts, screen) is Some,
    ensures
        place_read(place_owed(facts, screen), page, identity) == Some(
            SavedPlace::Place {
                spine: facts.anchor->0.spine,
                offset: facts.anchor->0.offset,
                exact: facts.source == Some(identity),
                progression: place_owed(facts, screen)->0.progression,
            },
        ),
{
}

pub open spec fn at_least_one(total: u32) -> int {
    if total > 0 { total as int } else { 1 }
}

/// How far through the book a page is, in parts of the whole. A page past the
/// end wraps, as the stored field does.
pub open spec fn progression_of(screen: u32, total: u32) -> u16 {
    ((screen * 65535) / at_least_one(total) % 65536) as u16
}

/// How far through the book the reader is. While the index covers only part
/// of the book its length is not known, and the stored fraction stands.
pub fn place_progression(index_is_partial: bool, stored: Option<u16>, screen: u32, total: u32) -> (progression: Option<
    u16,
>)
    ensures
        progression == if index_is_partial { stored } else { Some(progression_of(screen, total)) },
{
    if index_is_partial {
        return stored;
    }
    let total: u64 = if total > 0 { total as u64 } else { 1 };
    assert(screen * 65535 <= u32::MAX * 65535) by (nonlinear_arith)
        requires
            screen <= u32::MAX,
    ;
    let parts: u64 = (screen as u64 * PROGRESSION_WHOLE) / total;
    Some((parts % 65536) as u16)
}

pub open spec fn page_near(progression: u16, total: u32) -> int {
    let page = (progression * total) / 65535;
    let last = if total > 0 { total - 1 } else { 0 };
    if page <= last { page } else { last }
}

/// Where a stored place falls. One whose bytes changed lands near, by its
/// progression; an exact one is the page `within` its section. `None` for a
/// place that needs no resolving or that this book cannot place.
pub fn resolve_place(place: SavedPlace, total: u32, section: Option<(u32, u16)>) -> (page: Option<u32>)
    ensures
        page == place_found(place, total, section),
        match place {
            SavedPlace::Page { .. } => page is None,
            SavedPlace::Place { exact: false, progression, .. } => page matches Some(page) && page
                == page_near(progression, total),
            SavedPlace::Place { exact: true, .. } => page == match section {
                Some((start_page, within)) => Some(
                    if start_page + within <= u32::MAX {
                        (start_page + within) as u32
                    } else {
                        u32::MAX
                    },
                ),
                None => None,
            },
        },
{
    match place {
        SavedPlace::Page { .. } => None,
        SavedPlace::Place { exact, progression, .. } => {
            if !exact {
                assert(progression * total <= 65535 * u32::MAX) by (nonlinear_arith)
                    requires
                        progression <= 65535,
                        total <= u32::MAX,
                ;
                let page: u64 = (progression as u64 * total as u64) / PROGRESSION_WHOLE;
                let last: u64 = if total > 0 { (total - 1) as u64 } else { 0 };
                return if page <= last { Some(page as u32) } else { Some(last as u32) };
            }
            match section {
                Some((start_page, within)) => Some(start_page.saturating_add(within as u32)),
                None => None,
            }
        },
    }
}

/// What an open does with a resolved place.
pub fn place_target(page: Option<u32>) -> (target: PlaceTarget)
    ensures
        target == target_of(page),
        target == match page {
            Some(page) => PlaceTarget::Page(page),
            None => PlaceTarget::Keep,
        },
{
    match page {
        Some(page) => PlaceTarget::Page(page),
        None => PlaceTarget::Keep,
    }
}

/// Where the chapter window starts, so that the selection has slack both
/// ways.
pub fn toc_window_start(selection: usize, window_capacity: usize) -> (start: usize)
    ensures
        start == window_start(selection as int, window_capacity as int),
        start == if selection >= window_capacity / 2 {
            selection - window_capacity / 2
        } else {
            0
        },
{
    selection.saturating_sub(window_capacity / 2)
}

/// The chapter a render moved into, if the chapter map is resident, the
/// chapter is not the current one, and the book is loaded.
pub fn track_reading_chapter(map_is_ready: bool, chapter_of_page: u16, current_chapter: u16, book_is_loaded: bool) -> (moved_to: Option<
    u16,
>)
    ensures
        moved_to == chapter_moved_to(map_is_ready, chapter_of_page, current_chapter, book_is_loaded),
        moved_to == if map_is_ready && chapter_of_page != current_chapter && book_is_loaded {
            Some(chapter_of_page)
        } else {
            None
        },
{
    if !map_is_ready || chapter_of_page == current_chapter || !book_is_loaded {
        None
    } else {
        Some(chapter_of_page)
    }
}

/// A place resolved by its progression is a page of the book.
pub proof fn law_near_page_is_in_the_book(progression: u16, total: u32)
    requires
        total > 0,
    ensures
        0 <= page_near(progression, total) < total,
{
    assert(0 <= (progression * total) / 65535) by (nonlinear_arith)
        requires
            progression >= 0,
            total >= 0,
    ;
}

/// A place whose bytes changed is found again near where it was: never past
/// the page it was stored at, and short of it by no more than one part of the
/// whole.
pub proof fn law_progression_lands_nearby(screen: u32, total: u32)
    requires
        screen < total,
    ensures
        page_near(progression_of(screen, total), total) <= screen,
        screen <= page_near(progression_of(screen, total), total) + total / 65535 + 1,
{
    let w: int = 65535;
    let t = total as int;
    let s = screen as int;
    let p = (s * w) / t;
    assert(0 <= p && p * t <= s * w && s * w < (p + 1) * t) by {
        lemma_fundamental_div_mod(s * w, t);
        assert(0 <= s * w) by (nonlinear_arith)
            requires
                s >= 0,
                w == 65535,
        ;
        lemma_div_pos_is_pos(s * w, t);
        lemma_mod_bound(s * w, t);
        assert((p + 1) * t == p * t + t) by (nonlinear_arith);
        assert(t * p == p * t) by (nonlinear_arith);
    }
    assert(p < w) by (nonlinear_arith)
        requires
            p * t <= s * w,
            s < t,
            t > 0,
            w == 65535,
            0 <= s,
    ;
    assert(p % 65536 == p) by {
        lemma_small_mod(p as nat, 65536);
    }
    assert(progression_of(screen, total) == p);
    let q = (p * t) / w;
    lemma_fundamental_div_mod(p * t, w);
    lemma_mod_bound(p * t, w);
    assert(w * q <= p * t && p * t < w * q + w);
    assert(0 <= p * t) by (nonlinear_arith)
        requires
            p >= 0,
            t > 0,
    ;
    lemma_div_pos_is_pos(p * t, w);
    assert(q <= s) by (nonlinear_arith)
        requires
            w * q <= s * w,
            w == 65535,
    ;
    let d = t / w;
    lemma_fundamental_div_mod(t, w);
    lemma_mod_bound(t, w);
    assert(t < w * d + w);
    // s * w < p * t + t < (w * q + w) + (w * d + w)
    assert(s * w < w * (q + d + 2)) by (nonlinear_arith)
        requires
            s * w < (p + 1) * t,
            p * t < w * q + w,
            t < w * d + w,
    ;
    assert(s < q + d + 2) by (nonlinear_arith)
        requires
            s * w < w * (q + d + 2),
            w == 65535,
    ;
}

/// A place is stored exactly when the copy, where the page begins and the
/// bytes it begins in are all known, and so is how far the reader is: from
/// the pages of a whole index, or else as it was stored. It is of that copy,
/// that page and those bytes.
pub proof fn law_place_is_of_the_page(facts: PlaceFacts, screen: u32)
    ensures
        ({
            let place = place_owed(facts, screen);
            &&& place is Some <==> facts.copy_id is Some && facts.anchor is Some && facts.source is Some
                && (facts.index_is_partial ==> facts.stored_progression is Some)
            &&& place is Some ==> facts.copy_id == Some(place->0.copy_id) && facts.anchor == Some(
                place->0.anchor,
            ) && facts.source == Some(place->0.source)
            &&& place is Some && facts.index_is_partial ==> facts.stored_progression == Some(
                place->0.progression,
            )
            &&& place is Some && !facts.index_is_partial ==> place->0.progression == progression_of(
                screen,
                facts.total_pages,
            )
        }),
{
}

/// A stored place outranks a stored page, and says where it is in the bytes
/// it was taken in; without one the page stands as it is, and without either
/// there is nothing.
pub proof fn law_place_outranks_the_page(stored: Option<StoredPlace>, page: Option<BookPosition>, identity: SourceIdentity)
    ensures
        ({
            let read = place_read(stored, page, identity);
            &&& read is None <==> stored is None && page is None
            &&& stored is Some ==> (read matches Some(SavedPlace::Place {
                spine,
                offset,
                exact,
                progression,
            }) && spine == stored->0.anchor.spine && offset == stored->0.anchor.offset && progression
                == stored->0.progression && (exact <==> stored->0.source.hash == identity.hash
                && stored->0.source.size == identity.size))
            &&& stored is None && page is Some ==> read == Some(
                SavedPlace::Page { chapter: page->0.chapter, page: page->0.page },
            )
        }),
{
}

/// The progression of a page of the book is how many whole parts of the book
/// lie before it.
pub proof fn law_progression_counts_whole_parts(screen: u32, total: u32)
    requires
        screen < total,
    ensures
        progression_of(screen, total) * total <= screen * 65535,
        screen * 65535 < (progression_of(screen, total) + 1) * total,
{
    let w: int = 65535;
    let t = total as int;
    let s = screen as int;
    let p = (s * w) / t;
    lemma_fundamental_div_mod(s * w, t);
    lemma_mod_bound(s * w, t);
    assert(0 <= s * w) by (nonlinear_arith)
        requires
            s >= 0,
            w == 65535,
    ;
    lemma_div_pos_is_pos(s * w, t);
    assert((p + 1) * t == p * t + t) by (nonlinear_arith);
    assert(t * p == p * t) by (nonlinear_arith);
    assert(p < w) by (nonlinear_arith)
        requires
            p * t <= s * w,
            s < t,
            t > 0,
            w == 65535,
            0 <= s,
    ;
    lemma_small_mod(p as nat, 65536);
    assert(progression_of(screen, total) == p);
}

/// A place found by its progression is the last page that lies no further
/// through the book: it does not, and the next page would, or there is none.
pub proof fn law_near_page_is_the_last_before(progression: u16, total: u32)
    requires
        total > 0,
    ensures
        page_near(progression, total) * 65535 <= progression * total,
        page_near(progression, total) == total - 1 || progression * total < (page_near(
            progression,
            total,
        ) + 1) * 65535,
{
    let x = progression * total;
    assert(0 <= x) by (nonlinear_arith)
        requires
            x == progression * total,
            progression >= 0,
            total >= 0,
    ;
    lemma_fundamental_div_mod(x, 65535);
    lemma_mod_bound(x, 65535);
}

pub open spec fn place_loaded(located: bool, stored: Option<StoredPlace>, page: Option<BookPosition>, identity: SourceIdentity) -> Option<SavedPlace> {
    if located { place_read(stored, page, identity) } else { None }
}

pub open spec fn place_found(place: SavedPlace, total: u32, section: Option<(u32, u16)>) -> Option<u32> {
    match place {
        SavedPlace::Page { .. } => None,
        SavedPlace::Place { exact: false, progression, .. } => Some(
            page_near(progression, total) as u32,
        ),
        SavedPlace::Place { exact: true, .. } => match section {
            Some((start_page, within)) => Some(
                if start_page + within <= u32::MAX {
                    (start_page + within) as u32
                } else {
                    u32::MAX
                },
            ),
            None => None,
        },
    }
}

pub open spec fn place_meanwhile(place: SavedPlace) -> BookPosition {
    match place {
        SavedPlace::Place { spine, .. } => BookPosition { chapter: spine, page: 0 },
        SavedPlace::Page { chapter, page } => BookPosition { chapter, page },
    }
}

pub open spec fn window_start(selection: int, window_capacity: int) -> int {
    if selection >= window_capacity / 2 { selection - window_capacity / 2 } else { 0 }
}

pub open spec fn chapter_moved_to(map_is_ready: bool, chapter_of_page: u16, current_chapter: u16, book_is_loaded: bool) -> Option<u16> {
    if map_is_ready && chapter_of_page != current_chapter && book_is_loaded {
        Some(chapter_of_page)
    } else {
        None
    }
}

/// A book whose place on the card is unknown has no stored place, and any
/// other has what was stored for it.
pub proof fn law_place_is_of_a_located_book(located: bool, stored: Option<StoredPlace>, page: Option<BookPosition>, identity: SourceIdentity)
    ensures
        !located ==> place_loaded(located, stored, page, identity) is None,
        located ==> (place_loaded(located, stored, page, identity) is None <==> stored is None && page
            is None),
        located && stored is Some ==> place_loaded(located, stored, page, identity)
            == place_loaded(located, stored, None, identity),
{
}

/// An exact place is the page of its section that holds it, counted from the
/// section's first, as long as the book has such a section; one whose bytes
/// changed is a page of the book near where it was, whatever the sections
/// are. A page stays a page.
pub proof fn law_place_is_found_in_its_section(place: SavedPlace, total: u32, start_page: u32, within: u16, section: Option<(u32, u16)>)
    requires
        total > 0,
        start_page + within <= u32::MAX,
    ensures
        place is Page ==> place_found(place, total, section) is None,
        (place matches SavedPlace::Place { exact, .. } && exact) ==> place_found(
            place,
            total,
            Some((start_page, within)),
        ) == Some((start_page + within) as u32) && place_found(place, total, None) is None,
        (place matches SavedPlace::Place { exact, .. } && !exact) ==> (place_found(
            place,
            total,
            section,
        ) matches Some(page) && page < total && place_found(place, total, None) == Some(page)),
{
    if let SavedPlace::Place { progression, .. } = place {
        law_near_page_is_in_the_book(progression, total);
    }
}

/// Until a place is found the book is open at its spine item, at the start;
/// a page is open at itself.
pub proof fn law_place_is_open_at_its_chapter(place: SavedPlace)
    ensures
        place matches SavedPlace::Place { spine, .. } ==> place_meanwhile(place).chapter == spine
            && place_meanwhile(place).page == 0,
        place matches SavedPlace::Page { chapter, page } ==> place_meanwhile(place).chapter == chapter
            && place_meanwhile(place).page == page,
{
}

/// A window of chapters holds the selection and has half of itself before it,
/// or all there is.
pub proof fn law_window_holds_the_selection(selection: int, window_capacity: int)
    requires
        selection >= 0,
        window_capacity > 0,
    ensures
        ({
            let start = window_start(selection, window_capacity);
            &&& 0 <= start <= selection < start + window_capacity
            &&& start == 0 || selection - start == window_capacity / 2
            &&& start == 0 ==> selection <= window_capacity / 2
        }),
{
}

/// The reader has moved to a chapter exactly if the page shown is known to lie
/// in another than the current one.
pub proof fn law_chapter_follows_the_page(map_is_ready: bool, chapter_of_page: u16, current_chapter: u16, book_is_loaded: bool)
    ensures
        ({
            let moved = chapter_moved_to(map_is_ready, chapter_of_page, current_chapter, book_is_loaded);
            &&& moved is Some ==> moved == Some(chapter_of_page) && moved != Some(current_chapter)
                && map_is_ready && book_is_loaded
            &&& moved is None ==> !map_is_ready || !book_is_loaded || chapter_of_page
                == current_chapter
        }),
{
}

pub open spec fn target_of(page: Option<u32>) -> PlaceTarget {
    match page {
        Some(page) => PlaceTarget::Page(page),
        None => PlaceTarget::Keep,
    }
}

/// A place that was found is gone to, and one that was not moves nothing.
pub proof fn law_lost_place_moves_nothing(page: u32)
    ensures
        target_of(Some(page)) == PlaceTarget::Page(page),
        target_of(None) is Keep,
{
}

} // verus!
