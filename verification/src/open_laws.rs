//! What an open does, from the command to the announcement: the pages it asks
//! for are the pages it was told to open, and the page it sends the reader to
//! is there.
use vstd::prelude::*;
use crate::messages::{
    AppStateRecord, BookPosition, FolderListing, LibraryEvent, PersistedState, SourceIdentity,
    StorageCommand,
};
use crate::storage::{
    Emission, OpenStep, PlaceTarget, Route, RowChoice, StorageAction, StorageReply, StorageStage,
    StorageStep, StorageTask, StoreFacts,
};
use crate::storage_laws::StorageInput;
use crate::storage_model::{
    advance, advance_browse, advance_catalog, advance_loan, advance_open, advance_writes, begin,
    record_from,
};

verus! {

/// A page of the book at a row of the catalog.
pub struct RowPage {
    pub index: u16,
    pub page: u32,
}

/// A run of an open, watched from outside: what it asked for last, and what
/// the answers have said.
pub struct OpenWatch {
    pub task: StorageTask,
    pub stage: StorageStage,
    pub action: StorageAction,
    /// The section the transaction asked for last.
    pub wanted: Option<RowPage>,
    pub chapter: u16,
    /// What the stored place came to since.
    pub target: Option<PlaceTarget>,
    /// The page that is known to be on hand: the store said it holds it, or
    /// it was the last to be built.
    pub on_hand: Option<RowPage>,
}

pub open spec fn watch_begin(task: StorageTask, command: StorageCommand, latest_request_id: u32, facts: StoreFacts) -> OpenWatch {
    let (task, step) = begin(task, command, latest_request_id, facts);
    OpenWatch {
        task,
        stage: step.stage,
        action: step.action,
        wanted: None,
        chapter: 0,
        target: None,
        on_hand: None,
    }
}

/// One more answer. One the stage is not waiting for is not heard.
pub open spec fn watch_on(watch: OpenWatch, input: StorageInput) -> OpenWatch {
    match advance(watch.task, watch.stage, input.reply, input.facts) {
        None => watch,
        Some(next) => OpenWatch {
            task: next.0,
            stage: next.1.stage,
            action: next.1.action,
            wanted: match input.reply {
                StorageReply::Next(OpenStep::LoadSection { index, page, .. }) => Some(
                    RowPage { index, page },
                ),
                _ => watch.wanted,
            },
            chapter: match input.reply {
                StorageReply::Next(OpenStep::LoadSection { chapter, .. }) => chapter,
                _ => watch.chapter,
            },
            target: match input.reply {
                StorageReply::Next(OpenStep::LoadSection { .. }) => None,
                StorageReply::Target(target) => Some(target),
                _ => watch.target,
            },
            on_hand: match (watch.action, input.reply) {
                (StorageAction::AskCovers { index, page }, StorageReply::Covered(true)) => Some(
                    RowPage { index, page },
                ),
                (StorageAction::Build { index, page, .. }, StorageReply::Built(_)) => Some(
                    RowPage { index, page },
                ),
                (StorageAction::SetLayout { .. }, _) => None,
                _ => watch.on_hand,
            },
        },
    }
}

/// An open from its command on.
pub open spec fn watched(task: StorageTask, command: StorageCommand, latest_request_id: u32, facts: StoreFacts, inputs: Seq<StorageInput>) -> OpenWatch
    decreases inputs.len(),
{
    if inputs.len() == 0 {
        watch_begin(task, command, latest_request_id, facts)
    } else {
        watch_on(
            watched(task, command, latest_request_id, facts, inputs.drop_last()),
            inputs.last(),
        )
    }
}

/// The page a place came to, if it came to one.
pub open spec fn placed_at(target: Option<PlaceTarget>) -> Option<u32> {
    match target {
        Some(PlaceTarget::Page(page)) => Some(page),
        Some(PlaceTarget::Extend(page)) => Some(page),
        _ => None,
    }
}

/// Whether `page` is what was asked for: the section, or the place in it.
pub open spec fn is_asked_for(watch: OpenWatch, index: u16, page: u32) -> bool {
    &&& watch.wanted matches Some(wanted) && wanted.index == index && (match placed_at(watch.target) {
        Some(placed) => page == placed,
        None => watch.target is None && page == wanted.page,
    })
}

/// What holds of an open at every stage.
pub open spec fn open_is_right(watch: OpenWatch) -> bool {
    &&& match watch.stage {
        StorageStage::SectionCovered { index, chapter, page, .. } => {
            &&& watch.action == StorageAction::AskCovers { index, page }
            &&& watch.wanted == Some(RowPage { index, page })
            &&& watch.chapter == chapter
            &&& watch.target is None
        },
        StorageStage::SectionBuilt { index, chapter, .. } => {
            &&& watch.wanted is Some
            &&& watch.action == StorageAction::Build {
                index,
                chapter,
                page: watch.wanted->0.page,
                show_loading: true,
            }
            &&& watch.wanted->0.index == index
            &&& watch.chapter == chapter
            &&& watch.target is None
        },
        StorageStage::PlaceTarget(resolving) => {
            &&& watch.action == StorageAction::ResolvePlace { index: resolving.index }
            &&& watch.wanted is Some
            &&& watch.wanted->0.index == resolving.index
            &&& watch.chapter == resolving.chapter
            &&& watch.target is None ==> watch.on_hand == watch.wanted
            &&& watch.on_hand is Some
            &&& watch.on_hand->0.index == resolving.index
        },
        StorageStage::PlaceCovered { resolving, page, again } => {
            &&& watch.action == StorageAction::AskCovers { index: resolving.index, page }
            &&& watch.wanted is Some
            &&& watch.wanted->0.index == resolving.index
            &&& watch.chapter == resolving.chapter
            &&& watch.target == Some(
                if again { PlaceTarget::Extend(page) } else { PlaceTarget::Page(page) },
            )
            &&& watch.on_hand is Some
            &&& watch.on_hand->0.index == resolving.index
        },
        StorageStage::PlaceBuilt { resolving, page, again } => {
            &&& watch.action == StorageAction::Build {
                index: resolving.index,
                chapter: resolving.chapter,
                page,
                show_loading: false,
            }
            &&& watch.wanted is Some
            &&& watch.wanted->0.index == resolving.index
            &&& watch.chapter == resolving.chapter
            &&& watch.target == Some(
                if again { PlaceTarget::Extend(page) } else { PlaceTarget::Page(page) },
            )
        },
        _ => true,
    }
    &&& watch.action matches StorageAction::OpenSectionLoaded { resolved } ==> watch.stage is OpenNext
        && section_is_right(watch, resolved)
    &&& in_an_open(watch.stage)
}

/// A section is reported as loaded only once its page is on hand: the page a
/// place came to, or the page the transaction asked for.
pub open spec fn section_is_right(watch: OpenWatch, resolved: Option<u32>) -> bool {
    &&& watch.wanted matches Some(wanted) && watch.on_hand matches Some(on_hand) && on_hand.index
        == wanted.index && (watch.target is None ==> on_hand.page == wanted.page)
    &&& resolved matches Some(page) ==> watch.on_hand->0.page == page && watch.target == Some(
        PlaceTarget::Page(page),
    )
    &&& resolved is None ==> !(watch.target matches Some(PlaceTarget::Page(_)))
}

pub open spec fn in_an_open(stage: StorageStage) -> bool {
    match stage {
        StorageStage::Over
        | StorageStage::OpenBegin(_)
        | StorageStage::OpenNext(_)
        | StorageStage::DepartingFlush { .. }
        | StorageStage::DepartingIdentity { .. }
        | StorageStage::DepartingStore { .. }
        | StorageStage::OpenEntry { .. }
        | StorageStage::OpenLayout(_)
        | StorageStage::OpenPlace(_)
        | StorageStage::SectionCovered { .. }
        | StorageStage::SectionBuilt { .. }
        | StorageStage::PlaceTarget(_)
        | StorageStage::PlaceCovered { .. }
        | StorageStage::PlaceBuilt { .. }
        | StorageStage::PointerIdentity { .. }
        | StorageStage::PointerStore { .. } => true,
        _ => false,
    }
}

proof fn lemma_only_open_stages(task: StorageTask, stage: StorageStage, reply: StorageReply, facts: StoreFacts)
    requires
        in_an_open(stage),
    ensures
        advance(task, stage, reply, facts) == advance_open(task, stage, reply, facts),
{
    assert(advance_catalog(task, stage, reply, facts) is None);
    assert(advance_browse(task, stage, reply, facts) is None);
    assert(advance_loan(task, stage, reply, facts) is None);
    assert(advance_writes(task, stage, reply, facts) is None);
}

#[verifier::rlimit(40)]
proof fn lemma_open_goes_on(watch: OpenWatch, input: StorageInput)
    requires
        open_is_right(watch),
    ensures
        open_is_right(watch_on(watch, input)),
{
    lemma_only_open_stages(watch.task, watch.stage, input.reply, input.facts);
}

proof fn lemma_open_is_right(task: StorageTask, command: StorageCommand, latest_request_id: u32, facts: StoreFacts, inputs: Seq<StorageInput>)
    requires
        command is OpenBook || command is ExtendSection,
    ensures
        open_is_right(watched(task, command, latest_request_id, facts, inputs)),
    decreases inputs.len(),
{
    if inputs.len() > 0 {
        lemma_open_is_right(task, command, latest_request_id, facts, inputs.drop_last());
        lemma_open_goes_on(
            watched(task, command, latest_request_id, facts, inputs.drop_last()),
            inputs.last(),
        );
    }
}

/// In every run of an open, the page the reader is sent to is on hand: it was
/// the last page the store said it holds or that was built, of the book that
/// is being opened; and it is the page the stored place came to. Where there
/// is no place, it is the page the transaction asked for that is on hand.
pub proof fn law_reader_is_sent_to_a_page_on_hand(task: StorageTask, command: StorageCommand, latest_request_id: u32, facts: StoreFacts, inputs: Seq<StorageInput>)
    requires
        command is OpenBook || command is ExtendSection,
    ensures
        ({
            let watch = watched(task, command, latest_request_id, facts, inputs);
            watch.action matches StorageAction::OpenSectionLoaded { resolved } ==> {
                &&& watch.wanted is Some && watch.on_hand is Some
                &&& watch.on_hand->0.index == watch.wanted->0.index
                &&& resolved matches Some(page) ==> watch.on_hand->0.page == page && watch.target
                    == Some(PlaceTarget::Page(page))
                &&& resolved is None && watch.target is None ==> watch.on_hand->0.page
                    == watch.wanted->0.page
                &&& watch.target matches Some(PlaceTarget::Page(page)) ==> resolved == Some(page)
            }
        }),
{
    lemma_open_is_right(task, command, latest_request_id, facts, inputs);
}

/// In every run of an open, what is built or looked for is the page that was
/// asked for, of the row and the chapter it was asked for in: the section's
/// own, until a place came to another.
pub proof fn law_open_builds_what_was_asked_for(task: StorageTask, command: StorageCommand, latest_request_id: u32, facts: StoreFacts, inputs: Seq<StorageInput>)
    requires
        command is OpenBook || command is ExtendSection,
    ensures
        ({
            let watch = watched(task, command, latest_request_id, facts, inputs);
            &&& watch.action matches StorageAction::Build { index, chapter, page, show_loading } ==> {
                &&& is_asked_for(watch, index, page)
                &&& chapter == watch.chapter
                &&& show_loading <==> watch.target is None
            }
            &&& watch.action matches StorageAction::AskCovers { index, page } ==> is_asked_for(
                watch,
                index,
                page,
            )
            &&& watch.action matches StorageAction::ResolvePlace { index } ==> watch.wanted matches Some(
                wanted,
            ) && wanted.index == index
        }),
{
    lemma_open_is_right(task, command, latest_request_id, facts, inputs);
    lemma_open_actions(task, command, latest_request_id, facts, inputs);
}

/// Which stage an action of an open belongs to.
pub open spec fn action_has_its_stage(watch: OpenWatch) -> bool {
    &&& watch.action is Build ==> watch.stage is SectionBuilt || watch.stage is PlaceBuilt
    &&& watch.action is AskCovers ==> watch.stage is SectionCovered || watch.stage is PlaceCovered
    &&& watch.action is ResolvePlace ==> watch.stage is PlaceTarget
}

proof fn lemma_action_stage(watch: OpenWatch, input: StorageInput)
    requires
        in_an_open(watch.stage),
        action_has_its_stage(watch),
    ensures
        action_has_its_stage(watch_on(watch, input)),
{
    lemma_only_open_stages(watch.task, watch.stage, input.reply, input.facts);
}

proof fn lemma_open_actions(task: StorageTask, command: StorageCommand, latest_request_id: u32, facts: StoreFacts, inputs: Seq<StorageInput>)
    requires
        command is OpenBook || command is ExtendSection,
    ensures
        action_has_its_stage(watched(task, command, latest_request_id, facts, inputs)),
    decreases inputs.len(),
{
    if inputs.len() > 0 {
        let before = watched(task, command, latest_request_id, facts, inputs.drop_last());
        lemma_open_actions(task, command, latest_request_id, facts, inputs.drop_last());
        lemma_open_is_right(task, command, latest_request_id, facts, inputs.drop_last());
        lemma_action_stage(before, inputs.last());
    }
}

/// A page that is not on hand is built before anything else is asked, and a
/// page that is on hand is not built again.
pub proof fn law_missing_page_is_built(task: StorageTask, stage: StorageStage, covered: bool, facts: StoreFacts)
    requires
        stage is SectionCovered || stage is PlaceCovered,
    ensures
        advance(task, stage, StorageReply::Covered(covered), facts) matches Some(next) && next.0 == task
            && (next.1.action is Build <==> !covered) && next.1.first is None && next.1.second is None,
{
}

/// What an open announces is what the store and the transaction say: the book
/// and the position of the transaction, and the store's own counts.
pub proof fn law_announcement_tells_what_was_opened(task: StorageTask, stage: StorageStage, book_id: u32, position: Option<u32>, facts: StoreFacts)
    requires
        stage is OpenNext,
    ensures
        advance(
            task,
            stage,
            StorageReply::Next(OpenStep::Announce { book_id, position }),
            facts,
        ) matches Some(next) && {
            &&& next.0 == task
            &&& next.1.action is OpenAnnounced
            &&& next.1.second is None
            &&& next.1.first matches Some(sent) && sent.route is Loaded && (sent.event matches LibraryEvent::Loaded {
                book_id: told_book,
                pages,
                chapters,
                current_chapter,
                chapter_pages,
                position: told_position,
                text_replaced,
            } && {
                &&& told_book == book_id
                &&& told_position == position
                &&& pages == facts.pages
                &&& chapters == facts.chapters
                &&& current_chapter == facts.current_chapter
                &&& chapter_pages == facts.chapter_pages
                &&& text_replaced <==> stage->OpenNext_0.section_loaded != Some(true)
            })
        },
{
}

/// A refusal names the book that was refused and is never dropped, and what
/// is staged is the row and the layout the transaction gives.
pub proof fn law_transaction_is_carried_out(task: StorageTask, stage: StorageStage, next: OpenStep, facts: StoreFacts)
    requires
        stage is OpenNext,
    ensures
        advance(task, stage, StorageReply::Next(next), facts) matches Some(then) && then.0 == task
            && match next {
            OpenStep::Refuse { book_id } => {
                &&& then.1.first == Some(
                    Emission {
                        route: Route::Required,
                        event: LibraryEvent::BookOpenFailed { book_id },
                    },
                )
                &&& then.1.action is OpenRefused
            },
            OpenStep::StageBook { index, type_settings, portrait } => {
                &&& then.1.action == StorageAction::LoadActiveEntry { index }
                &&& advance(task, then.1.stage, StorageReply::Done, facts) matches Some(laid) && {
                    &&& laid.1.action == StorageAction::SetLayout { type_settings, portrait }
                    &&& advance(task, laid.1.stage, StorageReply::Done, facts) matches Some(staged)
                        && staged.1.action is OpenStaged
                }
            },
            OpenStep::LoadSavedPosition { index } => then.1.action == StorageAction::LoadPlace { index },
            OpenStep::LoadSection { index, page, .. } => then.1.action == StorageAction::AskCovers {
                index,
                page,
            },
            OpenStep::StorePointer(state) => then.1.action == StorageAction::ReadIdentity {
                book_id: state.book_id,
            },
            OpenStep::CloseOutDeparting(previous) => match task.progress.pending {
                Some(owed) => if owed.book_id != previous.book_id {
                    then.1.action == StorageAction::StoreAppState(owed)
                } else {
                    then.1.action == StorageAction::ReadIdentity { book_id: previous.book_id }
                },
                None => then.1.action == StorageAction::ReadIdentity { book_id: previous.book_id },
            },
            OpenStep::Announce { .. } => then.1.action is OpenAnnounced,
            OpenStep::Done => then.1.action is Finish,
        },
{
}

/// A position that was read is reported as it was read, and a place is kept
/// to be resolved exactly when there was one.
pub proof fn law_stored_place_is_handed_on(task: StorageTask, stage: StorageStage, position: Option<BookPosition>, facts: StoreFacts)
    requires
        stage is OpenPlace,
    ensures
        advance(task, stage, StorageReply::Place(position), facts) matches Some(next) && {
            &&& next.1.action == StorageAction::OpenPosition { position }
            &&& next.1.stage matches StorageStage::OpenNext(open) && (open.place_pending <==> position
                is Some) && open.book_id == stage->OpenPlace_0.book_id && open.section_loaded
                == stage->OpenPlace_0.section_loaded
        },
{
}

/// The record of a state is that state, of the source the store names; only
/// the chapter may be the store's, and is for the book that is loaded from
/// the card.
pub proof fn law_record_is_of_the_state(state: PersistedState, source: SourceIdentity, is_sd: bool, is_loaded: bool, facts: StoreFacts)
    ensures
        ({
            let record = record_from(state, source, is_sd, is_loaded, facts);
            &&& record.book_id == state.book_id
            &&& record.screen == state.screen
            &&& record.chapter == if is_sd && is_loaded { facts.current_chapter } else { state.chapter }
            &&& record.shell_orientation == state.shell_orientation
            &&& record.reading_orientation == state.reading_orientation
            &&& record.refresh_policy == state.refresh_policy
            &&& record.font_size == state.font_size
            &&& record.line_spacing == state.line_spacing
            &&& record.font_weight == state.font_weight
            &&& record.font_family == state.font_family
            &&& record.front_buttons == state.front_buttons
            &&& record.source_hash == source.hash
            &&& record.source_size == source.size
            &&& !record.legacy_source_identity
        }),
{
}

/// Whose record is written: the departing book's page file, the global record
/// of the book that is now open, or the progress the app sent, each made of
/// the state it is about.
pub proof fn law_written_record_is_of_its_state(task: StorageTask, stage: StorageStage, source: SourceIdentity, is_sd: bool, is_loaded_index: bool, facts: StoreFacts)
    ensures
        ({
            let reply = StorageReply::Identity { source, is_sd, is_loaded_index };
            let next = advance(task, stage, reply, facts);
            &&& stage matches StorageStage::DepartingIdentity { previous, .. } ==> next matches Some(then)
                && then.1.action == StorageAction::StoreBookPosition(
                record_from(previous, source, is_sd, is_loaded_index, facts),
            )
            &&& stage matches StorageStage::PointerIdentity { state, .. } ==> next matches Some(then)
                && then.1.action == StorageAction::StoreGlobalState(
                record_from(state, source, is_sd, is_loaded_index, facts),
            )
        }),
{
}

/// What a press in Library is answered: the folder that was entered or left
/// to, as it was listed, or the row's book in the catalog there is, or that
/// it failed.
pub proof fn law_press_is_answered_with_what_was_found(task: StorageTask, request_id: u32, choice: RowChoice, listing: Option<FolderListing>, facts: StoreFacts)
    ensures
        advance(task, StorageStage::Chosen { request_id }, StorageReply::Chosen(choice), facts) matches Some(
            next,
        ) && match choice {
            RowChoice::Entered(listing) => tells_of_listing(next.1, Some(request_id), listing, facts),
            RowChoice::Book(index) => next.1.first == Some(
                Emission {
                    route: Route::Required,
                    event: LibraryEvent::RowIsBook {
                        request_id,
                        index,
                        catalog_epoch: facts.catalog_epoch,
                    },
                },
            ),
            RowChoice::Failed => next.1.first == Some(
                Emission { route: Route::Required, event: LibraryEvent::RowFailed { request_id } },
            ),
            RowChoice::Stale => next.1.first is None && next.1.action is ScanBooks,
        },
        advance(task, StorageStage::Left { request_id }, StorageReply::Listed(listing), facts) matches Some(
            next,
        ) && match listing {
            Some(listing) => tells_of_listing(next.1, Some(request_id), listing, facts),
            None => next.1.first == Some(
                Emission { route: Route::Required, event: LibraryEvent::RowFailed { request_id } },
            ),
        },
{
}

/// Whether a step tells the app of a folder listing, with nothing of it left
/// out or changed.
pub open spec fn tells_of_listing(step: StorageStep, request_id: Option<u32>, listing: FolderListing, facts: StoreFacts) -> bool {
    step.first matches Some(sent) && sent.route is Required && (sent.event matches LibraryEvent::FolderListed {
        request_id: told,
        browse_epoch,
        depth,
        count,
        books,
        selection,
    } && told == request_id && browse_epoch == facts.browse_epoch && depth == listing.depth && count
        == listing.count && books == listing.books && selection == listing.selection)
}

/// A press or a cache clear that was made in a list which is gone is refused
/// and touches nothing.
pub proof fn law_stale_press_is_refused(task: StorageTask, latest_request_id: u32, request_id: u32, index: u16, browse_epoch: u32, facts: StoreFacts)
    requires
        browse_epoch != facts.browse_epoch,
    ensures
        ({
            let refused = Some(
                Emission { route: Route::Required, event: LibraryEvent::RowFailed { request_id } },
            );
            let row = begin(
                task,
                StorageCommand::ChooseLibraryRow { request_id, index, browse_epoch },
                latest_request_id,
                facts,
            );
            let folder = begin(
                task,
                StorageCommand::LeaveLibraryFolder { request_id, browse_epoch },
                latest_request_id,
                facts,
            );
            let clear = advance(
                task,
                StorageStage::ClearResume { request_id, index, browse_epoch },
                StorageReply::Done,
                facts,
            );
            &&& row.0 == task && row.1.action is Finish && row.1.first == refused
            &&& folder.0 == task && folder.1.action is Finish && folder.1.first == refused
            &&& clear matches Some(next) && next.0 == task && next.1.action is Finish && (
            next.1.first matches Some(sent) && sent.event == LibraryEvent::CacheCleared {
                request_id,
                ok: false,
            })
        }),
{
}

/// A chapter list or a jump under a request id that is no longer in force is
/// dropped; one that is, stages its own row.
pub proof fn law_superseded_request_is_dropped(task: StorageTask, command: StorageCommand, latest_request_id: u32, facts: StoreFacts)
    ensures
        command matches StorageCommand::LoadChapters { request_id, index, .. } ==> begin(
            task,
            command,
            latest_request_id,
            facts,
        ).1.action == if request_id == latest_request_id {
            StorageAction::LoadActiveEntry { index }
        } else {
            StorageAction::Finish
        },
        command matches StorageCommand::JumpChapter { request_id, index, .. } ==> begin(
            task,
            command,
            latest_request_id,
            facts,
        ).1.action == if request_id == latest_request_id {
            StorageAction::LoadActiveEntry { index }
        } else {
            StorageAction::Finish
        },
{
}

/// A jump goes to the page its chapter begins on: under the layout it was
/// asked in, that page is looked up before anything is built, is what is
/// built, and is where the reader is sent.
pub proof fn law_jump_goes_to_its_chapter(task: StorageTask, command: StorageCommand, latest_request_id: u32, page: u32, outcome: crate::background::BookBuildOutcome, facts: StoreFacts)
    requires
        command matches StorageCommand::JumpChapter { request_id, .. } && request_id
            == latest_request_id,
    ensures
        command matches StorageCommand::JumpChapter { book_id, index, chapter, type_settings, portrait, .. } && {
            let entry = begin(task, command, latest_request_id, facts);
            &&& entry.1.action == StorageAction::LoadActiveEntry { index }
            &&& advance(task, entry.1.stage, StorageReply::Done, facts) matches Some(laid) && {
                &&& laid.1.action == StorageAction::SetLayout { type_settings, portrait }
                &&& advance(task, laid.1.stage, StorageReply::Done, facts) matches Some(window) && {
                    &&& window.1.action == StorageAction::EnsureTocWindow { index, chapter, portrait }
                    &&& advance(task, window.1.stage, StorageReply::Done, facts) matches Some(read) && {
                        &&& read.1.action == StorageAction::ReadChapterPage { chapter }
                        &&& advance(task, read.1.stage, StorageReply::JumpPage(page), facts) matches Some(
                            built,
                        ) && {
                            &&& built.1.action == StorageAction::Build {
                                index,
                                chapter,
                                page,
                                show_loading: false,
                            }
                            &&& advance(
                                task,
                                built.1.stage,
                                StorageReply::Built(outcome),
                                facts,
                            ) matches Some(told) && told.1.action is Finish && (
                            told.1.first matches Some(sent) && (sent.event matches LibraryEvent::Loaded {
                                book_id: told_book,
                                position,
                                text_replaced,
                                ..
                            } && told_book == book_id && position == Some(page) && text_replaced))
                        }
                    }
                }
            }
        },
{
}

/// What a boot restores: the place of the book the record names, or the
/// record's own mirror of it where the book has none, and the settings of the
/// record.
pub proof fn law_restored_state_is_what_was_saved(
    task: StorageTask,
    request: Option<u32>,
    record: AppStateRecord,
    index: u16,
    place: Option<BookPosition>,
    page_count: u32,
    book_id: u32,
    facts: StoreFacts,
)
    ensures
        ({
            let position = match place {
                Some(position) => position,
                None => BookPosition { chapter: record.chapter, page: record.screen },
            };
            advance(
                task,
                StorageStage::RestoreRecord { request },
                StorageReply::AppState(Some(record)),
                facts,
            ) matches Some(looked) && {
                &&& looked.1.action == StorageAction::FindByIdentity {
                    source_hash: record.source_hash,
                    source_size: record.source_size,
                    legacy: record.legacy_source_identity,
                }
                &&& advance(task, looked.1.stage, StorageReply::Row(Some(index)), facts) matches Some(
                    found,
                ) && {
                    &&& found.1.action == StorageAction::LoadActiveEntry { index }
                    &&& advance(task, found.1.stage, StorageReply::Done, facts) matches Some(entry) && {
                        &&& entry.1.action == StorageAction::LoadPlace { index }
                        &&& advance(task, entry.1.stage, StorageReply::Place(place), facts) matches Some(
                            placed,
                        ) && {
                            &&& placed.1.action == StorageAction::LoadChapterTitle {
                                index,
                                chapter: position.chapter,
                            }
                            &&& advance(task, placed.1.stage, StorageReply::Done, facts) matches Some(
                                titled,
                            ) && {
                                &&& titled.1.action == StorageAction::ReadPageCount { index }
                                &&& advance(
                                    task,
                                    titled.1.stage,
                                    StorageReply::PageCount { page_count, book_id },
                                    facts,
                                ) matches Some(told) && (told.1.first matches Some(sent)
                                    && sent.route is Required && sent.event
                                    == LibraryEvent::Restored {
                                    book_id,
                                    chapter: position.chapter,
                                    page: position.page,
                                    page_count,
                                    reading_orientation: record.reading_orientation,
                                    refresh_policy: record.refresh_policy,
                                    font_size: record.font_size,
                                    line_spacing: record.line_spacing,
                                    font_weight: record.font_weight,
                                    font_family: record.font_family,
                                    front_buttons: record.front_buttons,
                                })
                            }
                        }
                    }
                }
            }
        }),
{
}

/// Every catalog that is there to be shown is named before its root is
/// listed: how many books it has and which catalog it is.
pub proof fn law_catalog_is_named_before_it_is_listed(task: StorageTask, stage: StorageStage, reply: StorageReply, facts: StoreFacts)
    ensures
        advance(task, stage, reply, facts) matches Some(next) ==> (next.1.action is RelistRoot ==> {
            let named = Some(
                Emission {
                    route: Route::ByEvent,
                    event: LibraryEvent::Scanned {
                        count: facts.catalog_count,
                        catalog_epoch: facts.catalog_epoch,
                    },
                },
            );
            &&& next.1.first == named || next.1.second == named
            &&& next.1.action == StorageAction::RelistRoot { portrait: facts.portrait }
        }),
{
    assert(advance_open(task, stage, reply, facts) matches Some(next) ==> !(next.1.action is RelistRoot));
    assert(advance_browse(task, stage, reply, facts) matches Some(next) ==> !(next.1.action
        is RelistRoot));
    assert(advance_loan(task, stage, reply, facts) matches Some(next) ==> !(next.1.action is RelistRoot));
    assert(advance_writes(task, stage, reply, facts) matches Some(next) ==> !(next.1.action
        is RelistRoot));
}

} // verus!
