//! What the display loop owes to a frame, to a sleep and to an open that
//! makes the reader wait.
use vstd::prelude::*;
use crate::delivery::ChapterCursor;
use crate::display_loop::{
    display_next, plate, prepare, Drained, DisplayAction, DisplayFacts, DisplayLoop, DisplayReply,
    DisplayStage, DisplayStep, RenderRequest, ResidentPage, SleepAction,
};
use crate::messages::{AppView, StorageCommand};

verus! {

/// Whether a step draws this frame: with the font on the card for a page of a
/// book from the card that asks for it, where it is there and is not built
/// in, and with the built-in fonts otherwise.
pub open spec fn draws(step: DisplayStep, request: RenderRequest, facts: DisplayFacts) -> bool {
    let card_font = facts.card_font && facts.custom_family && !facts.builtin_custom && facts.is_sd
        && request.view == AppView::Reading;
    &&& card_font ==> step.action == DisplayAction::PaintCustom(request) && step.stage
        == DisplayStage::CustomPainted(request)
    &&& !card_font ==> step.action == DisplayAction::Paint(request) && step.stage
        == DisplayStage::Painted(request)
}

/// Before a frame is drawn, what it shows is brought in, unless a session
/// owns the card: the Library its page of the folder, by the frame's own
/// selection and orientation; a book of the card its catalog row, when the
/// frame before was of another view or book; the chapter overview its window
/// of chapters. Nothing else is read for a frame.
pub proof fn law_frame_finds_what_it_shows(request: RenderRequest, facts: DisplayFacts)
    ensures
        ({
            let step = prepare(request, facts);
            let library = request.view == AppView::Library;
            let row = if facts.is_sd && !library { facts.book_index } else { None };
            let same = facts.last_request is Some && facts.last_request->0.view == request.view
                && facts.last_request->0.book_id == request.book_id;
            let overview = request.view == AppView::Chapters && facts.text_holds_toc;
            &&& facts.session_active ==> draws(step, request, facts)
            &&& !facts.session_active && library ==> step.action == (DisplayAction::EnsureFolderPage {
                selection: request.selection,
                portrait: request.portrait,
            }) && step.stage == DisplayStage::FolderReady(request)
            &&& !facts.session_active && row is Some && !same ==> step.action
                == (DisplayAction::LoadActiveEntry { index: row->0 }) && step.stage
                == DisplayStage::EntryReady(request, row->0)
            &&& !facts.session_active && row is Some && same && overview ==> step.action
                == (DisplayAction::EnsureTocWindow {
                index: row->0,
                selection: request.selection,
                portrait: request.portrait,
            }) && step.stage == DisplayStage::TocReady(request)
            &&& !facts.session_active && !library && (row is None || (same && !overview)) ==> draws(
                step,
                request,
                facts,
            )
        }),
{
}

/// What was brought in for a frame is followed by the frame: the chapter
/// window after the row where the overview is shown, and the drawing
/// otherwise. A page that the card's font could not draw is drawn without it.
pub proof fn law_frame_is_drawn(display: DisplayLoop, request: RenderRequest, index: u16, reply: DisplayReply, facts: DisplayFacts)
    ensures
        display_next(display, DisplayStage::FolderReady(request), DisplayReply::Done, facts) matches Some(
            next,
        ) && next.0 == display && draws(next.1, request, facts),
        display_next(display, DisplayStage::TocReady(request), DisplayReply::Done, facts) matches Some(next)
            && next.0 == display && draws(next.1, request, facts),
        display_next(display, DisplayStage::EntryReady(request, index), DisplayReply::Done, facts) matches Some(
            next,
        ) && next.0 == display && (if request.view == AppView::Chapters && facts.text_holds_toc {
            next.1.action == (DisplayAction::EnsureTocWindow {
                index,
                selection: request.selection,
                portrait: request.portrait,
            }) && next.1.stage == DisplayStage::TocReady(request)
        } else {
            draws(next.1, request, facts)
        }),
        display_next(
            display,
            DisplayStage::CustomPainted(request),
            DisplayReply::Went(false),
            facts,
        ) matches Some(next) && next.1.action == DisplayAction::Paint(request) && next.1.stage
            == DisplayStage::Painted(request),
{
}

/// A frame that was drawn goes to the panel: at once, told what is known of
/// its other plane, or behind the panel's start where the screen is off and
/// nothing was ever shown. A panel that starts has nothing staged.
pub proof fn law_drawn_frame_is_sent(display: DisplayLoop, request: RenderRequest, facts: DisplayFacts, up: bool)
    ensures
        ({
            let drawn = display_next(
                display,
                DisplayStage::Painted(request),
                DisplayReply::Done,
                facts,
            );
            let custom = display_next(
                display,
                DisplayStage::CustomPainted(request),
                DisplayReply::Went(true),
                facts,
            );
            let started = display_next(
                display,
                DisplayStage::PanelUp(request),
                DisplayReply::Went(up),
                facts,
            );
            &&& drawn == custom
            &&& drawn matches Some(next) && next.0 == display && (if !facts.screen_on
                && facts.last_request is None {
                next.1.action is InitPanel && next.1.stage == DisplayStage::PanelUp(request)
            } else {
                next.1.action == (DisplayAction::Flush {
                    request,
                    prestaged: display.prev_prestaged,
                }) && next.1.stage == DisplayStage::Flushed(request)
            })
            &&& started matches Some(next) && !next.0.prev_prestaged && (if up {
                next.1.action == (DisplayAction::Flush { request, prestaged: false }) && next.1.stage
                    == DisplayStage::Flushed(request)
            } else {
                next.1.action == (DisplayAction::Acknowledge { settled: false, cursor: None })
            })
        }),
{
}

/// A frame that reached the panel is recorded and acknowledged as settled,
/// with the chapter its page lies in for a page of a book and without one
/// for any other view; then the panel's other plane is staged, and is known
/// to be exactly if that went well. A frame that did not is recorded as a
/// failure and acknowledged as one.
pub proof fn law_frame_is_acknowledged(display: DisplayLoop, request: RenderRequest, facts: DisplayFacts, went: bool, chapter: Option<u16>)
    ensures
        ({
            let flushed = display_next(
                display,
                DisplayStage::Flushed(request),
                DisplayReply::Went(went),
                facts,
            );
            flushed matches Some(next) && (if went {
                next.0 == display && next.1.action == DisplayAction::RecordRender(request)
            } else {
                !next.0.prev_prestaged && next.1.action == DisplayAction::RecordFailure
            })
        }),
        display_next(display, DisplayStage::FailureRecorded, DisplayReply::Done, facts) matches Some(next)
            && next.1.action == (DisplayAction::Acknowledge { settled: false, cursor: None }),
        display_next(display, DisplayStage::Recorded(request), DisplayReply::Done, facts) matches Some(next)
            && (if request.view == AppView::Reading {
            next.1.action == (DisplayAction::TrackChapter { page: request.page })
        } else {
            next.1.action == (DisplayAction::Acknowledge { settled: true, cursor: None })
        }),
        display_next(
            display,
            DisplayStage::ChapterFound(request),
            DisplayReply::Chapter(chapter),
            facts,
        ) matches Some(next) && (next.1.action matches DisplayAction::Acknowledge { settled, cursor }
            && settled && (cursor is Some <==> chapter is Some) && (cursor is Some ==> cursor->0 == (
        ChapterCursor {
            book_id: request.book_id,
            page: request.page,
            current_chapter: chapter->0,
        }))),
        display_next(display, DisplayStage::Acknowledged, DisplayReply::Done, facts) matches Some(next)
            && next.1.action is Prestage,
        display_next(display, DisplayStage::Prestaged, DisplayReply::Went(went), facts) matches Some(next)
            && next.0.prev_prestaged == went && next.1.action is Wait,
{
}

/// A sleep does what its sequence asks for, and is refused for the reason the
/// sequence gives, or without one where a held event stands in the way.
pub proof fn law_sleep_follows_its_sequence(
    display: DisplayLoop,
    generation: u32,
    sleep: SleepAction,
    may: bool,
    taken: Option<StorageCommand>,
    facts: DisplayFacts,
)
    ensures
        display_next(display, DisplayStage::Draining { generation }, DisplayReply::Sleep(sleep), facts) matches Some(
            next,
        ) && next.0 == display && (match sleep {
            SleepAction::TakeQueued => next.1.action is TakeQueued,
            SleepAction::FlushProgress => next.1.action is FlushProgress,
            SleepAction::Refuse(refusal) => next.1.action == (DisplayAction::RefuseSleep {
                generation,
                refusal: Some(refusal),
            }),
            SleepAction::Proceed => next.1.action is AskMayProceed && next.1.stage
                == (DisplayStage::MaySleep { generation }),
        }),
        display_next(display, DisplayStage::MayDrain { generation }, DisplayReply::Went(may), facts) matches Some(
            next,
        ) && (if may {
            next.1.action is NextSleep
        } else {
            next.1.action == (DisplayAction::RefuseSleep { generation, refusal: None })
        }),
        display_next(display, DisplayStage::MaySleep { generation }, DisplayReply::Went(may), facts) matches Some(
            next,
        ) && (if may {
            next.1.action == (DisplayAction::PaintSleep { shown: facts.last_request })
        } else {
            next.1.action == (DisplayAction::RefuseSleep { generation, refusal: None })
        }),
        display_next(display, DisplayStage::Taking { generation }, DisplayReply::Taken(taken), facts) matches Some(
            next,
        ) && (match taken {
            Some(command) => next.1.action == DisplayAction::AskDrained(command),
            None => next.1.action is ReportEmpty,
        }),
{
}

/// A command drained on the way to sleep is run or put back as the sequence
/// judges it, and a run command lets a held event have its say again before
/// anything else is drained.
pub proof fn law_drained_command_is_judged(display: DisplayLoop, generation: u32, command: StorageCommand, verdict: Drained, facts: DisplayFacts)
    ensures
        display_next(
            display,
            DisplayStage::Judging { generation, command },
            DisplayReply::Drained(verdict),
            facts,
        ) matches Some(next) && (if verdict == Drained::Apply {
            next.1.action == DisplayAction::Apply(command)
        } else {
            next.1.action == DisplayAction::Requeue(command)
        }),
        display_next(display, DisplayStage::AppliedReported { generation }, DisplayReply::Done, facts) matches Some(
            next,
        ) && next.1.action is AskMayProceed && next.1.stage == (DisplayStage::MayDrain { generation }),
{
}

/// The sleep screen goes to the panel before the panel sleeps, told what is
/// known of its other plane, and the record says whether it got there. A
/// panel that would not sleep is a sleep that failed; one that did is parked.
pub proof fn law_panel_sleeps_behind_its_screen(display: DisplayLoop, generation: u32, settled: bool, slept: bool, facts: DisplayFacts)
    ensures
        display_next(display, DisplayStage::SleepPainted { generation }, DisplayReply::Done, facts) matches Some(
            next,
        ) && next.1.action == (DisplayAction::FlushSleep { prestaged: display.prev_prestaged }),
        display_next(
            display,
            DisplayStage::SleepFlushed { generation },
            DisplayReply::Went(settled),
            facts,
        ) matches Some(next) && !next.0.prev_prestaged && next.1.action is SleepPanel && next.1.stage
            == (DisplayStage::PanelSlept { generation, frame_settled: settled }),
        display_next(
            display,
            DisplayStage::PanelSlept { generation, frame_settled: settled },
            DisplayReply::Went(slept),
            facts,
        ) matches Some(next) && (if slept {
            next.1.action == (DisplayAction::RecordSleep { frame_settled: settled })
        } else {
            next.1.action == (DisplayAction::FailSleep { generation })
        }),
        display_next(display, DisplayStage::SleepRecorded { generation }, DisplayReply::Done, facts) matches Some(
            next,
        ) && next.1.action == (DisplayAction::ParkAsleep { generation }),
{
}

/// Whether a command asks for a page, and which.
pub open spec fn asks_for_page(command: StorageCommand, book_id: u32, page: u32) -> bool {
    match command {
        StorageCommand::OpenBook { book_id: of, target_pages, .. } => of == book_id && target_pages
            == page,
        StorageCommand::ExtendSection { book_id: of, target_pages, .. } => of == book_id
            && target_pages == page,
        _ => false,
    }
}

/// A loading plate is the reader's view of the page that is asked for, in the
/// type it is asked for in, and otherwise as the frame before it. It is shown
/// exactly for a page of a book on the card that is not there yet in its
/// layout, and only over a frame that was shown.
pub proof fn law_plate_shows_the_page_to_come(command: StorageCommand, resident: ResidentPage, last: Option<RenderRequest>)
    ensures
        plate(command, resident, last) matches Some(request) ==> {
            &&& last is Some && resident.on_card
            &&& request.view == AppView::Reading
            &&& asks_for_page(command, request.book_id, request.page)
            &&& request.selection == last->0.selection && request.portrait == last->0.portrait
            &&& command matches StorageCommand::OpenBook { type_settings, portrait, .. }
                ==> request.type_settings == type_settings && !(resident.covers && resident.portrait
                == portrait && resident.type_settings == type_settings)
            &&& command matches StorageCommand::ExtendSection { type_settings, portrait, .. }
                ==> request.type_settings == type_settings && !(resident.covers && resident.portrait
                == portrait && resident.type_settings == type_settings)
        },
        (command matches StorageCommand::OpenBook { type_settings, portrait, .. } && last is Some
            && resident.on_card && !(resident.covers && resident.portrait == portrait
            && resident.type_settings == type_settings)) ==> plate(command, resident, last) is Some,
        (command matches StorageCommand::ExtendSection { type_settings, portrait, .. } && last is Some
            && resident.on_card && !(resident.covers && resident.portrait == portrait
            && resident.type_settings == type_settings)) ==> plate(command, resident, last) is Some,
{
}

/// What is resident is asked for exactly where a book will be staged and the
/// screen is on; a plate that is due is drawn, sent and recorded as what
/// became of it, and leaves nothing staged. The command follows either way.
pub proof fn law_wait_is_shown(
    display: DisplayLoop,
    command: StorageCommand,
    request: RenderRequest,
    resident: ResidentPage,
    facts: DisplayFacts,
    went: bool,
)
    ensures
        display_next(display, DisplayStage::WillStage(command), DisplayReply::Went(went), facts) matches Some(
            next,
        ) && (if went && facts.screen_on {
            next.1.action == DisplayAction::AskResident(command)
        } else {
            next.1.action == DisplayAction::Apply(command)
        }),
        display_next(
            display,
            DisplayStage::Resident(command),
            DisplayReply::Resident(resident),
            facts,
        ) matches Some(next) && (match plate(command, resident, facts.last_request) {
            Some(shown) => next.1.action == DisplayAction::PaintPlate(shown),
            None => next.1.action == DisplayAction::Apply(command),
        }),
        display_next(
            display,
            DisplayStage::PlatePainted(command, request),
            DisplayReply::Done,
            facts,
        ) matches Some(next) && next.1.action == (DisplayAction::FlushPlate {
            request,
            prestaged: display.prev_prestaged,
        }),
        display_next(
            display,
            DisplayStage::PlateFlushed(command, request),
            DisplayReply::Went(went),
            facts,
        ) matches Some(next) && !next.0.prev_prestaged && (if went {
            next.1.action == DisplayAction::RecordRender(request)
        } else {
            next.1.action is RecordFailure
        }),
        display_next(display, DisplayStage::PlateRecorded(command), DisplayReply::Done, facts) matches Some(
            next,
        ) && next.1.action == DisplayAction::Apply(command),
{
}

} // verus!
