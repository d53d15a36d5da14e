//! What actions leave as it is: whatever an action does not speak of stays.

use vstd::prelude::*;

use crate::app_spec::DiskModel;
use crate::app_state::{AppModel, CopyReport, Screen};
use crate::clipboard::CopyOutcome;
use crate::model::TaskState;

verus! {

/// From `m` to `after`, at most the message changed.
pub open spec fn only_says(m: AppModel, after: AppModel) -> bool {
    after == (AppModel {
        status_message: after.status_message,
        status_expiry: after.status_expiry,
        status_is_error: after.status_is_error,
        ..m
    })
}

/// From `m` to `after`, at most the cursor, the screen, the message and what is to
/// be copied changed, and the card is scrolled.
#[verifier::opaque]
pub open spec fn only_moves(m: AppModel, after: AppModel) -> bool {
    after == (AppModel {
        current_list_index: after.current_list_index,
        current_item_index: after.current_item_index,
        card_scroll: after.card_scroll,
        card_max_scroll: after.card_max_scroll,
        screen: after.screen,
        copy_request: after.copy_request,
        status_message: after.status_message,
        status_expiry: after.status_expiry,
        status_is_error: after.status_is_error,
        ..m
    })
}

/// From `m` to `after`, at most the tasks, what is to be written and the message
/// changed.
pub open spec fn only_sets(m: AppModel, after: AppModel) -> bool {
    after == (AppModel {
        document: after.document,
        pending_write: after.pending_write,
        status_message: after.status_message,
        status_expiry: after.status_expiry,
        status_is_error: after.status_is_error,
        ..m
    })
}

/// Law: a message changes nothing but the message, and so does a report on a copy;
/// asking for a copy changes nothing but what is to be copied.
pub proof fn law_messages_leave_the_rest(
    m: AppModel,
    msg: Seq<char>,
    report: CopyReport,
    outcome: CopyOutcome,
)
    ensures
        only_says(m, m.with_status(msg)),
        only_says(m, m.with_error(msg)),
        only_says(m, m.without_status()),
        only_says(m, m.copy_reported(report, outcome)),
        m.copying(msg, report) == (AppModel {
            copy_request: m.copying(msg, report).copy_request,
            ..m
        }),
        m.auto_copied(report) == (AppModel {
            copy_request: m.auto_copied(report).copy_request,
            ..m
        }),
{
}

/// Lemma: going to a card, saying something and asking for a copy, one after the
/// other, change nothing else.
proof fn lemma_moves(m: AppModel)
    ensures
        only_moves(m, m),
        forall|l: usize, i: usize| only_moves(m, #[trigger] m.moved(l, i)),
        forall|l: usize, i: usize| only_moves(m, #[trigger] m.shown(l, i)),
        forall|screen: Screen| only_moves(m, #[trigger] m.on_screen(screen)),
        forall|msg: Seq<char>| only_moves(m, #[trigger] m.with_error(msg)),
        forall|a: AppModel, msg: Seq<char>|
            only_moves(m, a) ==> only_moves(m, #[trigger] a.with_status(msg)),
        forall|a: AppModel, report: CopyReport|
            only_moves(m, a) ==> only_moves(m, #[trigger] a.auto_copied(report)),
{
    reveal(only_moves);
    assert forall|a: AppModel, report: CopyReport| only_moves(m, a) implies only_moves(
        m,
        #[trigger] a.auto_copied(report),
    ) by {
        let after = a.auto_copied(report);
        assert(after == (AppModel { copy_request: after.copy_request, ..a }));
    }
}

/// Law: going to a card leaves the document, the history and everything else.
pub proof fn law_moves_leave_the_rest(m: AppModel, list: usize, item: usize)
    ensures
        only_moves(m, m.moved(list, item)),
        only_moves(m, m.shown(list, item)),
        only_moves(m, m.focused(list, item)),
        only_moves(m, m.at_list(list)),
        only_moves(m, m.next()),
        only_moves(m, m.prev()),
        only_moves(m, m.at_first()),
        only_moves(m, m.at_last()),
{
    lemma_moves(m);
}

/// Law: going on, going back and going to another section or to a list that is not
/// done leave the document, the history and everything else.
pub proof fn law_walks_leave_the_rest(m: AppModel, forward: bool)
    ensures
        only_moves(m, m.forward()),
        only_moves(m, m.backward()),
        only_moves(m, m.at_sub_section(forward)),
        only_moves(m, m.at_next_incomplete_list()),
        only_moves(m, m.at_prev_incomplete_list()),
        only_moves(m, m.advanced_list()),
{
    lemma_moves(m);
    assert forall|l: usize, i: usize| only_moves(m, #[trigger] m.focused(l, i)) by {
        law_moves_leave_the_rest(m, l, i);
    }
    assert forall|l: usize| only_moves(m, #[trigger] m.at_list(l)) by {
        law_moves_leave_the_rest(m, l, 0);
    }
    law_moves_leave_the_rest(m, 0, 0);
}

/// Law: going to the next task that is not done, to a card that is picked or found,
/// and back from a search or a summary leaves the document, the history and
/// everything else.
pub proof fn law_finds_leave_the_rest(m: AppModel, forward: bool)
    ensures
        only_moves(m, m.at_next_incomplete_task()),
        only_moves(m, m.at_last_list()),
        only_moves(m, m.picked()),
        only_moves(m, m.search_cancelled()),
        only_moves(m, m.search_followed()),
        only_moves(m, m.search_cycled(forward)),
{
    lemma_moves(m);
    assert forall|l: usize, i: usize| only_moves(m, #[trigger] m.focused(l, i)) by {
        law_moves_leave_the_rest(m, l, i);
    }
}

/// Law: toggling, starting and resetting leave the cursor, the history and
/// everything else until the change is written.
pub proof fn law_changes_leave_the_rest(m: AppModel, list: usize, item: usize)
    ensures
        only_sets(m, m.started()),
        only_sets(m, m.item_toggled(list, item)),
        only_sets(m, m.all_reset()),
        m.current_item() matches Some(it) && it.kind is Checkbox ==> only_sets(m, m.toggled()),
        m.undone() == (AppModel {
            undo_stack: m.undone().undo_stack,
            ..AppModel {
                document: m.undone().document,
                pending_write: m.undone().pending_write,
                status_message: m.undone().status_message,
                status_expiry: m.undone().status_expiry,
                status_is_error: m.undone().status_is_error,
                ..m
            }
        }),
        m.redone() == (AppModel {
            redo_stack: m.redone().redo_stack,
            ..AppModel {
                document: m.redone().document,
                pending_write: m.redone().pending_write,
                status_message: m.redone().status_message,
                status_expiry: m.redone().status_expiry,
                status_is_error: m.redone().status_is_error,
                ..m
            }
        }),
{
}

/// Law: a change of tasks leaves the title, the lines and the line ends of the
/// document, and the titles of its lists.
pub proof fn law_changes_leave_the_document(
    m: AppModel,
    list: usize,
    item: usize,
    snapshot: Seq<(usize, TaskState)>,
    l: int,
)
    ensures
        ({
            let reset = m.all_reset().document;
            let back = m.with_states(snapshot).document;
            let set = m.item_toggled(list, item).document;
            &&& reset.raw_lines == m.document.raw_lines
            &&& reset.title == m.document.title
            &&& reset.uses_crlf == m.document.uses_crlf
            &&& reset.trailing_newline == m.document.trailing_newline
            &&& back.raw_lines == m.document.raw_lines
            &&& back.title == m.document.title
            &&& back.uses_crlf == m.document.uses_crlf
            &&& back.trailing_newline == m.document.trailing_newline
            &&& set.raw_lines == m.document.raw_lines
            &&& set.title == m.document.title
            &&& set.uses_crlf == m.document.uses_crlf
            &&& set.trailing_newline == m.document.trailing_newline
            &&& reset.lists.len() == m.document.lists.len()
            &&& back.lists.len() == m.document.lists.len()
            &&& set.lists.len() == m.document.lists.len()
            &&& 0 <= l < m.document.lists.len() ==> {
                &&& reset.lists[l].title == m.document.lists[l].title
                &&& reset.lists[l].banner == m.document.lists[l].banner
                &&& back.lists[l].title == m.document.lists[l].title
                &&& back.lists[l].banner == m.document.lists[l].banner
                &&& set.lists[l].title == m.document.lists[l].title
                &&& set.lists[l].banner == m.document.lists[l].banner
            }
        }),
{
}

/// Law: scrolling leaves everything else, and so do opening the help, opening the
/// go-to-task overlay, beginning a search, asking for a reset and leaving.
pub proof fn law_overlays_leave_the_rest(m: AppModel, n: int)
    ensures
        m.card_down(n) == (AppModel { card_scroll: m.card_down(n).card_scroll, ..m }),
        m.card_up(n) == (AppModel { card_scroll: m.card_up(n).card_scroll, ..m }),
        m.help_down(n) == (AppModel { help_scroll: m.help_down(n).help_scroll, ..m }),
        m.help_up(n) == (AppModel { help_scroll: m.help_up(n).help_scroll, ..m }),
        m.helped() == (AppModel {
            screen: m.helped().screen,
            screen_before_confirm: m.helped().screen_before_confirm,
            help_scroll: m.helped().help_scroll,
            ..m
        }),
        m.picking() == (AppModel {
            screen: m.picking().screen,
            screen_before_confirm: m.picking().screen_before_confirm,
            picker_query: m.picking().picker_query,
            picker_selection: m.picking().picker_selection,
            ..m
        }),
        m.picker_moved(n) == (AppModel {
            picker_selection: m.picker_moved(n).picker_selection,
            ..m
        }),
        m.searching() == (AppModel {
            screen: m.searching().screen,
            search_origin: m.searching().search_origin,
            search_query: m.searching().search_query,
            ..m
        }),
        m.leaving() == (AppModel {
            screen: m.leaving().screen,
            screen_before_confirm: m.leaving().screen_before_confirm,
            should_quit: m.leaving().should_quit,
            ..m
        }),
        only_says(
            m,
            AppModel {
                screen: m.screen,
                screen_before_confirm: m.screen_before_confirm,
                ..m.reset_requested()
            },
        ),
{
}

/// Law: a change that was written leaves the settings, the search and the
/// overlays; noting the file on disk, or that it is gone, leaves everything else.
pub proof fn law_files_leave_the_rest(
    m: AppModel,
    stat: Option<(u128, u64)>,
    desc: Seq<char>,
    mtime: u128,
    size: u64,
)
    ensures
        m.noted_written(stat, desc) == (AppModel {
            file_mtime: m.noted_written(stat, desc).file_mtime,
            file_size: m.noted_written(stat, desc).file_size,
            file_content_hash: m.noted_written(stat, desc).file_content_hash,
            last_update_at: m.noted_written(stat, desc).last_update_at,
            sync_pending: m.noted_written(stat, desc).sync_pending,
            pending_write: m.noted_written(stat, desc).pending_write,
            ..m
        }),
        m.noted_disk(mtime, size) == (AppModel {
            file_deleted: false,
            file_mtime: Some(mtime),
            file_size: Some(size),
            ..m
        }),
        only_says(m, AppModel { file_deleted: m.file_deleted, ..m.gone() }),
{
}

/// Law: a new version of the document leaves the settings, the search, what waits
/// to be committed and the overlays.
pub proof fn law_reloading_leaves_the_rest(m: AppModel, disk: DiskModel, was_deleted: bool)
    ensures
        ({
            let after = m.reloaded(disk, was_deleted);
            &&& after.auto_copy == m.auto_copy
            &&& after.clipboard_primary == m.clipboard_primary
            &&& after.search_query == m.search_query
            &&& after.search_last == m.search_last
            &&& after.picker_query == m.picker_query
            &&& after.sync_pending == m.sync_pending
            &&& after.sync_last_at == m.sync_last_at
            &&& after.should_quit == m.should_quit
            &&& after.pending_write == m.pending_write
            &&& after.now == m.now
        }),
{
}

} // verus!
