//! Laws of keys: which key does what on which screen.

use vstd::prelude::*;

use crate::app_state::{AppModel, Screen};
use crate::input::{KeyCode, KeyModifiers};

verus! {

/// Law: a key takes the message away and ends a half-typed command, and then
/// means what it means on the screen that is shown. On the checklist, keys that
/// scroll go first, then those that mean the same on every content screen.
pub proof fn law_keys_go_by_screen(m: AppModel, code: KeyCode, modifiers: KeyModifiers)
    requires
        !m.pending_open_link,
    ensures
        ({
            let after = m.key(code, modifiers);
            let start = m.without_chords();
            let ctrl = modifiers.control;
            &&& m.screen == Screen::Checklist ==> {
                &&& start.scroll_key(code, ctrl) matches Some(then) ==> after == then
                &&& start.scroll_key(code, ctrl) is None && start.global_key(code, ctrl) is Some
                    ==> after == start.global_key(code, ctrl)->0
                &&& start.scroll_key(code, ctrl) is None && start.global_key(code, ctrl) is None
                    ==> after == start.checklist_key(code, m.pending_g)
            }
            &&& m.screen == Screen::ListComplete ==> {
                &&& start.global_key(code, ctrl) matches Some(then) ==> after == then
                &&& start.global_key(code, ctrl) is None ==> after == start.list_complete_key(code)
            }
            &&& m.screen == Screen::AllComplete ==> {
                &&& start.global_key(code, ctrl) matches Some(then) ==> after == then
                &&& start.global_key(code, ctrl) is None ==> after == start.all_complete_key(code)
            }
            &&& m.screen == Screen::Search ==> after == start.search_key(code, ctrl)
            &&& m.screen == Screen::ListPicker ==> after == start.picker_key(code, ctrl)
            &&& m.screen == Screen::Help ==> after == start.help_key(code, ctrl)
            &&& m.screen == Screen::ConfirmReset || m.screen == Screen::ConfirmQuitReset ==> after
                == start.confirm_key(code)
        }),
{
}

/// Law: while a link number is awaited, a digit from one to nine opens the link
/// of that number, `Esc` gives it up, and any other key means what it means
/// otherwise.
pub proof fn law_link_number_goes_first(m: AppModel, code: KeyCode, modifiers: KeyModifiers, c: char)
    requires
        m.pending_open_link,
    ensures
        '1' <= c && c <= '9' ==> m.key(KeyCode::Char(c), modifiers)
            == m.without_chords().link_number_opened(c as int - '0' as int),
        m.key(KeyCode::Esc, modifiers) == m.without_chords(),
        code != KeyCode::Esc && !(code matches KeyCode::Char(d) && '1' <= d && d <= '9') ==> m.key(
            code,
            modifiers,
        ) == m.without_chords().screen_key(code, modifiers.control, m.pending_g),
{
}

/// Law: taking the message away and ending a half-typed command changes nothing
/// else.
pub proof fn law_messages_go_with_a_key(m: AppModel)
    ensures
        ({
            let after = m.without_chords();
            &&& after.status_message is None
            &&& !after.status_is_error
            &&& !after.pending_g
            &&& !after.pending_open_link
            &&& after.cursor() == m.cursor()
            &&& after.document == m.document
            &&& after.screen == m.screen
            &&& after.undo_stack == m.undo_stack
            &&& after.redo_stack == m.redo_stack
            &&& after.pending_write == m.pending_write
            &&& after.search_query == m.search_query
            &&& after.search_last == m.search_last
            &&& after.picker_query == m.picker_query
            &&& after.card_scroll == m.card_scroll
        }),
{
}

/// Law: the keys of the checklist.
pub proof fn law_checklist_keys(m: AppModel, pending_g: bool)
    ensures
        m.checklist_key(KeyCode::Char('j'), pending_g) == m.forward(),
        m.checklist_key(KeyCode::Char('l'), pending_g) == m.forward(),
        m.checklist_key(KeyCode::Right, pending_g) == m.forward(),
        m.checklist_key(KeyCode::Down, pending_g) == m.forward(),
        m.checklist_key(KeyCode::Char('k'), pending_g) == m.backward(),
        m.checklist_key(KeyCode::Char('h'), pending_g) == m.backward(),
        m.checklist_key(KeyCode::Left, pending_g) == m.backward(),
        m.checklist_key(KeyCode::Up, pending_g) == m.backward(),
        m.checklist_key(KeyCode::Char('g'), pending_g) == m.g_pressed(pending_g),
        m.checklist_key(KeyCode::Char('G'), pending_g) == m.at_last(),
        m.checklist_key(KeyCode::Char('}'), pending_g) == m.at_sub_section(true),
        m.checklist_key(KeyCode::Char('{'), pending_g) == m.at_sub_section(false),
        m.checklist_key(KeyCode::Char('/'), pending_g) == m.searching(),
        m.checklist_key(KeyCode::Char('n'), pending_g) == m.search_cycled(true),
        m.checklist_key(KeyCode::Char('N'), pending_g) == m.search_cycled(false),
        m.checklist_key(KeyCode::Char(' '), pending_g) == m.toggled(),
        m.checklist_key(KeyCode::Enter, pending_g) == m.toggled(),
        m.checklist_key(KeyCode::Char('s'), pending_g) == m.started(),
        m.checklist_key(KeyCode::Char('y'), pending_g) == m.code_copied(),
        m.checklist_key(KeyCode::Char('o'), pending_g) == m.current_link_opened(),
{
}

/// Law: the keys that mean the same on every content screen. A digit leads to
/// the list of that number, counted from one.
pub proof fn law_global_keys(m: AppModel, ctrl: bool, c: char)
    ensures
        m.global_key(KeyCode::Char('?'), ctrl) == Some(m.helped()),
        m.global_key(KeyCode::Char('T'), ctrl) == Some(m.picking()),
        m.global_key(KeyCode::Char('q'), ctrl) == Some(m.leaving()),
        m.global_key(KeyCode::Esc, ctrl) == Some(m.leaving()),
        m.global_key(KeyCode::Char('R'), ctrl) == Some(m.reset_requested()),
        m.global_key(KeyCode::Char('u'), false) == Some(m.undone()),
        m.global_key(KeyCode::Char('r'), true) == Some(m.redone()),
        m.global_key(KeyCode::Tab, ctrl) == Some(m.at_next_incomplete_task()),
        m.global_key(KeyCode::Char('L'), ctrl) == Some(m.at_next_incomplete_list()),
        m.global_key(KeyCode::Char('H'), ctrl) == Some(m.at_prev_incomplete_list()),
        m.global_key(KeyCode::Char('e'), ctrl) matches Some(after) && after.editor_requested
            && after.cursor() == m.cursor() && after.document == m.document,
        '1' <= c && c <= '9' ==> m.global_key(KeyCode::Char(c), ctrl) == Some(
            m.at_list((c as int - '1' as int) as usize),
        ),
{
}

/// Law: no other key means the same on every content screen.
pub proof fn law_other_keys_are_not_global(m: AppModel, code: KeyCode, ctrl: bool)
    requires
        code != KeyCode::Esc,
        code != KeyCode::Tab,
        code matches KeyCode::Char(c) ==> c != '?' && c != 'T' && c != 'q' && c != 'e' && c != 'R'
            && c != 'L' && c != 'H' && !('1' <= c && c <= '9') && (c == 'u' ==> ctrl) && (c == 'r'
            ==> !ctrl),
    ensures
        m.global_key(code, ctrl) is None,
{
}

/// Law: the keys that scroll a card: by a row, by half a page, by a page less
/// one row; no other key scrolls it.
pub proof fn law_scrolling_keys(m: AppModel, code: KeyCode, ctrl: bool)
    ensures
        m.scroll_key(KeyCode::Char('e'), true) == Some(m.card_down(1)),
        m.scroll_key(KeyCode::Char('y'), true) == Some(m.card_up(1)),
        ({
            let height = m.card_viewport_height as int;
            let half = if height < 2 {
                1
            } else {
                height / 2
            };
            let page = if height < 2 {
                1
            } else {
                height - 1
            };
            &&& m.scroll_key(KeyCode::Char('d'), true) == Some(m.card_down(half))
            &&& m.scroll_key(KeyCode::Char('u'), true) == Some(m.card_up(half))
            &&& m.scroll_key(KeyCode::PageDown, ctrl) == Some(m.card_down(page))
            &&& m.scroll_key(KeyCode::PageUp, ctrl) == Some(m.card_up(page))
        }),
        code != KeyCode::PageDown && code != KeyCode::PageUp && !(ctrl && (code == KeyCode::Char(
            'e',
        ) || code == KeyCode::Char('y') || code == KeyCode::Char('d') || code == KeyCode::Char(
            'u',
        ))) ==> m.scroll_key(code, ctrl) is None,
{
}

/// Law: the keys of the help: the same as on a card, and the arrows and `j` and
/// `k`; any other key closes it.
pub proof fn law_help_keys(m: AppModel, code: KeyCode, ctrl: bool)
    ensures
        m.help_key(KeyCode::Char('j'), ctrl) == m.help_down(1),
        m.help_key(KeyCode::Down, ctrl) == m.help_down(1),
        m.help_key(KeyCode::Char('e'), true) == m.help_down(1),
        m.help_key(KeyCode::Char('k'), ctrl) == m.help_up(1),
        m.help_key(KeyCode::Up, ctrl) == m.help_up(1),
        m.help_key(KeyCode::Char('y'), true) == m.help_up(1),
        ({
            let height = m.help_viewport_height as int;
            let half = if height < 2 {
                1
            } else {
                height / 2
            };
            let page = if height < 2 {
                1
            } else {
                height - 1
            };
            &&& m.help_key(KeyCode::Char('d'), true) == m.help_down(half)
            &&& m.help_key(KeyCode::Char('u'), true) == m.help_up(half)
            &&& m.help_key(KeyCode::PageDown, ctrl) == m.help_down(page)
            &&& m.help_key(KeyCode::PageUp, ctrl) == m.help_up(page)
        }),
        code != KeyCode::PageDown && code != KeyCode::PageUp && code != KeyCode::Up && code
            != KeyCode::Down && code != KeyCode::Char('j') && code != KeyCode::Char('k') && !(ctrl
            && (code == KeyCode::Char('e') || code == KeyCode::Char('y') || code == KeyCode::Char(
            'd',
        ) || code == KeyCode::Char('u'))) ==> {
            let after = m.help_key(code, ctrl);
            &&& after.screen == m.screen_before_confirm
            &&& after.cursor() == m.cursor()
            &&& after.document == m.document
        },
{
}

/// Law: the keys of the summaries. From a finished list, going on leads to the
/// next list with a task not done or, with none, to the summary of all; going
/// back leads to the list. From the summary of all, going back leads to the last
/// card.
pub proof fn law_summary_keys(m: AppModel)
    ensures
        m.list_complete_key(KeyCode::Char('l')) == m.advanced_list(),
        m.list_complete_key(KeyCode::Char('j')) == m.advanced_list(),
        m.list_complete_key(KeyCode::Right) == m.advanced_list(),
        m.list_complete_key(KeyCode::Down) == m.advanced_list(),
        m.list_complete_key(KeyCode::Enter) == m.advanced_list(),
        m.list_complete_key(KeyCode::Char('h')) == m.on_screen(Screen::Checklist),
        m.list_complete_key(KeyCode::Char('k')) == m.on_screen(Screen::Checklist),
        m.list_complete_key(KeyCode::Left) == m.on_screen(Screen::Checklist),
        m.list_complete_key(KeyCode::Up) == m.on_screen(Screen::Checklist),
        m.all_complete_key(KeyCode::Char('h')) == m.at_last_list(),
        m.all_complete_key(KeyCode::Char('k')) == m.at_last_list(),
        m.all_complete_key(KeyCode::Left) == m.at_last_list(),
        m.all_complete_key(KeyCode::Up) == m.at_last_list(),
{
}

/// Law: a reset happens only where `y` confirms it. Asked on leaving, `y` resets
/// and leaves, `n` leaves, and any other key stays; asked otherwise, any other
/// key stays.
pub proof fn law_resets_are_confirmed(m: AppModel, code: KeyCode)
    ensures
        m.screen == Screen::ConfirmReset ==> m.confirm_key(KeyCode::Char('y')) == m.all_reset(),
        m.screen == Screen::ConfirmReset && code != KeyCode::Char('y') ==> {
            let after = m.confirm_key(code);
            &&& after.document == m.document
            &&& after.pending_write == m.pending_write
            &&& after.screen == m.screen_before_confirm
            &&& after.should_quit == m.should_quit
        },
        m.screen == Screen::ConfirmQuitReset ==> {
            let after = m.confirm_key(KeyCode::Char('y'));
            &&& after.should_quit
            &&& after.document == m.all_reset().document
            &&& after.pending_write == m.all_reset().pending_write
        },
        m.screen == Screen::ConfirmQuitReset ==> {
            let after = m.confirm_key(KeyCode::Char('n'));
            &&& after.should_quit
            &&& after.document == m.document
            &&& after.pending_write == m.pending_write
        },
        m.screen == Screen::ConfirmQuitReset && code != KeyCode::Char('y') && code
            != KeyCode::Char('n') ==> {
            let after = m.confirm_key(code);
            &&& after.document == m.document
            &&& after.pending_write == m.pending_write
            &&& after.screen == m.screen_before_confirm
            &&& after.should_quit == m.should_quit
        },
{
}

/// Law: in a search, a character is typed at the end of the query, `Backspace`
/// takes the last one away, `Enter` commits and `Esc` gives up; with control, a
/// character is not typed.
pub proof fn law_search_keys(m: AppModel, c: char, ctrl: bool)
    ensures
        m.search_key(KeyCode::Char(c), false) == m.with_query(m.search_query.push(c)),
        m.search_key(KeyCode::Char(c), true) == m,
        m.search_query.len() > 0 ==> m.search_key(KeyCode::Backspace, ctrl) == m.with_query(
            m.search_query.drop_last(),
        ),
        m.search_query.len() == 0 ==> m.search_key(KeyCode::Backspace, ctrl).search_query.len()
            == 0,
        m.search_key(KeyCode::Enter, ctrl) == m.search_committed(),
        m.search_key(KeyCode::Esc, ctrl) == m.search_cancelled(),
{
}

/// Law: in the go-to-task overlay, a character is typed at the end of the
/// filter, the arrows and control with `n` and `p` move the highlight by one row,
/// control with `d` and `u` by half a page, `Enter` goes to the highlighted card,
/// and `Esc` closes the overlay.
pub proof fn law_overlay_keys(m: AppModel, c: char, ctrl: bool)
    ensures
        m.picker_key(KeyCode::Char(c), false) == m.with_filter(m.picker_query.push(c)),
        m.picker_query.len() > 0 ==> m.picker_key(KeyCode::Backspace, ctrl) == m.with_filter(
            m.picker_query.drop_last(),
        ),
        m.picker_key(KeyCode::Up, ctrl) == m.picker_moved(-1),
        m.picker_key(KeyCode::Char('p'), true) == m.picker_moved(-1),
        m.picker_key(KeyCode::Down, ctrl) == m.picker_moved(1),
        m.picker_key(KeyCode::Char('n'), true) == m.picker_moved(1),
        ({
            let height = m.picker_viewport_height as int;
            let half = if height < 2 {
                1
            } else {
                height / 2
            };
            &&& m.picker_key(KeyCode::Char('d'), true) == m.picker_moved(half)
            &&& m.picker_key(KeyCode::Char('u'), true) == m.picker_moved(-half)
        }),
        m.picker_key(KeyCode::Enter, ctrl) == m.picked(),
        m.picker_key(KeyCode::Esc, ctrl).screen == m.screen_before_confirm,
        m.picker_key(KeyCode::Esc, ctrl).cursor() == m.cursor(),
{
}

/// Law: no other key does anything in a search or in the go-to-task overlay; with
/// nothing typed there is nothing for `Backspace` to take away.
pub proof fn law_other_keys_are_not_typed(m: AppModel, code: KeyCode, c: char, ctrl: bool)
    ensures
        code is Tab || code is Left || code is Right || code is PageUp || code is PageDown || code
            is Other ==> m.search_key(code, ctrl) == m && m.picker_key(code, ctrl) == m,
        code is Up || code is Down ==> m.search_key(code, ctrl) == m,
        c != 'p' && c != 'n' && c != 'd' && c != 'u' ==> m.picker_key(KeyCode::Char(c), true) == m,
        m.search_query.len() == 0 ==> m.search_key(KeyCode::Backspace, ctrl)
            == m.search_followed(),
        m.picker_query.len() == 0 ==> m.picker_key(KeyCode::Backspace, ctrl) == m.with_filter(
            Seq::empty(),
        ),
{
    if m.picker_query.len() == 0 {
        assert(m.picker_query =~= Seq::empty());
    }
}

/// Law: no other key does anything on the checklist, or on a summary.
pub proof fn law_other_keys_do_nothing(m: AppModel, code: KeyCode, c: char, pending_g: bool)
    ensures
        code is Esc || code is Backspace || code is Tab || code is PageUp || code is PageDown
            || code is Other ==> m.checklist_key(code, pending_g) == m && m.list_complete_key(code)
            == m && m.all_complete_key(code) == m,
        code is Right || code is Down || code is Enter ==> m.all_complete_key(code) == m,
        c != 'h' && c != 'j' && c != 'k' && c != 'l' && c != 'g' && c != 'G' && c != '}' && c != '{'
            && c != '/' && c != 'n' && c != 'N' && c != ' ' && c != 's' && c != 'y' && c != 'o'
            ==> m.checklist_key(KeyCode::Char(c), pending_g) == m,
        c != 'h' && c != 'j' && c != 'k' && c != 'l' ==> m.list_complete_key(KeyCode::Char(c)) == m,
        c != 'h' && c != 'k' ==> m.all_complete_key(KeyCode::Char(c)) == m,
{
}

} // verus!
