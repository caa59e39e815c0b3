//! What the screen shows, line by line.

use crate::model::StateView;
use crate::render::{title_line, TITLE_COLUMNS};
use crate::slots::SlotView;
use vstd::prelude::*;
use vstd::utf8::encode_utf8;

verus! {

/// How many lines a failure, or the note that the slots are not there yet, takes up.
pub open spec fn status_height(state: StateView) -> int {
    if state.error is Some || !state.host_folder_ready {
        2
    } else {
        0
    }
}

/// How many lines the keys take up.
pub open spec fn help_height(state: StateView) -> int {
    if state.awaiting_delete_key {
        1
    } else {
        2
    }
}

/// The screen has a title and an empty line, the status, the five slots, an empty line,
/// the keys, and where a pane is focused an empty line and that pane.
pub proof fn law_screen_height(state: StateView, cols: usize)
    ensures
        state.screen(cols).len() == 2 + status_height(state) + 5 + 1 + help_height(state)
            + if state.focused_pane is Some {
            2int
        } else {
            0
        },
        state.screen(cols)[1].len() == 0,
        state.screen(cols)[2 + status_height(state) + 5].len() == 0,
{
}

/// The title stands in bold, and a rule fills the line behind it: with two columns to
/// spare it is as long as the line minus the bytes of the title, and it is left out
/// where there is no room.
pub proof fn law_screen_title(state: StateView, cols: usize)
    ensures
        ({
            let bold_title = "\x1b[1m"@ + "─ Harpoon "@ + "\x1b[0m"@;
            let room = cols - encode_utf8("─ Harpoon "@).len() - 2;
            let line = state.screen(cols)[0];
            &&& line == title_line(cols)
            &&& line.len() == bold_title.len() + if room > 0 {
                room
            } else {
                0
            }
            &&& line.subrange(0, bold_title.len() as int) == bold_title
            &&& forall|k: int| bold_title.len() <= k < line.len() ==> #[trigger] line[k] == '─'
        }),
{
    reveal_strlit("─ Harpoon ");
    let rest = "─ Harpoon "@.drop_first();
    assert(vstd::utf8::is_ascii_chars(rest));
    vstd::utf8::is_ascii_chars_encode_utf8(rest);
    assert("─ Harpoon "@[0] as u32 == 0x2500);
    assert(encode_utf8("─ Harpoon "@).len() == 12);
    assert(TITLE_COLUMNS == 14);
}

/// A failure is shown in red, for as long as there is one; before the folder of the slot
/// file is set up, a note says that the slots are loading.
pub proof fn law_screen_status(state: StateView, cols: usize)
    ensures
        state.error matches Some(error) ==> state.screen(cols)[2] == "  "@ + ("\x1b[31m"@ + error
            + "\x1b[39m"@) && state.screen(cols)[3].len() == 0,
        state.error is None && !state.host_folder_ready ==> state.screen(cols)[2] == "  "@ + (
        "\x1b[2m"@ + "Loading..."@ + "\x1b[0m"@) && state.screen(cols)[3].len() == 0,
{
}

/// How a line that shows `text` for the slot at `index` looks: indented, and bold and
/// red where the cursor is on that slot.
pub open spec fn stands_out(state: StateView, index: int, text: Seq<char>) -> Seq<char> {
    if index == state.selected_slot {
        "  "@ + ("\x1b[1m"@ + ("\x1b[31m"@ + text + "\x1b[39m"@) + "\x1b[0m"@)
    } else {
        "  "@ + text
    }
}

/// The letter that a slot is shown with: that of its key, where it has one.
pub open spec fn letter_of(index: usize) -> char {
    if index < 5 {
        seq!['y', 'u', 'i', 'o', 'p'][index as int]
    } else {
        '?'
    }
}

/// A slot whose session is among the running ones, wherever it is listed, shows its
/// letter, session, tab and pane, and nothing behind them.
pub proof fn law_screen_of_online_slot(
    state: StateView,
    cols: usize,
    index: usize,
    slot: SlotView,
    sessions: Seq<Seq<char>>,
    at: int,
)
    requires
        index < state.slots.len(),
        state.slots[index as int] == Some(slot),
        state.sessions == Some(sessions),
        0 <= at < sessions.len(),
        sessions[at] == slot.session_name,
    ensures
        ({
            let text = seq!['[', letter_of(index)] + "] "@
                + slot.session_name + " | "@ + slot.tab_name + " | "@ + slot.pane_title;
            &&& index < 5 ==> state.screen(cols)[2 + status_height(state) + index] == stands_out(
                state,
                index as int,
                text,
            )
            &&& state.slot_text(index) == text
            &&& state.slot_line(index) == stands_out(state, index as int, text)
            &&& state.session_online(slot.session_name)
        }),
{
    reveal_strlit("");
    let text = seq!['[', letter_of(index)] + "] "@ + slot.session_name
        + " | "@ + slot.tab_name + " | "@ + slot.pane_title;
    assert(sessions.contains(sessions[at]));
    assert(text + ""@ == text);
    assert(state.slot_text(index) == text);
    if index < 5 {
        assert(state.screen(cols)[2 + status_height(state) + index] == state.slot_line(index));
    }
}

/// A slot whose session is not among the running ones, or of which nothing is known,
/// says so behind its letter, session, tab and pane.
pub proof fn law_screen_of_offline_slot(
    state: StateView,
    cols: usize,
    index: usize,
    slot: SlotView,
)
    requires
        index < state.slots.len(),
        state.slots[index as int] == Some(slot),
        state.sessions matches Some(sessions) ==> forall|k: int|
            0 <= k < sessions.len() ==> #[trigger] sessions[k] != slot.session_name,
    ensures
        ({
            let text = seq!['[', letter_of(index)] + "] "@
                + slot.session_name + " | "@ + slot.tab_name + " | "@ + slot.pane_title
                + " (offline)"@;
            &&& index < 5 ==> state.screen(cols)[2 + status_height(state) + index] == stands_out(
                state,
                index as int,
                text,
            )
            &&& state.slot_text(index) == text
            &&& state.slot_line(index) == stands_out(state, index as int, text)
            &&& !state.session_online(slot.session_name)
        }),
{
    if index < 5 {
        assert(state.screen(cols)[2 + status_height(state) + index] == state.slot_line(index));
    }
}

/// A session counts as running exactly if its name is listed somewhere.
pub proof fn law_session_is_online_if_listed(state: StateView, name: Seq<char>)
    ensures
        state.sessions matches Some(sessions) ==> (state.session_online(name) <==> exists|k: int|
            0 <= k < sessions.len() && #[trigger] sessions[k] == name),
        state.sessions is None ==> !state.session_online(name),
{
}

/// A free slot, and one that the list does not reach, shows its letter and that it is
/// empty.
pub proof fn law_screen_of_free_slot(state: StateView, cols: usize, index: usize)
    requires
        index >= state.slots.len() || state.slots[index as int] is None,
    ensures
        ({
            let text = seq!['[', letter_of(index)] + "] (empty)"@;
            &&& index < 5 ==> state.screen(cols)[2 + status_height(state) + index] == stands_out(
                state,
                index as int,
                text,
            )
            &&& state.slot_text(index) == text
            &&& state.slot_line(index) == stands_out(state, index as int, text)
        }),
{
    if index < 5 {
        assert(state.screen(cols)[2 + status_height(state) + index] == state.slot_line(index));
    }
}

/// The keys are explained, or, after `d`, the keys that free a slot.
pub proof fn law_screen_keys(state: StateView, cols: usize)
    ensures
        ({
            let lines = state.screen(cols);
            let first = 2 + status_height(state) + 6;
            &&& state.awaiting_delete_key ==> lines[first] == "  "@ + ("\x1b[33m"@
                + "Press y/u/i/o/p to delete that slot..."@ + "\x1b[39m"@)
            &&& !state.awaiting_delete_key ==> {
                &&& lines[first] == "  "@ + ("\x1b[2m"@ + "y/u/i/o/p:"@ + "\x1b[0m"@) + " jump  "@
                    + ("\x1b[2m"@ + "Y/U/I/O/P:"@ + "\x1b[0m"@) + " assign"@
                &&& lines[first + 1] == "  "@ + ("\x1b[2m"@ + "d + key:"@ + "\x1b[0m"@)
                    + " delete  "@ + ("\x1b[2m"@ + "r:"@ + "\x1b[0m"@) + " reload  "@ + ("\x1b[2m"@
                    + "Esc:"@ + "\x1b[0m"@) + " close"@
            }
        }),
{
}

/// The last line names the tab and the title of the focused pane, where one is known.
pub proof fn law_screen_pane(state: StateView, cols: usize)
    ensures
        state.focused_pane matches Some(pane) ==> {
            let lines = state.screen(cols);
            &&& lines.last() == "  "@ + ("\x1b[2m"@ + "Current:"@ + "\x1b[0m"@) + " "@
                + pane.tab_info.name + " | "@ + pane.pane_info.title
            &&& lines[lines.len() - 2].len() == 0
        },
{
}

} // verus!
