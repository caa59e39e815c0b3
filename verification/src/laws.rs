//! What holds of the plugin as a whole.

use crate::host::{
    context_value, ActionView, EventView, FileReadView, PendingAction, StepView, Task,
};
use crate::keys::{
    char_of_slot, shifted_slot_keys, slot_keys, slot_of_char, BareKey, SLOT_COUNT,
};
use crate::layout::first_match;
use crate::model::{
    lemma_refreshed_is_well_formed, make_dir, pending_steps, resolve_home, StateView,
};
use crate::slots::{slot_at, with_slot, without_slot, SlotView};
use crate::text::{is_white_space, trimmed, trimmed_end, trimmed_start};
use vstd::prelude::*;
use vstd::utf8::{encode_utf8, encode_utf8_decode_utf8, encode_utf8_valid_utf8};

verus! {

/// Each slot key leads to its own slot, in either case, and no other letter leads to a
/// slot.
pub proof fn law_slot_letters(index: usize, c: char)
    ensures
        index < SLOT_COUNT ==> slot_of_char(char_of_slot(index)) == Some(index),
        index < SLOT_COUNT ==> slot_of_char(shifted_slot_keys()[index as int]) == Some(index),
        slot_of_char(c) == Some(index) <==> index < SLOT_COUNT && (c == slot_keys()[index as int]
            || c == shifted_slot_keys()[index as int]),
{
}

/// The plain key of a slot jumps to it, the shifted key assigns it, and either of them
/// frees it right after `d`.
pub proof fn law_slot_keys_act(state: StateView, index: usize)
    requires
        index < SLOT_COUNT,
        !state.awaiting_delete_key,
    ensures
        state.key_pressed(BareKey::Char(slot_keys()[index as int])).1.steps == seq![
            StepView::Begin(Task::Jump(index)),
        ],
        state.key_pressed(BareKey::Char(shifted_slot_keys()[index as int])).1.steps == seq![
            StepView::Begin(Task::Assign(index)),
        ],
        state.key_pressed(BareKey::Char('d')).0.key_pressed(
            BareKey::Char(slot_keys()[index as int]),
        ).1.steps == seq![StepView::Begin(Task::Delete(index))],
        state.key_pressed(BareKey::Char('d')).0.key_pressed(
            BareKey::Char(shifted_slot_keys()[index as int]),
        ).1.steps == seq![StepView::Begin(Task::Delete(index))],
{
}

/// A key frees a slot only right after `d`, and `d` holds for one key only.
pub proof fn law_delete_takes_two_keys(state: StateView, key: BareKey, index: usize)
    ensures
        state.key_pressed(key).1.steps.contains(StepView::Begin(Task::Delete(index)))
            ==> state.awaiting_delete_key,
        state.awaiting_delete_key ==> !state.key_pressed(key).0.awaiting_delete_key,
        state.key_pressed(key).0.awaiting_delete_key <==> !state.awaiting_delete_key && key
            == BareKey::Char('d'),
{
}

/// Up and down undo each other, and as many steps down as there are slots lead back.
pub proof fn law_cursor_goes_round(state: StateView)
    requires
        state.well_formed(),
    ensures
        state.selected_down().selected_up() == state,
        state.selected_up().selected_down() == state,
        state.selected_down().selected_down().selected_down().selected_down().selected_down()
            == state,
{
}

/// Nothing that can happen makes a state ill-formed.
pub proof fn law_states_stay_well_formed(
    state: StateView,
    event: EventView,
    name: Seq<char>,
    payload: Option<Seq<char>>,
    agenda: Seq<StepView>,
    read: FileReadView,
    parsed: Result<Seq<Option<SlotView>>, Seq<char>>,
    saved: Result<(), Seq<char>>,
)
    requires
        state.well_formed(),
    ensures
        StateView::initial().well_formed(),
        state.updated(event).0.well_formed(),
        state.piped(name, payload).0.well_formed(),
        state.advanced(agenda).0.well_formed(),
        state.after_read(read).well_formed(),
        state.after_parse(parsed).well_formed(),
        state.after_save(saved).well_formed(),
{
    match event {
        EventView::TabUpdate(tabs) => lemma_refreshed_is_well_formed(
            StateView { tab_info: Some(tabs), ..state },
        ),
        EventView::PaneUpdate(manifest) => lemma_refreshed_is_well_formed(
            StateView { pane_manifest: Some(manifest), ..state },
        ),
        _ => {},
    }
}

/// Whether readiness and failure of `before` are still there in `after`.
pub open spec fn lasts(before: StateView, after: StateView) -> bool {
    &&& before.host_folder_ready ==> after.host_folder_ready
    &&& before.error is Some ==> after.error is Some
}

/// Once the folder of the slot file is set up it stays so, and a failure is shown until
/// another one takes its place.
pub proof fn law_readiness_and_failures_last(
    state: StateView,
    event: EventView,
    name: Seq<char>,
    payload: Option<Seq<char>>,
    agenda: Seq<StepView>,
    read: FileReadView,
    parsed: Result<Seq<Option<SlotView>>, Seq<char>>,
    saved: Result<(), Seq<char>>,
)
    ensures
        lasts(state, state.updated(event).0),
        lasts(state, state.piped(name, payload).0),
        lasts(state, state.advanced(agenda).0),
        lasts(state, state.after_read(read)),
        lasts(state, state.after_parse(parsed)),
        lasts(state, state.after_save(saved)),
{
}

/// What was put into a slot is what the slot holds, and the other slots stay as they
/// were.
pub proof fn law_assigned_slot_is_found(
    slots: Seq<Option<SlotView>>,
    index: usize,
    slot: SlotView,
    other: usize,
)
    ensures
        slot_at(with_slot(slots, index as int, slot), index as int) == Some(slot),
        other != index ==> slot_at(with_slot(slots, index as int, slot), other as int) == slot_at(
            slots,
            other as int,
        ),
{
}

/// A slot that was freed is free, and the other slots stay as they were.
pub proof fn law_deleted_slot_is_free(slots: Seq<Option<SlotView>>, index: usize, other: usize)
    ensures
        slot_at(without_slot(slots, index as int), index as int) is None,
        other != index ==> slot_at(without_slot(slots, index as int), other as int) == slot_at(
            slots,
            other as int,
        ),
{
}

/// Bringing the slots up to date neither adds nor removes any, never changes which pane
/// a slot leads to, and leaves the slots of other sessions alone.
pub proof fn law_sync_keeps_identity(state: StateView, index: int)
    requires
        0 <= index < state.slots.len(),
    ensures
        state.synced().slots.len() == state.slots.len(),
        state.slots[index] is None <==> state.synced().slots[index] is None,
        state.slots[index] matches Some(slot) ==> {
            let synced = state.synced().slots[index]->0;
            &&& synced.session_name == slot.session_name
            &&& synced.tab_name == slot.tab_name
            &&& synced.pane_id == slot.pane_id
            &&& state.current_session_name != Some(slot.session_name) ==> synced == slot
        },
{
}

/// Bringing the slots up to date twice is the same as doing it once.
pub proof fn law_sync_is_idempotent(state: StateView)
    ensures
        state.synced().synced() == state.synced(),
{
    assert(state.synced().synced().slots == state.synced().slots);
}

/// The same tabs or panes reported a second time change nothing and save nothing.
pub proof fn law_refresh_settles(state: StateView)
    ensures
        state.refreshed().refreshed() == state.refreshed(),
        state.refreshed().refresh_reaction().steps == Seq::<StepView>::empty(),
{
    law_sync_is_idempotent(state.panes_updated());
    assert(state.refreshed().panes_updated() == state.refreshed());
}

/// Whether an agenda asks for the slot file to be read by itself, outside any task.
pub open spec fn reads_outright(agenda: Seq<StepView>) -> bool {
    agenda.contains(StepView::Act(ActionView::LoadSlots))
}

/// The slot file is not read before its folder is set up: the reading is always part of
/// a task, and a task reads only then.
pub proof fn law_not_read_before_ready(
    state: StateView,
    event: EventView,
    name: Seq<char>,
    payload: Option<Seq<char>>,
    agenda: Seq<StepView>,
)
    ensures
        !reads_outright(state.updated(event).1.steps),
        !reads_outright(state.piped(name, payload).1.steps),
        !reads_outright(agenda) ==> !reads_outright(state.advanced(agenda).1),
        !reads_outright(agenda) && !state.host_folder_ready ==> state.advanced(agenda).2 != Some(
            ActionView::LoadSlots,
        ),
{
}

/// The requests in `requests`, one after the other.
pub open spec fn all_requested(state: StateView, requests: Seq<PendingAction>) -> StateView
    decreases requests.len(),
{
    if requests.len() == 0 {
        state
    } else {
        all_requested(state, requests.drop_last()).requested(requests.last()).0
    }
}

/// Requests that come before the folder of the slot file is set up are all taken up, in
/// the order in which they came, once it is, after the slots have been read.
pub proof fn law_requests_wait_in_order(
    state: StateView,
    requests: Seq<PendingAction>,
    stdout: Seq<u8>,
    config_dir: Seq<char>,
)
    requires
        !state.host_folder_ready,
    ensures
        all_requested(state, requests) == (StateView {
            pending_actions: state.pending_actions + requests,
            ..state
        }),
        all_requested(state, requests).command_ended(
            Some(0i32),
            stdout,
            make_dir(config_dir)->context,
        ) == (
            StateView { host_folder_ready: true, pending_actions: Seq::empty(), ..state },
            seq![
                StepView::Act(ActionView::ChangeHostFolder(config_dir)),
                StepView::Begin(Task::Reload),
            ] + pending_steps(state.pending_actions + requests),
        ),
    decreases requests.len(),
{
    law_commands_find_their_way_back(
        all_requested(state, requests),
        Some(0i32),
        stdout,
        config_dir,
    );
    if requests.len() == 0 {
        assert(state.pending_actions + requests == state.pending_actions);
    } else {
        law_requests_wait_in_order(state, requests.drop_last(), stdout, config_dir);
        assert((state.pending_actions + requests.drop_last()).push(requests.last())
            == state.pending_actions + requests);
    }
}

/// Each command that the plugin runs comes back with the context by which its result is
/// recognised, and the folder that was created is the one that is then used.
pub proof fn law_commands_find_their_way_back(
    state: StateView,
    exit_code: Option<i32>,
    stdout: Seq<u8>,
    config_dir: Seq<char>,
)
    ensures
        state.command_ended(exit_code, stdout, resolve_home()->context) == state.home_resolved(
            exit_code,
            stdout,
        ),
        state.command_ended(exit_code, stdout, make_dir(config_dir)->context) == state.folder_made(
            exit_code,
            make_dir(config_dir)->context,
        ),
        context_value(make_dir(config_dir)->context, "config_dir"@) == Some(config_dir),
{
    reveal_strlit("action");
    reveal_strlit("config_dir");
    reveal_strlit("resolve_home");
    reveal_strlit("mkdir_config");
    reveal_with_fuel(first_match, 3);
    assert("resolve_home"@[0] != "mkdir_config"@[0]);
    assert("action"@.len() != "config_dir"@.len());
    let sent = make_dir(config_dir)->context;
    assert(sent[0].0 != "config_dir"@);
    assert(sent.drop_first()[0] == ("config_dir"@, config_dir));
}

/// Trimming removes white space from both ends and nothing else: what is left neither
/// starts nor ends with it, and a text that already is so stays as it is.
pub proof fn law_trimmed_ends(text: Seq<char>)
    ensures
        trimmed(text).len() > 0 ==> !is_white_space(trimmed(text)[0]) && !is_white_space(
            trimmed(text).last(),
        ),
        trimmed(trimmed(text)) == trimmed(text),
        text.len() > 0 && !is_white_space(text[0]) && !is_white_space(text.last()) ==> trimmed(text)
            == text,
{
    lemma_trimmed_start(text);
    lemma_trimmed_end(trimmed_start(text));
}

/// What trimming at the start leaves does not start with white space.
proof fn lemma_trimmed_start(text: Seq<char>)
    ensures
        trimmed_start(text).len() > 0 ==> !is_white_space(trimmed_start(text)[0]),
    decreases text.len(),
{
    if text.len() > 0 && is_white_space(text[0]) {
        lemma_trimmed_start(text.drop_first());
    }
}

/// What trimming at the end leaves starts as before, and does not end with white space.
proof fn lemma_trimmed_end(text: Seq<char>)
    ensures
        trimmed_end(text).len() > 0 ==> trimmed_end(text)[0] == text[0] && !is_white_space(
            trimmed_end(text).last(),
        ),
    decreases text.len(),
{
    if text.len() > 0 && is_white_space(text.last()) {
        lemma_trimmed_end(text.drop_last());
    }
}

/// A home folder is understood with the line end that `echo` puts behind it: the folder
/// that is created is the one for the plugin below it.
pub proof fn law_home_is_read_without_line_end(state: StateView, home: Seq<char>)
    requires
        home.len() > 0,
        !is_white_space(home[0]),
        !is_white_space(home.last()),
    ensures
        state.home_resolved(Some(0i32), encode_utf8(home.push('\n'))) == (
            state,
            seq![StepView::Act(make_dir(home + "/.config/zellij"@))],
        ),
{
    let line = home.push('\n');
    encode_utf8_valid_utf8(line);
    encode_utf8_decode_utf8(line);
    assert(trimmed_start(line) == line);
    assert(line.drop_last() == home);
    assert(trimmed_end(home) == home);
}

/// The screen shows every slot, in order, below the title and the status.
pub proof fn law_screen_shows_every_slot(state: StateView, cols: usize, index: usize)
    requires
        index < SLOT_COUNT,
    ensures
        2 + state.status_lines().len() + index < state.screen(cols).len(),
        state.screen(cols)[2 + state.status_lines().len() + index as int] == state.slot_line(index),
{
}

} // verus!
