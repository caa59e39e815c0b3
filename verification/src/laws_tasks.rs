//! What the tasks do to the slots and what they ask of the host, place by place.

use crate::host::{act_steps, ActionView, FileReadView, StepView, Task, SLOT_FILE};
use crate::laws_search::{
    law_slot_at_place, law_slot_list_place_by_place, law_trimming_takes_off_the_ends,
};
use crate::model::StateView;
use crate::run::{law_task_reads_then_acts, World};
use crate::slots::SlotView;
use crate::text::is_white_space;
use vstd::prelude::*;

verus! {

/// Actions become steps one by one.
pub proof fn law_actions_become_steps(actions: Seq<ActionView>)
    ensures
        act_steps(actions).len() == actions.len(),
        forall|i: int|
            0 <= i < actions.len() ==> #[trigger] act_steps(actions)[i] == StepView::Act(actions[i]),
{
}

/// Nothing happens when nothing is left to do, and an action is handed to the host as it
/// is.
pub proof fn law_actions_are_handed_over(
    state: StateView,
    action: ActionView,
    rest: Seq<StepView>,
)
    ensures
        state.advanced(Seq::empty()) == (state, Seq::<StepView>::empty(), None::<ActionView>),
        state.advanced(seq![StepView::Act(action)] + rest) == (state, rest, Some(action)),
{
    let agenda = seq![StepView::Act(action)] + rest;
    assert(agenda.drop_first() == rest);
    assert(agenda[0] == StepView::Act(action));
}

/// A task begins with the slot file being read, once its folder is set up, and is to be
/// finished next. Only to assign a slot while the session or the focused pane is unknown
/// is not begun at all.
pub proof fn law_tasks_begin_with_reading(state: StateView, task: Task, rest: Seq<StepView>)
    ensures
        ({
            let (after, agenda, action) = state.advanced(seq![StepView::Begin(task)] + rest);
            &&& after == state
            &&& task is Assign && (state.current_session_name is None || state.focused_pane is None)
                ==> agenda == rest && action is None && !state.takes_up(task)
            &&& !(task is Assign) || (state.current_session_name is Some
                && state.focused_pane is Some) ==> {
                &&& state.takes_up(task)
                &&& agenda == seq![StepView::Finish(task)] + rest
                &&& state.host_folder_ready ==> action == Some(ActionView::LoadSlots)
                &&& !state.host_folder_ready ==> action is None
            }
        }),
        state.host_folder_ready ==> state.load_action() == Some(ActionView::LoadSlots),
        !state.host_folder_ready ==> state.load_action() is None,
{
    let agenda = seq![StepView::Begin(task)] + rest;
    assert(agenda.drop_first() == rest);
    assert(agenda[0] == StepView::Begin(task));
}

/// To read the slots again ends with the reading.
pub proof fn law_reload_only_reads(state: StateView, rest: Seq<StepView>)
    ensures
        state.advanced(seq![StepView::Finish(Task::Reload)] + rest) == (
            state,
            rest,
            None::<ActionView>,
        ),
{
    let agenda = seq![StepView::Finish(Task::Reload)] + rest;
    assert(agenda.drop_first() == rest);
    assert(agenda[0] == StepView::Finish(Task::Reload));
    assert(act_steps(seq![]) + rest == rest);
}

/// A jump to a taken slot focuses its pane, where the plugin runs in the slot's session,
/// and else switches to the slot's session, tab and pane; then the plugin hides. A jump
/// to a free slot does nothing. The state stays as it is.
pub proof fn law_jump_goes_to_the_slot(
    state: StateView,
    index: usize,
    slot: SlotView,
    rest: Seq<StepView>,
)
    ensures
        ({
            let (after, agenda, action) = state.advanced(
                seq![StepView::Finish(Task::Jump(index))] + rest,
            );
            &&& after == state
            &&& action is None
            &&& index < state.slots.len() && state.slots[index as int] == Some(slot)
                && state.current_session_name == Some(slot.session_name) ==> agenda == seq![
                StepView::Act(
                    ActionView::FocusTerminalPane {
                        pane_id: slot.pane_id,
                        should_float_if_hidden: true,
                    },
                ),
                StepView::Act(ActionView::HideSelf),
            ] + rest
            &&& index < state.slots.len() && state.slots[index as int] == Some(slot)
                && state.current_session_name != Some(slot.session_name) ==> agenda == seq![
                StepView::Act(
                    ActionView::SwitchSession {
                        session_name: slot.session_name,
                        tab_position: Some(slot.tab_position),
                        pane: Some((slot.pane_id, false)),
                    },
                ),
                StepView::Act(ActionView::HideSelf),
            ] + rest
            &&& index >= state.slots.len() || state.slots[index as int] is None ==> agenda == rest
        }),
{
    law_slot_at_place(state.slots, index);
    let agenda = seq![StepView::Finish(Task::Jump(index))] + rest;
    assert(agenda.drop_first() == rest);
    assert(agenda[0] == StepView::Finish(Task::Jump(index)));
}

/// An assigned slot holds the session, and the tab and the pane that are focused,
/// whatever it held before. Every other slot stays, the list grows as far as it has to,
/// the slots are saved, and the plugin hides.
pub proof fn law_assign_takes_all_from_the_pane(
    state: StateView,
    index: usize,
    rest: Seq<StepView>,
)
    requires
        state.current_session_name is Some,
        state.focused_pane is Some,
    ensures
        state.assigned(index) == state.advanced(
            seq![StepView::Finish(Task::Assign(index))] + rest,
        ).0,
        ({
            let (after, agenda, action) = state.advanced(
                seq![StepView::Finish(Task::Assign(index))] + rest,
            );
            let pane = state.focused_pane->0;
            &&& action is None
            &&& agenda == seq![
                StepView::Act(ActionView::SaveSlots(after.slots)),
                StepView::Act(ActionView::HideSelf),
            ] + rest
            &&& after == (StateView { slots: after.slots, ..state })
            &&& after.slots.len() == if index < state.slots.len() {
                state.slots.len() as int
            } else {
                index + 1
            }
            &&& after.slots[index as int] == Some(
                SlotView {
                    session_name: state.current_session_name->0,
                    tab_name: pane.tab_info.name,
                    tab_position: pane.tab_info.position,
                    pane_id: pane.pane_info.id,
                    pane_title: pane.pane_info.title,
                },
            )
            &&& forall|k: int|
                0 <= k < state.slots.len() && k != index ==> #[trigger] after.slots[k]
                    == state.slots[k]
            &&& forall|k: int|
                state.slots.len() <= k < index ==> (#[trigger] after.slots[k]) is None
        }),
{
    law_slot_list_place_by_place(state.slots, index, state.slot_to_assign(), index as int);
    let agenda = seq![StepView::Finish(Task::Assign(index))] + rest;
    assert(agenda.drop_first() == rest);
    assert(agenda[0] == StepView::Finish(Task::Assign(index)));
    let after = state.advanced(agenda).0;
    assert forall|k: int| 0 <= k < state.slots.len() && k != index implies #[trigger] after.slots[k]
        == state.slots[k] by {
        law_slot_list_place_by_place(state.slots, index, state.slot_to_assign(), k);
    }
    assert forall|k: int| state.slots.len() <= k < index implies (
    #[trigger] after.slots[k]) is None by {
        law_slot_list_place_by_place(state.slots, index, state.slot_to_assign(), k);
    }
}

/// Where the session or the focused pane is unknown, nothing is assigned.
pub proof fn law_assign_needs_session_and_pane(
    state: StateView,
    index: usize,
    rest: Seq<StepView>,
)
    requires
        state.current_session_name is None || state.focused_pane is None,
    ensures
        state.advanced(seq![StepView::Finish(Task::Assign(index))] + rest) == (
            state,
            rest,
            None::<ActionView>,
        ),
{
    let agenda = seq![StepView::Finish(Task::Assign(index))] + rest;
    assert(agenda.drop_first() == rest);
    assert(agenda[0] == StepView::Finish(Task::Assign(index)));
    assert(act_steps(seq![]) + rest == rest);
}

/// A slot that is freed holds nothing, and every other slot stays where it is. The slots
/// are saved, unless the list does not reach that far: then nothing happens.
pub proof fn law_delete_frees_one_slot(state: StateView, index: usize, rest: Seq<StepView>)
    ensures
        ({
            let (after, agenda, action) = state.advanced(
                seq![StepView::Finish(Task::Delete(index))] + rest,
            );
            &&& state.deleted(index) == after
            &&& action is None
            &&& after == (StateView { slots: after.slots, ..state })
            &&& after.slots.len() == state.slots.len()
            &&& forall|k: int|
                0 <= k < state.slots.len() && k != index ==> #[trigger] after.slots[k]
                    == state.slots[k]
            &&& index < state.slots.len() ==> after.slots[index as int] is None && agenda == seq![
                StepView::Act(ActionView::SaveSlots(after.slots)),
            ] + rest
            &&& index >= state.slots.len() ==> after == state && agenda == rest
        }),
{
    let agenda = seq![StepView::Finish(Task::Delete(index))] + rest;
    assert(agenda.drop_first() == rest);
    assert(agenda[0] == StepView::Finish(Task::Delete(index)));
    assert(act_steps(seq![]) + rest == rest);
}

/// The slot file lies in the folder that the host shows to the plugin.
pub proof fn law_slot_file_is_in_host_folder()
    ensures
        SLOT_FILE@ == "/host/"@ + "harpoon.json"@,
{
    reveal_strlit("/host/harpoon.json");
    reveal_strlit("/host/");
    reveal_strlit("harpoon.json");
    assert(SLOT_FILE@ == "/host/harpoon.json"@);
}

/// What was read from the slot file is parsed without the white space around it; without
/// a file there are no slots; a failure is shown and leaves the slots.
pub proof fn law_reading_the_file(
    state: StateView,
    before: Seq<char>,
    text: Seq<char>,
    after: Seq<char>,
    message: Seq<char>,
)
    requires
        forall|k: int| 0 <= k < before.len() ==> is_white_space(#[trigger] before[k]),
        forall|k: int| 0 <= k < after.len() ==> is_white_space(#[trigger] after[k]),
        text.len() > 0 ==> !is_white_space(text[0]) && !is_white_space(text.last()),
    ensures
        state.after_read(FileReadView::Contents(before + text + after)) == state,
        StateView::text_to_parse(FileReadView::Contents(before + text + after)) == Some(text),
        state.after_read(FileReadView::NotFound) == (StateView { slots: Seq::empty(), ..state }),
        StateView::text_to_parse(FileReadView::NotFound) is None,
        state.after_read(FileReadView::Failed(message)) == (StateView {
            error: Some("Load failed: "@ + message),
            ..state
        }),
        StateView::text_to_parse(FileReadView::Failed(message)) is None,
{
    law_trimming_takes_off_the_ends(before, text, after);
}

/// The parsed slots replace those that were there, a file that was written changes
/// nothing, and either failure is shown and leaves the slots.
pub proof fn law_parsing_and_saving(
    state: StateView,
    slots: Seq<Option<SlotView>>,
    message: Seq<char>,
)
    ensures
        state.after_parse(Ok(slots)) == (StateView { slots, ..state }),
        state.after_parse(Err(message)) == (StateView {
            error: Some("Parse failed: "@ + message),
            ..state
        }),
        state.after_save(Ok(())) == state,
        state.after_save(Err(message)) == (StateView {
            error: Some("Save failed: "@ + message),
            ..state
        }),
{
}

/// Once a slot was assigned, the slot file holds the session, the tab and the pane at
/// that place, whatever the file or the slot held before, and what it held everywhere
/// else.
pub proof fn law_assigned_slot_is_in_the_file(
    state: StateView,
    index: usize,
    slots: Seq<Option<SlotView>>,
    session: Seq<char>,
)
    requires
        state.host_folder_ready,
        state.current_session_name == Some(session),
        state.focused_pane is Some,
    ensures
        ({
            let end = World::starting(state, Task::Assign(index), Some(slots)).run();
            let pane = state.focused_pane->0;
            &&& end.agenda.len() == 0
            &&& end.file is Some
            &&& index < end.file->0.len()
            &&& end.file->0[index as int] is Some
            &&& end.file->0[index as int]->0.session_name == session
            &&& end.file->0[index as int]->0.tab_name == pane.tab_info.name
            &&& end.file->0[index as int]->0.tab_position == pane.tab_info.position
            &&& end.file->0[index as int]->0.pane_id == pane.pane_info.id
            &&& end.file->0[index as int]->0.pane_title == pane.pane_info.title
            &&& end.file->0.len() >= slots.len()
            &&& forall|k: int|
                0 <= k < slots.len() && k != index ==> #[trigger] end.file->0[k] == slots[k]
            &&& forall|k: int|
                slots.len() <= k < end.file->0.len() && k != index ==> (
                #[trigger] end.file->0[k]) is None
            &&& end.state == (StateView { slots: end.file->0, ..state })
            &&& end.done == seq![ActionView::HideSelf]
        }),
{
    law_task_reads_then_acts(state, Task::Assign(index), Some(slots));
    let read = StateView { slots, ..state };
    law_assign_takes_all_from_the_pane(read, index, Seq::empty());
}

/// Once a slot was freed, the slot file holds nothing at that place, and what it held
/// everywhere else.
pub proof fn law_deleted_slot_is_not_in_the_file(
    state: StateView,
    index: usize,
    slots: Seq<Option<SlotView>>,
)
    requires
        state.host_folder_ready,
    ensures
        ({
            let end = World::starting(state, Task::Delete(index), Some(slots)).run();
            &&& end.agenda.len() == 0
            &&& end.file is Some
            &&& end.file->0.len() == slots.len()
            &&& index < slots.len() ==> end.file->0[index as int] is None
            &&& forall|k: int|
                0 <= k < slots.len() && k != index ==> #[trigger] end.file->0[k] == slots[k]
            &&& end.state == (StateView { slots: end.file->0, ..state })
            &&& end.done.len() == 0
        }),
{
    law_task_reads_then_acts(state, Task::Delete(index), Some(slots));
    let read = StateView { slots, ..state };
    law_delete_frees_one_slot(read, index, Seq::empty());
}

/// A jump goes by what the slot file holds, not by what was read before, and leaves the
/// file as it is.
pub proof fn law_jump_goes_by_the_file(
    state: StateView,
    index: usize,
    slots: Seq<Option<SlotView>>,
)
    requires
        state.host_folder_ready,
    ensures
        ({
            let end = World::starting(state, Task::Jump(index), Some(slots)).run();
            &&& end.agenda.len() == 0
            &&& end.file == Some(slots)
            &&& end.state == (StateView { slots, ..state })
            &&& index >= slots.len() || slots[index as int] is None ==> end.done.len() == 0
            &&& index < slots.len() && slots[index as int] is Some ==> {
                let slot = slots[index as int]->0;
                &&& end.done.len() == 2
                &&& state.current_session_name == Some(slot.session_name) ==> end.done[0] == (
                ActionView::FocusTerminalPane {
                    pane_id: slot.pane_id,
                    should_float_if_hidden: true,
                })
                &&& state.current_session_name != Some(slot.session_name) ==> end.done[0] == (
                ActionView::SwitchSession {
                    session_name: slot.session_name,
                    tab_position: Some(slot.tab_position),
                    pane: Some((slot.pane_id, false)),
                })
                &&& end.done[1] == ActionView::HideSelf
            }
        }),
{
    law_task_reads_then_acts(state, Task::Jump(index), Some(slots));
    law_slot_at_place(slots, index);
}

} // verus!
