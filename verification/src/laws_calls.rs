//! What callers of the plugin get back from the calls that only look at its state.

use crate::host::{
    actions_view, steps_view, strings_view, Action, ActionView, EventType, PermissionType, Step,
    StepView, Task,
};
use crate::state::State;
use vstd::prelude::*;

verus! {

/// Before the screen is drawn, the slots are read again, whatever the state is.
pub proof fn law_slots_are_read_before_drawing(state: &State, steps: Vec<Step>)
    requires
        call_ensures(State::before_render, (state,), steps),
    ensures
        steps_view(steps@) == seq![StepView::Begin(Task::Reload)],
{
}

/// What is drawn depends on the state and the width, not on the height.
pub proof fn law_screen_ignores_height(
    state: &State,
    rows: usize,
    other_rows: usize,
    cols: usize,
    lines: Vec<String>,
    other_lines: Vec<String>,
)
    requires
        call_ensures(State::render, (state, rows, cols), lines),
        call_ensures(State::render, (state, other_rows, cols), other_lines),
    ensures
        strings_view(lines@) == strings_view(other_lines@),
        strings_view(lines@) == state@.screen(cols),
{
}

/// A save writes the slots as they are.
pub proof fn law_saves_write_the_slots(state: &State, action: Action)
    requires
        call_ensures(State::save_to_disk, (state,), action),
    ensures
        action@ == ActionView::SaveSlots(state.harpoon_data@),
{
}

/// When it is loaded, the plugin asks for the four permissions that it needs and then for
/// the seven kinds of events that it reacts to.
pub proof fn law_loading_asks_for_all_it_needs(
    state: &State,
    actions: Vec<Action>,
    event_type: EventType,
)
    requires
        call_ensures(State::load, (state,), actions),
    ensures
        actions@.len() == 2,
        actions@[0] matches Action::RequestPermission(permissions) && permissions@ == seq![
            PermissionType::ReadApplicationState,
            PermissionType::ChangeApplicationState,
            PermissionType::RunCommands,
            PermissionType::FullHdAccess,
        ],
        actions@[1] matches Action::Subscribe(event_types) && event_types@.contains(event_type)
            && event_types@.no_duplicates(),
{
    let views = actions_view(actions@);
    assert(views.len() == 2);
    assert(views[0] is RequestPermission);
    assert(views[1] is Subscribe);
    let asked_for = views[1]->Subscribe_0;
    assert(asked_for.len() == 7);
    assert(asked_for[0] is Key && asked_for[1] is TabUpdate && asked_for[2] is PaneUpdate);
    assert(asked_for[3] is SessionUpdate && asked_for[4] is ModeUpdate);
    assert(asked_for[5] is RunCommandResult && asked_for[6] is PermissionRequestResult);
}

} // verus!
