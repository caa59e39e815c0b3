//! The views leave nothing out: what the contracts speak of is what the values hold.

use crate::host::{
    actions_view, context_view, opt_action_view, opt_string_view, steps_view, strings_view, Action,
    ActionView, Event, EventView, FileRead, FileReadView, Reaction, Step, StepView,
};
use crate::layout::{
    opt_pane_info_view, opt_tab_view, panes_view, session_names, tabs_view, Pane, PaneInfo,
    PaneManifest, SessionInfo, TabInfo,
};
use crate::slots::{entry_view, HarpoonData, HarpoonSlot};
use crate::state::State;
use crate::sync::opt_manifest_view;
use vstd::prelude::*;

verus! {

/// The view of a list has the view of each element, at the same place.
pub proof fn law_list_views(
    tabs: Seq<TabInfo>,
    panes: Seq<PaneInfo>,
    sessions: Seq<SessionInfo>,
    strings: Seq<String>,
    context: Seq<(String, String)>,
    i: int,
)
    ensures
        tabs_view(tabs).len() == tabs.len(),
        panes_view(panes).len() == panes.len(),
        session_names(sessions).len() == sessions.len(),
        strings_view(strings).len() == strings.len(),
        context_view(context).len() == context.len(),
        0 <= i < tabs.len() ==> tabs_view(tabs)[i] == tabs[i]@,
        0 <= i < panes.len() ==> panes_view(panes)[i] == panes[i]@,
        0 <= i < sessions.len() ==> session_names(sessions)[i] == sessions[i].name@,
        0 <= i < strings.len() ==> strings_view(strings)[i] == strings[i]@,
        0 <= i < context.len() ==> context_view(context)[i].0 == context[i].0@ && context_view(
            context,
        )[i].1 == context[i].1@,
{
}

/// The view of a list of actions or steps has the view of each, at the same place.
pub proof fn law_plan_views(actions: Seq<Action>, steps: Seq<Step>, i: int)
    ensures
        actions_view(actions).len() == actions.len(),
        steps_view(steps).len() == steps.len(),
        0 <= i < actions.len() ==> actions_view(actions)[i] == actions[i]@,
        0 <= i < steps.len() ==> steps_view(steps)[i] == steps[i]@,
{
}

/// The views of tabs, panes and slots hold every field.
pub proof fn law_record_views(tab: TabInfo, info: PaneInfo, pane: Pane, slot: HarpoonSlot)
    ensures
        tab@.position == tab.position,
        tab@.name == tab.name@,
        tab@.active == tab.active,
        info@.id == info.id,
        info@.is_plugin == info.is_plugin,
        info@.is_focused == info.is_focused,
        info@.title == info.title@,
        pane@.pane_info == pane.pane_info@,
        pane@.tab_info == pane.tab_info@,
        slot@.session_name == slot.session_name@,
        slot@.tab_name == slot.tab_name@,
        slot@.tab_position == slot.tab_position,
        slot@.pane_id == slot.pane_id,
        slot@.pane_title == slot.pane_title@,
{
}

/// The view of a manifest lists the same tabs, and the panes of each.
pub proof fn law_manifest_view(manifest: PaneManifest, position: usize)
    ensures
        manifest@.contains_key(position) <==> manifest.panes@.contains_key(position),
        manifest.panes@.contains_key(position) ==> manifest@[position] == panes_view(
            manifest.panes@[position]@,
        ),
{
}

/// The view of a list of slots has the slot of each taken place, and no other.
pub proof fn law_slots_view(data: HarpoonData, i: int)
    ensures
        data@.len() == data.slots@.len(),
        0 <= i < data.slots@.len() ==> (data@[i] is Some <==> data.slots@[i] is Some),
        0 <= i < data.slots@.len() && data.slots@[i] is Some ==> data@[i]->0
            == data.slots@[i]->0@,
{
}

/// The view of an optional value is the view of the value, where there is one.
pub proof fn law_optional_views(
    slot: HarpoonSlot,
    tab: TabInfo,
    info: PaneInfo,
    manifest: PaneManifest,
)
    ensures
        entry_view(Some(slot)) == Some(slot@),
        entry_view(None) is None,
        opt_tab_view(Some(tab)) == Some(tab@),
        opt_tab_view(None) is None,
        opt_pane_info_view(Some(info)) == Some(info@),
        opt_pane_info_view(None) is None,
        opt_manifest_view(Some(manifest)) == Some(manifest@),
        opt_manifest_view(None) is None,
{
}

/// The view of a state holds every field.
pub proof fn law_state_view(state: State)
    ensures
        state@.slots == state.harpoon_data@,
        state@.host_folder_ready == state.host_folder_ready,
        state@.pending_actions == state.pending_actions@,
        state@.error is Some <==> state.error is Some,
        state.error matches Some(error) ==> state@.error == Some(error@),
        state@.current_session_name is Some <==> state.current_session_name is Some,
        state.current_session_name matches Some(name) ==> state@.current_session_name == Some(
            name@,
        ),
        state@.sessions is Some <==> state.sessions is Some,
        state.sessions matches Some(sessions) ==> state@.sessions == Some(
            session_names(sessions@),
        ),
        state@.focused_pane is Some <==> state.focused_pane is Some,
        state.focused_pane matches Some(pane) ==> state@.focused_pane == Some(pane@),
        state@.tab_info is Some <==> state.tab_info is Some,
        state.tab_info matches Some(tabs) ==> state@.tab_info == Some(tabs_view(tabs@)),
        state@.pane_manifest is Some <==> state.pane_manifest is Some,
        state.pane_manifest matches Some(manifest) ==> state@.pane_manifest == Some(manifest@),
        state@.selected_slot == state.selected_slot,
        state@.awaiting_delete_key == state.awaiting_delete_key,
{
}

/// The view of an event holds what the event brings.
pub proof fn law_event_view(event: Event)
    ensures
        match event {
            Event::PermissionRequestResult(status) => event@
                == EventView::PermissionRequestResult(status),
            Event::RunCommandResult { exit_code, stdout, context } => event@ == (
            EventView::RunCommandResult {
                exit_code,
                stdout: stdout@,
                context: context_view(context@),
            }),
            Event::ModeUpdate(Some(name)) => event@ == EventView::ModeUpdate(Some(name@)),
            Event::ModeUpdate(None) => event@ == EventView::ModeUpdate(None),
            Event::SessionUpdate(sessions) => event@ == EventView::SessionUpdate(
                session_names(sessions@),
            ),
            Event::TabUpdate(tabs) => event@ == EventView::TabUpdate(tabs_view(tabs@)),
            Event::PaneUpdate(manifest) => event@ == EventView::PaneUpdate(manifest@),
            Event::Key(key) => event@ == EventView::Key(key),
            Event::Other => event@ == EventView::Other,
        },
{
}

/// The view of an action holds everything that the host is told.
pub proof fn law_action_view(action: Action)
    ensures
        opt_action_view(Some(action)) == Some(action@),
        opt_action_view(None) is None,
        match action {
            Action::RequestPermission(permissions) => action@ == ActionView::RequestPermission(
                permissions@,
            ),
            Action::Subscribe(event_types) => action@ == ActionView::Subscribe(event_types@),
            Action::RunCommand { command, context } => action@ == (ActionView::RunCommand {
                command: strings_view(command@),
                context: context_view(context@),
            }),
            Action::ChangeHostFolder(folder) => action@ == ActionView::ChangeHostFolder(folder@),
            Action::LoadSlots => action@ == ActionView::LoadSlots,
            Action::SaveSlots(data) => action@ == ActionView::SaveSlots(data@),
            Action::FocusTerminalPane { pane_id, should_float_if_hidden } => action@ == (
            ActionView::FocusTerminalPane { pane_id, should_float_if_hidden }),
            Action::SwitchSession { session_name, tab_position, pane } => action@ == (
            ActionView::SwitchSession { session_name: session_name@, tab_position, pane }),
            Action::HideSelf => action@ == ActionView::HideSelf,
        },
{
}

/// The views of steps, reactions, readings and optional texts hold all there is.
pub proof fn law_step_view(step: Step, reaction: Reaction, read: FileRead, text: Option<String>)
    ensures
        match step {
            Step::Begin(task) => step@ == StepView::Begin(task),
            Step::Finish(task) => step@ == StepView::Finish(task),
            Step::Act(action) => step@ == StepView::Act(action@),
        },
        reaction@.should_render == reaction.should_render,
        reaction@.steps == steps_view(reaction.steps@),
        match read {
            FileRead::Contents(contents) => read@ == FileReadView::Contents(contents@),
            FileRead::NotFound => read@ == FileReadView::NotFound,
            FileRead::Failed(message) => read@ == FileReadView::Failed(message@),
        },
        match text {
            Some(text) => opt_string_view(Some(text)) == Some(text@),
            None => opt_string_view(None) is None,
        },
{
}

} // verus!
