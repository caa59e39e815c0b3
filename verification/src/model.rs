//! The plugin as a transition system: what its state says, and what the state and the
//! steps to take are after each thing that can happen.

use crate::host::{
    act_steps, context_value, ActionView, EventView, FileReadView, PendingAction, PermissionStatus,
    ReactionView, StepView, Task,
};
use crate::keys::{key_place, shifted_slot_keys, slot_keys, slot_of_char, BareKey, SLOT_COUNT};
use crate::layout::{
    focused_pane, focused_tab, lemma_first_match_satisfies, PaneInfoView, PaneView, TabView,
};
use crate::slots::{slot_at, with_slot, without_slot, SlotView};
use crate::sync::synced_slots;
use crate::text::{parsed_usize, trimmed};
use vstd::prelude::*;
use vstd::utf8::{decode_utf8, valid_utf8};

verus! {

/// What a [`State`](crate::state::State) says.
#[verifier::ext_equal]
pub struct StateView {
    pub slots: Seq<Option<SlotView>>,
    pub host_folder_ready: bool,
    pub pending_actions: Seq<PendingAction>,
    pub error: Option<Seq<char>>,
    pub current_session_name: Option<Seq<char>>,
    pub sessions: Option<Seq<Seq<char>>>,
    pub focused_pane: Option<PaneView>,
    pub tab_info: Option<Seq<TabView>>,
    pub pane_manifest: Option<Map<usize, Seq<PaneInfoView>>>,
    pub selected_slot: usize,
    pub awaiting_delete_key: bool,
}

impl StateView {
    /// What holds of every state that the plugin can be in: the cursor is on a slot that
    /// has a key, nothing waits any more once the folder is set up, and the focused pane is
    /// a focused terminal pane in an active tab.
    pub open spec fn well_formed(self) -> bool {
        &&& self.selected_slot < SLOT_COUNT
        &&& self.host_folder_ready ==> self.pending_actions.len() == 0
        &&& self.focused_pane matches Some(pane) ==> is_focused_terminal(pane)
    }

    /// The state at the start.
    pub open spec fn initial() -> StateView {
        StateView {
            slots: Seq::empty(),
            host_folder_ready: false,
            pending_actions: Seq::empty(),
            error: None,
            current_session_name: None,
            sessions: None,
            focused_pane: None,
            tab_info: None,
            pane_manifest: None,
            selected_slot: 0,
            awaiting_delete_key: false,
        }
    }

    /// This state with the failure `message`.
    pub open spec fn failed(self, message: Seq<char>) -> StateView {
        StateView { error: Some(message), ..self }
    }

    /// This state with the cursor one slot further down, from the last slot to the first.
    pub open spec fn selected_down(self) -> StateView {
        StateView { selected_slot: ((self.selected_slot + 1) % SLOT_COUNT as int) as usize, ..self }
    }

    /// This state with the cursor one slot further up, from the first slot to the last.
    pub open spec fn selected_up(self) -> StateView {
        StateView {
            selected_slot: if self.selected_slot == 0 {
                (SLOT_COUNT - 1) as usize
            } else {
                (self.selected_slot - 1) as usize
            },
            ..self
        }
    }

    /// The focused terminal pane of the focused tab, as far as tabs and panes are known.
    pub open spec fn visible_pane(self) -> Option<PaneView> {
        match (self.pane_manifest, self.tab_info) {
            (Some(manifest), Some(tabs)) => match focused_tab(tabs) {
                Some(tab) => match focused_pane(tab.position, manifest) {
                    Some(pane) => Some(PaneView { pane_info: pane, tab_info: tab }),
                    None => None,
                },
                None => None,
            },
            _ => None,
        }
    }

    /// This state with the focused pane brought up to date. Where none is visible, the
    /// last one stays.
    pub open spec fn panes_updated(self) -> StateView {
        match self.visible_pane() {
            Some(pane) => StateView { focused_pane: Some(pane), ..self },
            None => self,
        }
    }

    /// This state with the slots of the current session brought up to date, as far as
    /// session and tabs are known.
    pub open spec fn synced(self) -> StateView {
        match (self.tab_info, self.current_session_name) {
            (Some(tabs), Some(session)) => StateView {
                slots: synced_slots(self.slots, session, tabs, self.pane_manifest),
                ..self
            },
            _ => self,
        }
    }

    /// What has to be asked of the host for the slots to be read: nothing as long as the
    /// folder of the slot file is not set up.
    pub open spec fn load_action(self) -> Option<ActionView> {
        if self.host_folder_ready {
            Some(ActionView::LoadSlots)
        } else {
            None
        }
    }

    /// The state once the slot file was read.
    pub open spec fn after_read(self, read: FileReadView) -> StateView {
        match read {
            FileReadView::Contents(_) => self,
            FileReadView::NotFound => StateView { slots: Seq::empty(), ..self },
            FileReadView::Failed(message) => self.failed("Load failed: "@ + message),
        }
    }

    /// The text that has to be parsed once the slot file was read.
    pub open spec fn text_to_parse(read: FileReadView) -> Option<Seq<char>> {
        match read {
            FileReadView::Contents(text) => Some(trimmed(text)),
            _ => None,
        }
    }

    /// The state once the text of the slot file was parsed.
    pub open spec fn after_parse(
        self,
        parsed: Result<Seq<Option<SlotView>>, Seq<char>>,
    ) -> StateView {
        match parsed {
            Ok(slots) => StateView { slots, ..self },
            Err(message) => self.failed("Parse failed: "@ + message),
        }
    }

    /// The state once the slot file was written.
    pub open spec fn after_save(self, saved: Result<(), Seq<char>>) -> StateView {
        match saved {
            Ok(_) => self,
            Err(message) => self.failed("Save failed: "@ + message),
        }
    }

    /// Whether both the session and a focused pane are known, so that a slot can be
    /// assigned.
    pub open spec fn can_assign(self) -> bool {
        self.current_session_name is Some && self.focused_pane is Some
    }

    /// The slot that leads to the focused pane.
    pub open spec fn slot_to_assign(self) -> SlotView
        recommends
            self.can_assign(),
    {
        let pane = self.focused_pane->0;
        SlotView {
            session_name: self.current_session_name->0,
            tab_name: pane.tab_info.name,
            tab_position: pane.tab_info.position,
            pane_id: pane.pane_info.id,
            pane_title: pane.pane_info.title,
        }
    }

    /// The state once the slot at `index` leads to the focused pane.
    pub open spec fn assigned(self, index: usize) -> StateView {
        if self.can_assign() {
            StateView {
                slots: with_slot(self.slots, index as int, self.slot_to_assign()),
                ..self
            }
        } else {
            self
        }
    }

    /// What the host is asked for when the slot at `index` is assigned.
    pub open spec fn assign_actions(self, index: usize) -> Seq<ActionView> {
        if self.can_assign() {
            seq![ActionView::SaveSlots(self.assigned(index).slots), ActionView::HideSelf]
        } else {
            seq![]
        }
    }

    /// The state once the slot at `index` is free.
    pub open spec fn deleted(self, index: usize) -> StateView {
        StateView { slots: without_slot(self.slots, index as int), ..self }
    }

    /// What the host is asked for when the slot at `index` is freed.
    pub open spec fn delete_actions(self, index: usize) -> Seq<ActionView> {
        if index < self.slots.len() {
            seq![ActionView::SaveSlots(self.deleted(index).slots)]
        } else {
            seq![]
        }
    }

    /// What the host is asked for to go to the pane of `slot`: to focus it, in the
    /// session that the plugin runs in, or else to switch to its session.
    pub open spec fn go_to(self, slot: SlotView) -> ActionView {
        if self.current_session_name == Some(slot.session_name) {
            ActionView::FocusTerminalPane { pane_id: slot.pane_id, should_float_if_hidden: true }
        } else {
            ActionView::SwitchSession {
                session_name: slot.session_name,
                tab_position: Some(slot.tab_position),
                pane: Some((slot.pane_id, false)),
            }
        }
    }

    /// What the host is asked for when the slot at `index` is jumped to.
    pub open spec fn jump_actions(self, index: usize) -> Seq<ActionView> {
        match slot_at(self.slots, index as int) {
            Some(slot) => seq![self.go_to(slot), ActionView::HideSelf],
            None => seq![],
        }
    }

    /// Whether a session with the name `name` is running, as far as is known.
    pub open spec fn session_online(self, name: Seq<char>) -> bool {
        match self.sessions {
            Some(sessions) => sessions.contains(name),
            None => false,
        }
    }

    /// Whether `task` is taken up at all.
    pub open spec fn takes_up(self, task: Task) -> bool {
        task is Assign ==> self.can_assign()
    }

    /// The state once `task` is done, when its slots have been read.
    pub open spec fn finished(self, task: Task) -> StateView {
        match task {
            Task::Assign(index) => self.assigned(index),
            Task::Delete(index) => self.deleted(index),
            Task::Jump(_) | Task::Reload => self,
        }
    }

    /// What the host is asked for when `task` is done.
    pub open spec fn finish_actions(self, task: Task) -> Seq<ActionView> {
        match task {
            Task::Jump(index) => self.jump_actions(index),
            Task::Assign(index) => self.assign_actions(index),
            Task::Delete(index) => self.delete_actions(index),
            Task::Reload => seq![],
        }
    }

    /// The state, the steps that are left and the action for the host after the first of
    /// `agenda` was taken.
    pub open spec fn advanced(self, agenda: Seq<StepView>) -> (
        StateView,
        Seq<StepView>,
        Option<ActionView>,
    ) {
        if agenda.len() == 0 {
            (self, agenda, None)
        } else {
            let rest = agenda.drop_first();
            match agenda[0] {
                StepView::Act(action) => (self, rest, Some(action)),
                StepView::Begin(task) => if self.takes_up(task) {
                    (self, seq![StepView::Finish(task)] + rest, self.load_action())
                } else {
                    (self, rest, None)
                },
                StepView::Finish(task) => (
                    self.finished(task),
                    act_steps(self.finish_actions(task)) + rest,
                    None,
                ),
            }
        }
    }

    /// The state and the steps to take after the command that looks up the home folder.
    pub open spec fn home_resolved(self, exit_code: Option<i32>, stdout: Seq<u8>) -> (
        StateView,
        Seq<StepView>,
    ) {
        if exit_code != Some(0i32) {
            (self.failed("Failed to resolve $HOME"@), seq![])
        } else if !valid_utf8(stdout) {
            (self.failed("$HOME is not valid UTF-8"@), seq![])
        } else if trimmed(decode_utf8(stdout)).len() == 0 {
            (self.failed("$HOME is empty"@), seq![])
        } else {
            let config_dir = trimmed(decode_utf8(stdout)) + "/.config/zellij"@;
            (self, seq![StepView::Act(make_dir(config_dir))])
        }
    }

    /// The state and the steps to take after the command that creates the folder of the
    /// slot file.
    pub open spec fn folder_made(
        self,
        exit_code: Option<i32>,
        context: Seq<(Seq<char>, Seq<char>)>,
    ) -> (StateView, Seq<StepView>) {
        if exit_code != Some(0i32) {
            (self.failed("Failed to create config directory"@), seq![])
        } else {
            match context_value(context, "config_dir"@) {
                None => (self.failed("Missing config_dir in context"@), seq![]),
                Some(config_dir) => (
                    StateView {
                        host_folder_ready: true,
                        pending_actions: Seq::empty(),
                        ..self
                    },
                    seq![
                        StepView::Act(ActionView::ChangeHostFolder(config_dir)),
                        StepView::Begin(Task::Reload),
                    ] + pending_steps(self.pending_actions),
                ),
            }
        }
    }

    /// The state and the steps to take after a command has ended.
    pub open spec fn command_ended(
        self,
        exit_code: Option<i32>,
        stdout: Seq<u8>,
        context: Seq<(Seq<char>, Seq<char>)>,
    ) -> (StateView, Seq<StepView>) {
        let action = context_value(context, "action"@);
        if action == Some("resolve_home"@) {
            self.home_resolved(exit_code, stdout)
        } else if action == Some("mkdir_config"@) {
            self.folder_made(exit_code, context)
        } else {
            (self, seq![])
        }
    }

    /// The state and the reaction after a key that may name a slot to free.
    pub open spec fn delete_key_pressed(self, key: BareKey) -> (StateView, ReactionView) {
        let steps = match key {
            BareKey::Char(c) => match slot_of_char(c) {
                Some(index) => seq![StepView::Begin(Task::Delete(index))],
                None => seq![],
            },
            _ => seq![],
        };
        (
            StateView { awaiting_delete_key: false, ..self },
            ReactionView { should_render: true, steps },
        )
    }

    /// The state and the reaction after a letter, when no slot to free is asked for.
    pub open spec fn letter_pressed(self, c: char) -> (StateView, ReactionView) {
        if key_place(slot_keys(), c) is Some {
            (self, begin(Task::Jump(key_place(slot_keys(), c)->0)))
        } else if key_place(shifted_slot_keys(), c) is Some {
            (self, begin(Task::Assign(key_place(shifted_slot_keys(), c)->0)))
        } else if c == 'd' {
            (StateView { awaiting_delete_key: true, ..self }, redraw())
        } else if c == 'j' {
            (self.selected_down(), redraw())
        } else if c == 'k' {
            (self.selected_up(), redraw())
        } else if c == 'l' {
            (self, begin(Task::Jump(self.selected_slot)))
        } else if c == 'r' {
            (
                self,
                ReactionView { should_render: true, steps: seq![StepView::Begin(Task::Reload)] },
            )
        } else if c == 'c' {
            (self, close())
        } else {
            (self, no_reaction())
        }
    }

    /// The state and the reaction after a key.
    pub open spec fn key_pressed(self, key: BareKey) -> (StateView, ReactionView) {
        if self.awaiting_delete_key {
            self.delete_key_pressed(key)
        } else {
            match key {
                BareKey::Char(c) => self.letter_pressed(c),
                BareKey::Down => (self.selected_down(), redraw()),
                BareKey::Up => (self.selected_up(), redraw()),
                BareKey::Enter => (self, begin(Task::Jump(self.selected_slot))),
                BareKey::Esc => (self, close()),
                BareKey::Other => (self, no_reaction()),
            }
        }
    }

    /// The state once tabs or panes have changed: the focused pane and the slots are
    /// brought up to date.
    pub open spec fn refreshed(self) -> StateView {
        self.panes_updated().synced()
    }

    /// The reaction to changed tabs or panes: slots that changed are saved.
    pub open spec fn refresh_reaction(self) -> ReactionView {
        ReactionView {
            should_render: true,
            steps: if self.refreshed().slots == self.slots {
                seq![]
            } else {
                seq![StepView::Act(ActionView::SaveSlots(self.refreshed().slots))]
            },
        }
    }

    /// The state and the reaction after `event`.
    pub open spec fn updated(self, event: EventView) -> (StateView, ReactionView) {
        match event {
            EventView::PermissionRequestResult(PermissionStatus::Granted) => (
                self,
                ReactionView { should_render: true, steps: seq![StepView::Act(resolve_home())] },
            ),
            EventView::PermissionRequestResult(PermissionStatus::Denied) => (
                self.failed("Permissions denied. Please grant all requested permissions."@),
                redraw(),
            ),
            EventView::RunCommandResult { exit_code, stdout, context } => {
                let (state, steps) = self.command_ended(exit_code, stdout, context);
                (state, ReactionView { should_render: true, steps })
            },
            EventView::ModeUpdate(session_name) => (
                StateView { current_session_name: session_name, ..self },
                redraw(),
            ),
            EventView::SessionUpdate(sessions) => (
                StateView { sessions: Some(sessions), ..self },
                redraw(),
            ),
            EventView::TabUpdate(tabs) => {
                let state = StateView { tab_info: Some(tabs), ..self };
                (state.refreshed(), state.refresh_reaction())
            },
            EventView::PaneUpdate(manifest) => {
                let state = StateView { pane_manifest: Some(manifest), ..self };
                (state.refreshed(), state.refresh_reaction())
            },
            EventView::Key(key) => self.key_pressed(key),
            EventView::Other => (self, no_reaction()),
        }
    }

    /// The state and the reaction after a piped request to take up `pending`: it waits
    /// as long as the folder of the slot file is not set up.
    pub open spec fn requested(self, pending: PendingAction) -> (StateView, ReactionView) {
        if self.host_folder_ready {
            (self, begin(pending_task(pending)))
        } else {
            (
                StateView { pending_actions: self.pending_actions.push(pending), ..self },
                no_reaction(),
            )
        }
    }

    /// The state and the reaction after a piped message.
    pub open spec fn piped(self, name: Seq<char>, payload: Option<Seq<char>>) -> (
        StateView,
        ReactionView,
    ) {
        match payload {
            Some(text) => match parsed_usize(text) {
                Some(slot) => if name == "jump"@ {
                    self.requested(PendingAction::Jump(slot))
                } else if name == "assign"@ {
                    self.requested(PendingAction::Assign(slot))
                } else {
                    (self, no_reaction())
                },
                None => (self, no_reaction()),
            },
            None => (self, no_reaction()),
        }
    }
}

/// Whether `pane` is a focused terminal pane in an active tab.
pub open spec fn is_focused_terminal(pane: PaneView) -> bool {
    pane.tab_info.active && pane.pane_info.is_focused && !pane.pane_info.is_plugin
}

/// The pane that is visible is a focused terminal pane in an active tab, so bringing the
/// focused pane up to date keeps a state well-formed.
pub proof fn lemma_refreshed_is_well_formed(state: StateView)
    requires
        state.well_formed(),
    ensures
        state.visible_pane() matches Some(pane) ==> is_focused_terminal(pane),
        state.refreshed().well_formed(),
{
    if let Some(pane) = state.visible_pane() {
        let tabs = state.tab_info->0;
        let manifest = state.pane_manifest->0;
        lemma_first_match_satisfies(tabs, |tab: TabView| tab.active);
        lemma_first_match_satisfies(
            manifest[pane.tab_info.position],
            |p: PaneInfoView| p.is_focused && !p.is_plugin,
        );
    }
}

/// Nothing to do and nothing to draw.
pub open spec fn no_reaction() -> ReactionView {
    ReactionView { should_render: false, steps: seq![] }
}

/// Nothing to do but to draw the screen.
pub open spec fn redraw() -> ReactionView {
    ReactionView { should_render: true, steps: seq![] }
}

/// To start `task`.
pub open spec fn begin(task: Task) -> ReactionView {
    ReactionView { should_render: false, steps: seq![StepView::Begin(task)] }
}

/// To hide the plugin.
pub open spec fn close() -> ReactionView {
    ReactionView { should_render: false, steps: seq![StepView::Act(ActionView::HideSelf)] }
}

/// The task that a request that waited asks for.
pub open spec fn pending_task(pending: PendingAction) -> Task {
    match pending {
        PendingAction::Jump(slot) => Task::Jump(slot),
        PendingAction::Assign(slot) => Task::Assign(slot),
    }
}

/// The steps that take up the requests that waited, in the order in which they came.
pub open spec fn pending_steps(pending: Seq<PendingAction>) -> Seq<StepView> {
    pending.map_values(|p: PendingAction| StepView::Begin(pending_task(p)))
}

/// The command that looks up the home folder.
pub open spec fn resolve_home() -> ActionView {
    ActionView::RunCommand {
        command: seq!["sh"@, "-c"@, "echo $HOME"@],
        context: seq![("action"@, "resolve_home"@)],
    }
}

/// The command that creates the folder `config_dir`.
pub open spec fn make_dir(config_dir: Seq<char>) -> ActionView {
    ActionView::RunCommand {
        command: seq!["mkdir"@, "-p"@, config_dir],
        context: seq![("action"@, "mkdir_config"@), ("config_dir"@, config_dir)],
    }
}

} // verus!
