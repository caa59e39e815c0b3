//! The plugin's state and how it reacts to what happens.
//!
//! A reaction is decided here and carried out by the host: [`State::update`] and
//! [`State::pipe`] return the steps of the reaction, and [`State::advance`] takes one
//! step at a time, handing out the actions that the host has to perform. What became of
//! an action comes back through [`State::file_read`], [`State::slots_parsed`] and
//! [`State::save_finished`].

use crate::host::{
    actions_view, context_get, context_view, opt_action_view, opt_string_view, steps_of_actions,
    steps_view, Action, ActionView, Event, EventType, EventView, FileRead, PendingAction,
    PermissionStatus, PermissionType, PipeMessage, Reaction, Step, Task,
};
use crate::keys::{char_to_slot_index, BareKey, SLOT_COUNT};
use crate::layout::{
    get_focused_pane, get_focused_tab, session_names, tabs_view, Pane, PaneManifest, SessionInfo,
    TabInfo,
};
use crate::model::{
    begin, lemma_refreshed_is_well_formed, make_dir, pending_steps, pending_task, resolve_home,
    StateView,
};
use crate::slots::{HarpoonData, HarpoonSlot};
use crate::text::{joined, parse_usize, same_text, string_from_utf8, trim};
use vstd::prelude::*;

verus! {

/// The state of the plugin.
#[derive(Debug)]
pub struct State {
    /// The slots, as last read or changed.
    pub harpoon_data: HarpoonData,
    /// Whether the folder of the slot file is set up.
    pub host_folder_ready: bool,
    /// Requests that wait for that folder.
    pub pending_actions: Vec<PendingAction>,
    /// The last failure.
    pub error: Option<String>,
    /// The session that the plugin runs in, where it is known.
    pub current_session_name: Option<String>,
    /// The sessions that are running, where they are known.
    pub sessions: Option<Vec<SessionInfo>>,
    /// The terminal pane that was focused last.
    pub focused_pane: Option<Pane>,
    /// The tabs of the session, where they are known.
    pub tab_info: Option<Vec<TabInfo>>,
    /// The panes of the session, where they are known.
    pub pane_manifest: Option<PaneManifest>,
    /// The slot that the cursor is on.
    pub selected_slot: usize,
    /// Whether the next key names a slot to free.
    pub awaiting_delete_key: bool,
}

impl View for State {
    type V = StateView;

    open spec fn view(&self) -> StateView {
        StateView {
            slots: self.harpoon_data@,
            host_folder_ready: self.host_folder_ready,
            pending_actions: self.pending_actions@,
            error: opt_string_view(self.error),
            current_session_name: opt_string_view(self.current_session_name),
            sessions: match self.sessions {
                Some(sessions) => Some(session_names(sessions@)),
                None => None,
            },
            focused_pane: match self.focused_pane {
                Some(pane) => Some(pane@),
                None => None,
            },
            tab_info: match self.tab_info {
                Some(tabs) => Some(tabs_view(tabs@)),
                None => None,
            },
            pane_manifest: match self.pane_manifest {
                Some(manifest) => Some(manifest@),
                None => None,
            },
            selected_slot: self.selected_slot,
            awaiting_delete_key: self.awaiting_delete_key,
        }
    }
}

impl Default for State {
    fn default() -> (r: Self)
        ensures
            r@ == StateView::initial(),
            r@.well_formed(),
    {
        State {
            harpoon_data: HarpoonData::default(),
            host_folder_ready: false,
            pending_actions: Vec::new(),
            error: None,
            current_session_name: None,
            sessions: None,
            focused_pane: None,
            tab_info: None,
            pane_manifest: None,
            selected_slot: 0,
            awaiting_delete_key: false,
        }
    }
}

impl State {
    /// Moves the cursor one slot down, from the last slot to the first.
    pub fn select_down(&mut self)
        requires
            old(self)@.selected_slot < usize::MAX,
        ensures
            final(self)@ == old(self)@.selected_down(),
    {
        self.selected_slot = (self.selected_slot + 1) % SLOT_COUNT;
    }

    /// Moves the cursor one slot up, from the first slot to the last.
    pub fn select_up(&mut self)
        ensures
            final(self)@ == old(self)@.selected_up(),
    {
        if self.selected_slot == 0 {
            self.selected_slot = SLOT_COUNT - 1;
        } else {
            self.selected_slot = self.selected_slot - 1;
        }
    }

    /// Brings the focused pane up to date. Returns `None`, and changes nothing, where no
    /// focused terminal pane is visible.
    pub fn update_panes(&mut self) -> (r: Option<()>)
        ensures
            final(self)@ == old(self)@.panes_updated(),
            r is Some <==> old(self)@.visible_pane() is Some,
    {
        let pane_manifest = match &self.pane_manifest {
            Some(pane_manifest) => pane_manifest,
            None => return None,
        };
        let tab_info = match &self.tab_info {
            Some(tab_info) => tab_info,
            None => return None,
        };
        let focused_tab = match get_focused_tab(tab_info) {
            Some(tab) => tab,
            None => return None,
        };
        let focused_pane_info = match get_focused_pane(focused_tab.position, pane_manifest) {
            Some(pane) => pane,
            None => return None,
        };
        self.focused_pane = Some(Pane { pane_info: focused_pane_info, tab_info: focused_tab });
        Some(())
    }

    /// Brings the slots of the current session up to date. Returns the action that saves
    /// them, where any of them changed.
    pub fn sync_slots_with_state(&mut self) -> (r: Option<Action>)
        ensures
            final(self)@ == old(self)@.synced(),
            opt_action_view(r) == if final(self)@.slots == old(self)@.slots {
                None
            } else {
                Some(ActionView::SaveSlots(final(self)@.slots))
            },
    {
        let tab_info = match &self.tab_info {
            Some(tab_info) => tab_info,
            None => return None,
        };
        let session_name = match &self.current_session_name {
            Some(session_name) => session_name,
            None => return None,
        };
        let changed = self.harpoon_data.sync_slots(session_name, tab_info, &self.pane_manifest);
        if changed {
            Some(self.save_to_disk())
        } else {
            None
        }
    }

    /// The action that writes the slots to the slot file.
    pub fn save_to_disk(&self) -> (r: Action)
        ensures
            r@ == ActionView::SaveSlots(self@.slots),
    {
        Action::SaveSlots(self.harpoon_data.clone())
    }

    /// Takes in whether the slot file could be written: a failure, with its description,
    /// is shown from now on.
    pub fn save_finished(&mut self, saved: Result<(), String>)
        ensures
            final(self)@ == old(self)@.after_save(
                match saved {
                    Ok(_) => Ok(()),
                    Err(message) => Err(message@),
                },
            ),
    {
        match saved {
            Ok(_) => {},
            Err(message) => {
                self.error = Some(joined("Save failed: ", message.as_str()));
            },
        }
    }

    /// The action that reads the slot file. There is none as long as the folder of that
    /// file is not set up.
    pub fn load_from_disk(&self) -> (r: Option<Action>)
        ensures
            opt_action_view(r) == self@.load_action(),
    {
        if self.host_folder_ready {
            Some(Action::LoadSlots)
        } else {
            None
        }
    }

    /// Takes in what reading the slot file gave. Without a file there are no slots; any
    /// other failure is shown from now on and leaves the slots as they are. Returns the
    /// text that has to be parsed next.
    pub fn file_read(&mut self, read: FileRead) -> (r: Option<String>)
        ensures
            final(self)@ == old(self)@.after_read(read@),
            opt_string_view(r) == StateView::text_to_parse(read@),
    {
        match read {
            FileRead::Contents(text) => Some(trim(text.as_str()).to_owned()),
            FileRead::NotFound => {
                self.harpoon_data = HarpoonData::default();
                None
            },
            FileRead::Failed(message) => {
                self.error = Some(joined("Load failed: ", message.as_str()));
                None
            },
        }
    }

    /// Takes in what parsing the slot file gave: the slots, or the description of a
    /// failure, which is shown from now on and leaves the slots as they are.
    pub fn slots_parsed(&mut self, parsed: Result<HarpoonData, String>)
        ensures
            final(self)@ == old(self)@.after_parse(
                match parsed {
                    Ok(data) => Ok(data@),
                    Err(message) => Err(message@),
                },
            ),
    {
        match parsed {
            Ok(data) => {
                self.harpoon_data = data;
            },
            Err(message) => {
                self.error = Some(joined("Parse failed: ", message.as_str()));
            },
        }
    }

    /// Lets the slot at `slot_index` lead to the focused pane, where session and pane are
    /// known. Returns what the host is asked for.
    pub fn assign_slot(&mut self, slot_index: usize) -> (r: Vec<Action>)
        ensures
            final(self)@ == old(self)@.assigned(slot_index),
            actions_view(r@) == old(self)@.assign_actions(slot_index),
    {
        let session_name = match &self.current_session_name {
            Some(session_name) => session_name.clone(),
            None => return Vec::new(),
        };
        let focused_pane = match &self.focused_pane {
            Some(focused_pane) => focused_pane.clone(),
            None => return Vec::new(),
        };
        let slot = HarpoonSlot {
            session_name,
            tab_name: focused_pane.tab_info.name,
            tab_position: focused_pane.tab_info.position,
            pane_id: focused_pane.pane_info.id,
            pane_title: focused_pane.pane_info.title,
        };
        self.harpoon_data.set_slot(slot_index, slot);
        let mut actions: Vec<Action> = Vec::new();
        actions.push(self.save_to_disk());
        actions.push(Action::HideSelf);
        actions
    }

    /// Frees the slot at `slot_index`. Returns what the host is asked for.
    pub fn delete_slot(&mut self, slot_index: usize) -> (r: Vec<Action>)
        ensures
            final(self)@ == old(self)@.deleted(slot_index),
            actions_view(r@) == old(self)@.delete_actions(slot_index),
    {
        let mut actions: Vec<Action> = Vec::new();
        if self.harpoon_data.clear_slot(slot_index) {
            actions.push(self.save_to_disk());
        }
        actions
    }

    /// What the host is asked for to go to the pane of the slot at `slot_index`: nothing,
    /// where the slot is free.
    pub fn jump_to_slot(&self, slot_index: usize) -> (r: Vec<Action>)
        ensures
            actions_view(r@) == self@.jump_actions(slot_index),
    {
        let mut actions: Vec<Action> = Vec::new();
        let slot_data = match self.harpoon_data.get_slot(slot_index) {
            Some(slot_data) => slot_data,
            None => return actions,
        };
        let in_current_session = match &self.current_session_name {
            Some(session_name) => *session_name == slot_data.session_name,
            None => false,
        };
        if in_current_session {
            actions.push(
                Action::FocusTerminalPane {
                    pane_id: slot_data.pane_id,
                    should_float_if_hidden: true,
                },
            );
        } else {
            actions.push(
                Action::SwitchSession {
                    session_name: slot_data.session_name.clone(),
                    tab_position: Some(slot_data.tab_position),
                    pane: Some((slot_data.pane_id, false)),
                },
            );
        }
        actions.push(Action::HideSelf);
        actions
    }

    /// Whether a session with the name `session_name` is running, as far as is known.
    pub fn is_session_online(&self, session_name: &str) -> (r: bool)
        ensures
            r == self@.session_online(session_name@),
    {
        let sessions = match &self.sessions {
            Some(sessions) => sessions,
            None => return false,
        };
        let wanted = session_name.to_owned();
        let mut i: usize = 0;
        while i < sessions.len()
            invariant
                i <= sessions.len(),
                wanted@ == session_name@,
                self@.sessions == Some(session_names(sessions@)),
                forall|j: int| 0 <= j < i ==> session_names(sessions@)[j] != session_name@,
            decreases sessions.len() - i,
        {
            if sessions[i].name == wanted {
                assert(session_names(sessions@)[i as int] == session_name@);
                return true;
            }
            i = i + 1;
        }
        false
    }

    /// Takes the first step of `agenda`. Returns the action that the host has to perform
    /// before the next step, where there is one.
    ///
    /// A task starts with the slot file being read, where its folder is set up, and ends
    /// in the actions that it asks for, which come next in the agenda.
    pub fn advance(&mut self, agenda: &mut Vec<Step>) -> (r: Option<Action>)
        ensures
            (final(self)@, steps_view(final(agenda)@), opt_action_view(r)) == old(self)@.advanced(
                steps_view(old(agenda)@),
            ),
            old(self)@.well_formed() ==> final(self)@.well_formed(),
    {
        if agenda.len() == 0 {
            return None;
        }
        let step = agenda.remove(0);
        assert(steps_view(agenda@) == steps_view(old(agenda)@).drop_first());
        match step {
            Step::Act(action) => Some(action),
            Step::Begin(task) => {
                if self.takes_up(task) {
                    agenda.insert(0, Step::Finish(task));
                    assert(steps_view(agenda@) == seq![Step::Finish(task)@] + steps_view(
                        old(agenda)@,
                    ).drop_first());
                    self.load_from_disk()
                } else {
                    None
                }
            },
            Step::Finish(task) => {
                let actions = match task {
                    Task::Jump(index) => self.jump_to_slot(index),
                    Task::Assign(index) => self.assign_slot(index),
                    Task::Delete(index) => self.delete_slot(index),
                    Task::Reload => Vec::new(),
                };
                let mut steps = steps_of_actions(actions);
                let ghost first = steps@;
                let ghost rest = agenda@;
                steps.append(agenda);
                assert(steps_view(first + rest) == steps_view(first) + steps_view(rest));
                *agenda = steps;
                None
            },
        }
    }

    /// Whether `task` is taken up at all: a slot is only assigned where session and
    /// focused pane are known.
    pub fn takes_up(&self, task: Task) -> (r: bool)
        ensures
            r == self@.takes_up(task),
    {
        match task {
            Task::Assign(_) => self.current_session_name.is_some() && self.focused_pane.is_some(),
            _ => true,
        }
    }

    /// Takes the requests that waited, in the order in which they came.
    pub fn drain_pending_actions(&mut self) -> (r: Vec<Step>)
        ensures
            final(self)@ == (StateView { pending_actions: Seq::empty(), ..old(self)@ }),
            steps_view(r@) == pending_steps(old(self)@.pending_actions),
    {
        let ghost all = self.pending_actions@;
        let mut steps: Vec<Step> = Vec::new();
        let mut i: usize = 0;
        while i < self.pending_actions.len()
            invariant
                *self == *old(self),
                all == self.pending_actions@,
                i <= all.len(),
                steps@.len() == i,
                forall|j: int|
                    0 <= j < i ==> #[trigger] steps@[j] == Step::Begin(pending_task(all[j])),
            decreases self.pending_actions.len() - i,
        {
            let task = match self.pending_actions[i] {
                PendingAction::Jump(slot) => Task::Jump(slot),
                PendingAction::Assign(slot) => Task::Assign(slot),
            };
            steps.push(Step::Begin(task));
            i = i + 1;
        }
        self.pending_actions = Vec::new();
        assert(steps_view(steps@) == pending_steps(all));
        steps
    }

    /// Reacts to the end of a command that the plugin ran. First the home folder is
    /// looked up, then the folder of the slot file is created below it; then the slots
    /// are read, and the requests that waited are taken up.
    pub fn handle_command_result(
        &mut self,
        exit_code: Option<i32>,
        stdout: Vec<u8>,
        context: Vec<(String, String)>,
    ) -> (r: Vec<Step>)
        ensures
            (final(self)@, steps_view(r@)) == old(self)@.command_ended(
                exit_code,
                stdout@,
                context_view(context@),
            ),
            old(self)@.well_formed() ==> final(self)@.well_formed(),
    {
        let action = match context_get(&context, "action") {
            Some(action) => action,
            None => return Vec::new(),
        };
        let succeeded = match exit_code {
            Some(code) => code == 0,
            None => false,
        };
        if same_text(action.as_str(), "resolve_home") {
            if !succeeded {
                self.error = Some("Failed to resolve $HOME".to_owned());
                return Vec::new();
            }
            let home = match string_from_utf8(stdout) {
                Some(home) => home,
                None => {
                    self.error = Some("$HOME is not valid UTF-8".to_owned());
                    return Vec::new();
                },
            };
            let home = trim(home.as_str());
            if home.is_empty() {
                self.error = Some("$HOME is empty".to_owned());
                return Vec::new();
            }
            let config_dir = joined(home, "/.config/zellij");
            let mut steps: Vec<Step> = Vec::new();
            steps.push(Step::Act(make_dir_action(&config_dir)));
            steps
        } else if same_text(action.as_str(), "mkdir_config") {
            if !succeeded {
                self.error = Some("Failed to create config directory".to_owned());
                return Vec::new();
            }
            let config_dir = match context_get(&context, "config_dir") {
                Some(config_dir) => config_dir.clone(),
                None => {
                    self.error = Some("Missing config_dir in context".to_owned());
                    return Vec::new();
                },
            };
            self.host_folder_ready = true;
            let mut pending = self.drain_pending_actions();
            let mut steps: Vec<Step> = Vec::new();
            steps.push(Step::Act(Action::ChangeHostFolder(config_dir)));
            steps.push(Step::Begin(Task::Reload));
            let ghost first = steps@;
            let ghost rest = pending@;
            steps.append(&mut pending);
            assert(steps_view(first + rest) == steps_view(first) + steps_view(rest));
            steps
        } else {
            Vec::new()
        }
    }

    /// What the host is asked for when the plugin is loaded.
    pub fn load(&self) -> (r: Vec<Action>)
        ensures
            actions_view(r@) == seq![
                ActionView::RequestPermission(
                    seq![
                        PermissionType::ReadApplicationState,
                        PermissionType::ChangeApplicationState,
                        PermissionType::RunCommands,
                        PermissionType::FullHdAccess,
                    ],
                ),
                ActionView::Subscribe(
                    seq![
                        EventType::Key,
                        EventType::TabUpdate,
                        EventType::PaneUpdate,
                        EventType::SessionUpdate,
                        EventType::ModeUpdate,
                        EventType::RunCommandResult,
                        EventType::PermissionRequestResult,
                    ],
                ),
            ],
    {
        let permissions = vec![
            PermissionType::ReadApplicationState,
            PermissionType::ChangeApplicationState,
            PermissionType::RunCommands,
            PermissionType::FullHdAccess,
        ];
        let event_types = vec![
            EventType::Key,
            EventType::TabUpdate,
            EventType::PaneUpdate,
            EventType::SessionUpdate,
            EventType::ModeUpdate,
            EventType::RunCommandResult,
            EventType::PermissionRequestResult,
        ];
        let mut actions: Vec<Action> = Vec::new();
        actions.push(Action::RequestPermission(permissions));
        actions.push(Action::Subscribe(event_types));
        actions
    }

    /// Reacts to `event`.
    pub fn update(&mut self, event: Event) -> (r: Reaction)
        requires
            old(self)@.well_formed(),
        ensures
            (final(self)@, r@) == old(self)@.updated(event@),
            final(self)@.well_formed(),
    {
        proof {
            match event@ {
                EventView::TabUpdate(tabs) => lemma_refreshed_is_well_formed(
                    StateView { tab_info: Some(tabs), ..self@ },
                ),
                EventView::PaneUpdate(manifest) => lemma_refreshed_is_well_formed(
                    StateView { pane_manifest: Some(manifest), ..self@ },
                ),
                _ => {},
            }
        }
        match event {
            Event::PermissionRequestResult(PermissionStatus::Granted) => {
                Reaction { should_render: true, steps: one_step(Step::Act(resolve_home_action())) }
            },
            Event::PermissionRequestResult(PermissionStatus::Denied) => {
                self.error = Some(
                    "Permissions denied. Please grant all requested permissions.".to_owned(),
                );
                Reaction { should_render: true, steps: Vec::new() }
            },
            Event::RunCommandResult { exit_code, stdout, context } => {
                let steps = self.handle_command_result(exit_code, stdout, context);
                Reaction { should_render: true, steps }
            },
            Event::ModeUpdate(session_name) => {
                self.current_session_name = session_name;
                Reaction { should_render: true, steps: Vec::new() }
            },
            Event::SessionUpdate(sessions) => {
                self.sessions = Some(sessions);
                Reaction { should_render: true, steps: Vec::new() }
            },
            Event::TabUpdate(tab_info) => {
                self.tab_info = Some(tab_info);
                self.refresh()
            },
            Event::PaneUpdate(pane_manifest) => {
                self.pane_manifest = Some(pane_manifest);
                self.refresh()
            },
            Event::Key(key) => self.handle_key(key),
            Event::Other => Reaction { should_render: false, steps: Vec::new() },
        }
    }

    /// Reacts to changed tabs or panes: brings the focused pane and the slots up to date,
    /// and saves the slots where any of them changed.
    pub fn refresh(&mut self) -> (r: Reaction)
        ensures
            final(self)@ == old(self)@.refreshed(),
            r@ == old(self)@.refresh_reaction(),
    {
        let _ = self.update_panes();
        match self.sync_slots_with_state() {
            Some(save) => Reaction { should_render: true, steps: one_step(Step::Act(save)) },
            None => Reaction { should_render: true, steps: Vec::new() },
        }
    }

    /// Reacts to a key.
    pub fn handle_key(&mut self, key: BareKey) -> (r: Reaction)
        requires
            old(self)@.well_formed(),
        ensures
            (final(self)@, r@) == old(self)@.key_pressed(key),
            final(self)@.well_formed(),
    {
        if self.awaiting_delete_key {
            self.awaiting_delete_key = false;
            if let BareKey::Char(c) = key {
                if let Some(slot_index) = char_to_slot_index(c) {
                    return Reaction {
                        should_render: true,
                        steps: one_step(Step::Begin(Task::Delete(slot_index))),
                    };
                }
            }
            return Reaction { should_render: true, steps: Vec::new() };
        }
        match key {
            BareKey::Char('y') => begin_task(Task::Jump(0)),
            BareKey::Char('u') => begin_task(Task::Jump(1)),
            BareKey::Char('i') => begin_task(Task::Jump(2)),
            BareKey::Char('o') => begin_task(Task::Jump(3)),
            BareKey::Char('p') => begin_task(Task::Jump(4)),
            BareKey::Char('Y') => begin_task(Task::Assign(0)),
            BareKey::Char('U') => begin_task(Task::Assign(1)),
            BareKey::Char('I') => begin_task(Task::Assign(2)),
            BareKey::Char('O') => begin_task(Task::Assign(3)),
            BareKey::Char('P') => begin_task(Task::Assign(4)),
            BareKey::Char('d') => {
                self.awaiting_delete_key = true;
                Reaction { should_render: true, steps: Vec::new() }
            },
            BareKey::Down | BareKey::Char('j') => {
                self.select_down();
                Reaction { should_render: true, steps: Vec::new() }
            },
            BareKey::Up | BareKey::Char('k') => {
                self.select_up();
                Reaction { should_render: true, steps: Vec::new() }
            },
            BareKey::Enter | BareKey::Char('l') => begin_task(Task::Jump(self.selected_slot)),
            BareKey::Char('r') => {
                Reaction { should_render: true, steps: one_step(Step::Begin(Task::Reload)) }
            },
            BareKey::Esc | BareKey::Char('c') => {
                Reaction { should_render: false, steps: one_step(Step::Act(Action::HideSelf)) }
            },
            _ => Reaction { should_render: false, steps: Vec::new() },
        }
    }

    /// Reacts to a piped message: "jump" or "assign", with the number of a slot as its
    /// payload.
    pub fn pipe(&mut self, pipe_message: PipeMessage) -> (r: Reaction)
        ensures
            (final(self)@, r@) == old(self)@.piped(
                pipe_message.name@,
                opt_string_view(pipe_message.payload),
            ),
            !r.should_render,
            old(self)@.well_formed() ==> final(self)@.well_formed(),
    {
        let slot = match &pipe_message.payload {
            Some(payload) => parse_usize(payload.as_str()),
            None => None,
        };
        let slot = match slot {
            Some(slot) => slot,
            None => return Reaction { should_render: false, steps: Vec::new() },
        };
        if same_text(pipe_message.name.as_str(), "jump") {
            self.request(PendingAction::Jump(slot))
        } else if same_text(pipe_message.name.as_str(), "assign") {
            self.request(PendingAction::Assign(slot))
        } else {
            Reaction { should_render: false, steps: Vec::new() }
        }
    }

    /// Takes up a piped request, or keeps it for later as long as the folder of the slot
    /// file is not set up.
    pub fn request(&mut self, pending: PendingAction) -> (r: Reaction)
        ensures
            (final(self)@, r@) == old(self)@.requested(pending),
    {
        if self.host_folder_ready {
            match pending {
                PendingAction::Jump(slot) => begin_task(Task::Jump(slot)),
                PendingAction::Assign(slot) => begin_task(Task::Assign(slot)),
            }
        } else {
            self.pending_actions.push(pending);
            Reaction { should_render: false, steps: Vec::new() }
        }
    }
}

/// A list of one step.
fn one_step(step: Step) -> (r: Vec<Step>)
    ensures
        steps_view(r@) == seq![step@],
{
    let mut steps: Vec<Step> = Vec::new();
    steps.push(step);
    steps
}

/// The reaction that starts `task`.
fn begin_task(task: Task) -> (r: Reaction)
    ensures
        r@ == begin(task),
{
    Reaction { should_render: false, steps: one_step(Step::Begin(task)) }
}

/// The command that looks up the home folder.
pub fn resolve_home_action() -> (r: Action)
    ensures
        r@ == resolve_home(),
{
    let mut command: Vec<String> = Vec::new();
    command.push("sh".to_owned());
    command.push("-c".to_owned());
    command.push("echo $HOME".to_owned());
    let mut context: Vec<(String, String)> = Vec::new();
    context.push(("action".to_owned(), "resolve_home".to_owned()));
    Action::RunCommand { command, context }
}

/// The command that creates the folder `config_dir`.
pub fn make_dir_action(config_dir: &String) -> (r: Action)
    ensures
        r@ == make_dir(config_dir@),
{
    let mut command: Vec<String> = Vec::new();
    command.push("mkdir".to_owned());
    command.push("-p".to_owned());
    command.push(config_dir.clone());
    let mut context: Vec<(String, String)> = Vec::new();
    context.push(("action".to_owned(), "mkdir_config".to_owned()));
    context.push(("config_dir".to_owned(), config_dir.clone()));
    Action::RunCommand { command, context }
}

} // verus!
