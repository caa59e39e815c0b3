//! What passes between the plugin and its host: the events that come in, the actions
//! that go out, and the steps in which a reaction to an event is carried out.

use crate::keys::BareKey;
use crate::layout::{
    first_match, lemma_first_match_step, session_names, tabs_view, PaneInfoView, PaneManifest,
    SessionInfo, TabInfo, TabView,
};
use crate::slots::{HarpoonData, SlotView};
use vstd::prelude::*;

verus! {

/// Where the slot file lies, as the plugin sees it.
pub const SLOT_FILE: &'static str = "/host/harpoon.json";

/// The answer to the request for permissions.
#[derive(Debug, Clone, Copy, PartialEq, Eq, Structural)]
pub enum PermissionStatus {
    Granted,
    Denied,
}

/// The permissions that the plugin asks for.
#[derive(Debug, Clone, Copy, PartialEq, Eq, Structural)]
pub enum PermissionType {
    ReadApplicationState,
    ChangeApplicationState,
    RunCommands,
    FullHdAccess,
}

/// The kinds of events that the plugin listens to.
#[derive(Debug, Clone, Copy, PartialEq, Eq, Structural)]
pub enum EventType {
    Key,
    TabUpdate,
    PaneUpdate,
    SessionUpdate,
    ModeUpdate,
    RunCommandResult,
    PermissionRequestResult,
}

/// Something that happened.
#[derive(Debug)]
pub enum Event {
    PermissionRequestResult(PermissionStatus),
    /// A command that the plugin ran has ended. The context is the one that it was
    /// started with, as pairs of a key and a value.
    RunCommandResult {
        exit_code: Option<i32>,
        stdout: Vec<u8>,
        context: Vec<(String, String)>,
    },
    /// The name of the current session, where it is known.
    ModeUpdate(Option<String>),
    /// The sessions that are running.
    SessionUpdate(Vec<SessionInfo>),
    /// The tabs of the current session.
    TabUpdate(Vec<TabInfo>),
    /// The panes of the current session.
    PaneUpdate(PaneManifest),
    /// A key was pressed.
    Key(BareKey),
    /// Any other event.
    Other,
}

/// A message piped to the plugin.
#[derive(Debug)]
pub struct PipeMessage {
    pub name: String,
    pub payload: Option<String>,
}

/// The outcome of reading the slot file.
#[derive(Debug)]
pub enum FileRead {
    /// The text of the file.
    Contents(String),
    /// There is no such file.
    NotFound,
    /// Any other failure, described.
    Failed(String),
}

/// What a [`FileRead`] says.
#[verifier::ext_equal]
pub enum FileReadView {
    Contents(Seq<char>),
    NotFound,
    Failed(Seq<char>),
}

impl View for FileRead {
    type V = FileReadView;

    open spec fn view(&self) -> FileReadView {
        match *self {
            FileRead::Contents(text) => FileReadView::Contents(text@),
            FileRead::NotFound => FileReadView::NotFound,
            FileRead::Failed(message) => FileReadView::Failed(message@),
        }
    }
}

/// Something that the host is asked to do.
#[derive(Debug)]
pub enum Action {
    RequestPermission(Vec<PermissionType>),
    Subscribe(Vec<EventType>),
    /// Run a command in the background. The context comes back with its result.
    RunCommand { command: Vec<String>, context: Vec<(String, String)> },
    /// Make this folder the one that the slot file lives in.
    ChangeHostFolder(String),
    /// Read the slot file.
    LoadSlots,
    /// Write these slots to the slot file.
    SaveSlots(HarpoonData),
    FocusTerminalPane { pane_id: u32, should_float_if_hidden: bool },
    /// Switch to another session, to a tab there and to a pane, given by its id and by
    /// whether it is a plugin.
    SwitchSession {
        session_name: String,
        tab_position: Option<usize>,
        pane: Option<(u32, bool)>,
    },
    /// Hide the plugin's own pane.
    HideSelf,
}

/// What an [`Action`] says.
#[verifier::ext_equal]
pub enum ActionView {
    RequestPermission(Seq<PermissionType>),
    Subscribe(Seq<EventType>),
    RunCommand { command: Seq<Seq<char>>, context: Seq<(Seq<char>, Seq<char>)> },
    ChangeHostFolder(Seq<char>),
    LoadSlots,
    SaveSlots(Seq<Option<SlotView>>),
    FocusTerminalPane { pane_id: u32, should_float_if_hidden: bool },
    SwitchSession {
        session_name: Seq<char>,
        tab_position: Option<usize>,
        pane: Option<(u32, bool)>,
    },
    HideSelf,
}

/// What a list of strings says.
pub open spec fn strings_view(strings: Seq<String>) -> Seq<Seq<char>> {
    strings.map_values(|s: String| s@)
}

/// What the context of a command says.
pub open spec fn context_view(context: Seq<(String, String)>) -> Seq<(Seq<char>, Seq<char>)> {
    context.map_values(|entry: (String, String)| (entry.0@, entry.1@))
}

impl View for Action {
    type V = ActionView;

    open spec fn view(&self) -> ActionView {
        match *self {
            Action::RequestPermission(permissions) => ActionView::RequestPermission(permissions@),
            Action::Subscribe(event_types) => ActionView::Subscribe(event_types@),
            Action::RunCommand { command, context } => ActionView::RunCommand {
                command: strings_view(command@),
                context: context_view(context@),
            },
            Action::ChangeHostFolder(folder) => ActionView::ChangeHostFolder(folder@),
            Action::LoadSlots => ActionView::LoadSlots,
            Action::SaveSlots(data) => ActionView::SaveSlots(data@),
            Action::FocusTerminalPane { pane_id, should_float_if_hidden } =>
                ActionView::FocusTerminalPane { pane_id, should_float_if_hidden },
            Action::SwitchSession { session_name, tab_position, pane } =>
                ActionView::SwitchSession { session_name: session_name@, tab_position, pane },
            Action::HideSelf => ActionView::HideSelf,
        }
    }
}

/// What an optional action says.
pub open spec fn opt_action_view(action: Option<Action>) -> Option<ActionView> {
    match action {
        Some(action) => Some(action@),
        None => None,
    }
}

/// What a list of actions says.
pub open spec fn actions_view(actions: Seq<Action>) -> Seq<ActionView> {
    actions.map_values(|action: Action| action@)
}

/// A request that came in before the slot file could be read, kept for later.
#[derive(Debug, Clone, Copy, PartialEq, Eq, Structural)]
pub enum PendingAction {
    Jump(usize),
    Assign(usize),
}

/// Work that starts by reading the slot file, so that changes made by other instances of
/// the plugin are seen.
#[derive(Debug, Clone, Copy, PartialEq, Eq, Structural)]
pub enum Task {
    /// Go to the pane of a slot.
    Jump(usize),
    /// Let a slot lead to the focused pane.
    Assign(usize),
    /// Free a slot.
    Delete(usize),
    /// Nothing but the reading.
    Reload,
}

/// One step of a reaction.
#[derive(Debug)]
pub enum Step {
    /// Start a task: read the slot file.
    Begin(Task),
    /// The slot file has been read: do the rest of the task.
    Finish(Task),
    /// Ask the host for something.
    Act(Action),
}

/// What a [`Step`] says.
#[verifier::ext_equal]
pub enum StepView {
    Begin(Task),
    Finish(Task),
    Act(ActionView),
}

impl View for Step {
    type V = StepView;

    open spec fn view(&self) -> StepView {
        match *self {
            Step::Begin(task) => StepView::Begin(task),
            Step::Finish(task) => StepView::Finish(task),
            Step::Act(action) => StepView::Act(action@),
        }
    }
}

/// What a list of steps says.
pub open spec fn steps_view(steps: Seq<Step>) -> Seq<StepView> {
    steps.map_values(|step: Step| step@)
}

/// How the plugin reacts to something that happened.
#[derive(Debug)]
pub struct Reaction {
    /// Whether the screen has to be drawn anew once the steps are done.
    pub should_render: bool,
    /// The steps to take, in order.
    pub steps: Vec<Step>,
}

/// What a [`Reaction`] says.
#[verifier::ext_equal]
pub struct ReactionView {
    pub should_render: bool,
    pub steps: Seq<StepView>,
}

impl View for Reaction {
    type V = ReactionView;

    open spec fn view(&self) -> ReactionView {
        ReactionView { should_render: self.should_render, steps: steps_view(self.steps@) }
    }
}

/// What an [`Event`] says.
#[verifier::ext_equal]
pub enum EventView {
    PermissionRequestResult(PermissionStatus),
    RunCommandResult {
        exit_code: Option<i32>,
        stdout: Seq<u8>,
        context: Seq<(Seq<char>, Seq<char>)>,
    },
    ModeUpdate(Option<Seq<char>>),
    SessionUpdate(Seq<Seq<char>>),
    TabUpdate(Seq<TabView>),
    PaneUpdate(Map<usize, Seq<PaneInfoView>>),
    Key(BareKey),
    Other,
}

/// What an optional string says.
pub open spec fn opt_string_view(s: Option<String>) -> Option<Seq<char>> {
    match s {
        Some(s) => Some(s@),
        None => None,
    }
}

impl View for Event {
    type V = EventView;

    open spec fn view(&self) -> EventView {
        match *self {
            Event::PermissionRequestResult(status) => EventView::PermissionRequestResult(status),
            Event::RunCommandResult { exit_code, stdout, context } => EventView::RunCommandResult {
                exit_code,
                stdout: stdout@,
                context: context_view(context@),
            },
            Event::ModeUpdate(session_name) => EventView::ModeUpdate(
                opt_string_view(session_name),
            ),
            Event::SessionUpdate(sessions) => EventView::SessionUpdate(session_names(sessions@)),
            Event::TabUpdate(tabs) => EventView::TabUpdate(tabs_view(tabs@)),
            Event::PaneUpdate(manifest) => EventView::PaneUpdate(manifest@),
            Event::Key(key) => EventView::Key(key),
            Event::Other => EventView::Other,
        }
    }
}

/// The steps that ask the host for `actions`, in order.
pub open spec fn act_steps(actions: Seq<ActionView>) -> Seq<StepView> {
    actions.map_values(|action: ActionView| StepView::Act(action))
}

/// The steps that ask the host for `actions`, in order.
pub fn steps_of_actions(actions: Vec<Action>) -> (r: Vec<Step>)
    ensures
        steps_view(r@) == act_steps(actions_view(actions@)),
{
    let ghost all = actions@;
    let mut steps: Vec<Step> = Vec::new();
    for action in it: actions.into_iter()
        invariant
            it.seq() == all,
            steps@.len() == it.index(),
            forall|i: int| 0 <= i < steps@.len() ==> #[trigger] steps@[i] == Step::Act(all[i]),
    {
        steps.push(Step::Act(action));
    }
    assert(steps_view(steps@) == act_steps(actions_view(all)));
    steps
}

/// The entries of a context with the key `key`.
pub open spec fn has_key(key: Seq<char>) -> spec_fn((Seq<char>, Seq<char>)) -> bool {
    |entry: (Seq<char>, Seq<char>)| entry.0 == key
}

/// The value that `context` holds for `key`: that of the first entry with this key.
pub open spec fn context_value(
    context: Seq<(Seq<char>, Seq<char>)>,
    key: Seq<char>,
) -> Option<Seq<char>> {
    match first_match(context, has_key(key)) {
        Some(entry) => Some(entry.1),
        None => None,
    }
}

/// The value that `context` holds for `key`.
pub fn context_get<'a>(context: &'a Vec<(String, String)>, key: &str) -> (r: Option<&'a String>)
    ensures
        match r {
            Some(value) => context_value(context_view(context@), key@) == Some(value@),
            None => context_value(context_view(context@), key@) is None,
        },
{
    let ghost entries = context_view(context@);
    let ghost pred = has_key(key@);
    let wanted = key.to_owned();
    assert(entries.skip(0) == entries);
    let mut i: usize = 0;
    while i < context.len()
        invariant
            i <= context.len(),
            wanted@ == key@,
            entries == context_view(context@),
            pred == has_key(key@),
            first_match(entries, pred) == first_match(entries.skip(i as int), pred),
        decreases context.len() - i,
    {
        proof {
            lemma_first_match_step(entries, pred, i as int);
        }
        if context[i].0 == wanted {
            return Some(&context[i].1);
        }
        i = i + 1;
    }
    proof {
        lemma_first_match_step(entries, pred, i as int);
    }
    None
}

} // verus!
