use harpoon::host::{Action, Event, FileRead, PipeMessage, Step, Task};
use harpoon::keys::BareKey;
use harpoon::layout::{PaneInfo, PaneManifest, TabInfo};
use harpoon::slots::HarpoonData;
use harpoon::state::State;
use std::collections::HashMap;

/// A host that keeps the slot file in memory.
#[derive(Default)]
struct Host {
    file: Option<HarpoonData>,
    reads: usize,
    done: Vec<String>,
}

impl Host {
    fn run(&mut self, state: &mut State, mut agenda: Vec<Step>) {
        let mut steps_left = 100;
        while !agenda.is_empty() {
            assert!(steps_left > 0);
            steps_left -= 1;
            match state.advance(&mut agenda) {
                None => {}
                Some(Action::LoadSlots) => {
                    self.reads += 1;
                    match &self.file {
                        Some(data) => state.slots_parsed(Ok(data.clone())),
                        None => {
                            state.file_read(FileRead::NotFound);
                        }
                    }
                }
                Some(Action::SaveSlots(data)) => {
                    self.file = Some(data);
                    state.save_finished(Ok(()));
                }
                Some(action) => self.done.push(format!("{:?}", action)),
            }
        }
        assert!(state.advance(&mut agenda).is_none());
    }

    fn event(&mut self, state: &mut State, event: Event) {
        let reaction = state.update(event);
        self.run(state, reaction.steps);
    }

    fn key(&mut self, state: &mut State, c: char) -> Vec<String> {
        self.event(state, Event::Key(BareKey::Char(c)));
        std::mem::take(&mut self.done)
    }

    fn pipe(&mut self, state: &mut State, name: &str, payload: &str) {
        let reaction = state.pipe(PipeMessage {
            name: name.to_string(),
            payload: Some(payload.to_string()),
        });
        self.run(state, reaction.steps);
    }
}

fn pane_event(id: u32, title: &str) -> Event {
    Event::PaneUpdate(PaneManifest {
        panes: HashMap::from_iter([(
            0,
            vec![PaneInfo {
                id,
                is_plugin: false,
                is_focused: true,
                title: title.to_string(),
            }],
        )]),
    })
}

fn tab_event() -> Event {
    Event::TabUpdate(vec![TabInfo {
        position: 0,
        name: "work".to_string(),
        active: true,
    }])
}

fn folder_made() -> Event {
    Event::RunCommandResult {
        exit_code: Some(0),
        stdout: vec![],
        context: vec![
            ("action".to_string(), "mkdir_config".to_string()),
            ("config_dir".to_string(), "/c".to_string()),
        ],
    }
}

fn instance(host: &mut Host, session: &str, pane: u32) -> State {
    let mut state = State::default();
    host.event(&mut state, Event::ModeUpdate(Some(session.to_string())));
    host.event(&mut state, tab_event());
    host.event(&mut state, pane_event(pane, "vim"));
    host.event(&mut state, folder_made());
    host.done.clear();
    state
}

#[test]
fn a_jump_leads_to_the_assigned_pane_from_any_session() {
    let mut host = Host::default();
    let mut here = instance(&mut host, "here", 11);
    let mut there = instance(&mut host, "there", 22);

    assert_eq!(host.key(&mut here, 'Y'), vec!["HideSelf"]);
    assert_eq!(
        host.key(&mut here, 'y'),
        vec![
            "FocusTerminalPane { pane_id: 11, should_float_if_hidden: true }",
            "HideSelf"
        ]
    );
    assert_eq!(
        host.key(&mut there, 'y'),
        vec![
            "SwitchSession { session_name: \"here\", tab_position: Some(0), \
             pane: Some((11, false)) }",
            "HideSelf"
        ]
    );
}

#[test]
fn instances_keep_each_others_slots() {
    let mut host = Host::default();
    let mut here = instance(&mut host, "here", 11);
    let mut there = instance(&mut host, "there", 22);
    host.key(&mut here, 'Y');
    host.key(&mut there, 'U');
    host.key(&mut here, 'P');
    let file = host.file.as_ref().unwrap();
    assert_eq!(file.slots.len(), 5);
    assert_eq!(file.get_slot(0).unwrap().pane_id, 11);
    assert_eq!(file.get_slot(1).unwrap().pane_id, 22);
    assert_eq!(file.get_slot(4).unwrap().session_name, "here");
    host.key(&mut there, 'd');
    host.key(&mut there, 'y');
    assert!(host.file.as_ref().unwrap().get_slot(0).is_none());
    assert_eq!(host.file.as_ref().unwrap().get_slot(4).unwrap().pane_id, 11);
}

#[test]
fn a_jump_to_a_deleted_slot_does_nothing() {
    let mut host = Host::default();
    let mut here = instance(&mut host, "here", 11);
    let mut there = instance(&mut host, "there", 22);
    host.key(&mut here, 'I');
    host.key(&mut there, 'd');
    host.key(&mut there, 'i');
    assert!(host.key(&mut here, 'i').is_empty());
    assert!(host.key(&mut here, 'o').is_empty());
}

#[test]
fn nothing_is_read_before_the_folder_is_set_up() {
    let mut host = Host::default();
    let mut state = State::default();
    host.key(&mut state, 'y');
    host.key(&mut state, 'r');
    let steps = state.before_render();
    host.run(&mut state, steps);
    assert_eq!(host.reads, 0);
    host.event(&mut state, folder_made());
    assert_eq!(host.reads, 1);
    let steps = state.before_render();
    host.run(&mut state, steps);
    assert_eq!(host.reads, 2);
}

#[test]
fn an_assignment_without_a_pane_reads_and_writes_nothing() {
    let mut host = Host::default();
    let mut state = State::default();
    state.host_folder_ready = true;
    assert!(host.key(&mut state, 'Y').is_empty());
    assert_eq!(host.reads, 0);
    assert!(host.file.is_none());
}

#[test]
fn waiting_requests_run_once_the_folder_is_set_up() {
    let mut host = Host::default();
    let mut state = State::default();
    host.event(&mut state, Event::ModeUpdate(Some("here".to_string())));
    host.event(&mut state, tab_event());
    host.event(&mut state, pane_event(11, "vim"));
    host.pipe(&mut state, "jump", "2");
    host.pipe(&mut state, "assign", "2");
    host.pipe(&mut state, "jump", "2");
    assert!(host.done.is_empty());
    assert_eq!(host.reads, 0);
    host.event(&mut state, folder_made());
    assert_eq!(
        host.done,
        vec![
            "ChangeHostFolder(\"/c\")",
            "HideSelf",
            "FocusTerminalPane { pane_id: 11, should_float_if_hidden: true }",
            "HideSelf"
        ]
    );
    assert_eq!(host.reads, 4);
}

#[test]
fn the_setup_runs_from_the_permission_to_the_folder() {
    let mut state = State::default();
    let mut reaction = state.update(Event::PermissionRequestResult(
        harpoon::host::PermissionStatus::Granted,
    ));
    let mut outputs = vec![b"".to_vec(), b"/home/ann\n".to_vec()];
    let mut folder = String::new();
    while let Some(step) = reaction.steps.into_iter().next() {
        match step {
            Step::Act(Action::RunCommand { context, .. }) => {
                reaction = state.update(Event::RunCommandResult {
                    exit_code: Some(0),
                    stdout: outputs.pop().unwrap(),
                    context,
                });
            }
            Step::Act(Action::ChangeHostFolder(path)) => {
                folder = path;
                break;
            }
            other => panic!("{:?}", other),
        }
    }
    assert_eq!(folder, "/home/ann/.config/zellij");
    assert!(state.host_folder_ready);
}

#[test]
fn a_task_reads_first_and_then_acts() {
    let mut state = State::default();
    state.host_folder_ready = true;
    let mut agenda = vec![Step::Begin(Task::Delete(0)), Step::Act(Action::HideSelf)];
    let first = state.advance(&mut agenda);
    assert!(matches!(first, Some(Action::LoadSlots)));
    assert_eq!(format!("{:?}", agenda), "[Finish(Delete(0)), Act(HideSelf)]");
    assert!(state.advance(&mut agenda).is_none());
    assert_eq!(format!("{:?}", agenda), "[Act(HideSelf)]");
    assert!(matches!(state.advance(&mut agenda), Some(Action::HideSelf)));
    assert!(agenda.is_empty());
}

#[test]
fn readiness_and_failures_last() {
    let mut host = Host::default();
    let mut state = instance(&mut host, "here", 11);
    state.save_finished(Err("full".to_string()));
    for event in [
        Event::ModeUpdate(None),
        folder_made(),
        Event::Key(BareKey::Char('r')),
        Event::Key(BareKey::Char('Y')),
        Event::Key(BareKey::Esc),
        Event::Other,
    ] {
        host.event(&mut state, event);
        assert!(state.host_folder_ready);
        assert_eq!(state.error.as_deref(), Some("Save failed: full"));
        assert!(state.pending_actions.is_empty());
    }
}

#[test]
fn the_plugin_has_in_mind_what_the_file_holds() {
    let mut host = Host::default();
    let mut here = instance(&mut host, "here", 11);
    let mut there = instance(&mut host, "there", 22);
    host.key(&mut here, 'U');
    host.key(&mut there, 'y');
    assert_eq!(there.harpoon_data.get_slot(1).unwrap().pane_id, 11);
    host.key(&mut there, 'd');
    host.key(&mut there, 'u');
    assert_eq!(
        format!("{:?}", there.harpoon_data),
        format!("{:?}", host.file.as_ref().unwrap())
    );
    host.key(&mut here, 'r');
    assert!(here.harpoon_data.get_slot(1).is_none());
}
