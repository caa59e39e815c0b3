use harpoon::host::{
    Action, Event, FileRead, PendingAction, PermissionStatus, PipeMessage, Reaction,
};
use harpoon::keys::BareKey;
use harpoon::layout::{PaneInfo, PaneManifest, SessionInfo, TabInfo};
use harpoon::slots::{HarpoonData, HarpoonSlot};
use harpoon::state::State;
use std::collections::HashMap;

fn text<T: std::fmt::Debug>(value: &T) -> String {
    format!("{:?}", value)
}

fn key(state: &mut State, c: char) -> Reaction {
    state.update(Event::Key(BareKey::Char(c)))
}

fn pipe(state: &mut State, name: &str, payload: Option<&str>) -> Reaction {
    state.pipe(PipeMessage {
        name: name.to_string(),
        payload: payload.map(|p| p.to_string()),
    })
}

fn context(entries: &[(&str, &str)]) -> Vec<(String, String)> {
    entries
        .iter()
        .map(|(k, v)| (k.to_string(), v.to_string()))
        .collect()
}

fn command(
    state: &mut State,
    exit_code: Option<i32>,
    stdout: &[u8],
    entries: &[(&str, &str)],
) -> Reaction {
    state.update(Event::RunCommandResult {
        exit_code,
        stdout: stdout.to_vec(),
        context: context(entries),
    })
}

fn slot(session: &str) -> HarpoonSlot {
    HarpoonSlot {
        session_name: session.to_string(),
        tab_name: "work".to_string(),
        tab_position: 2,
        pane_id: 9,
        pane_title: "old".to_string(),
    }
}

fn tabs() -> Vec<TabInfo> {
    vec![TabInfo {
        position: 1,
        name: "work".to_string(),
        active: true,
    }]
}

fn panes() -> PaneManifest {
    PaneManifest {
        panes: HashMap::from_iter([(
            1,
            vec![PaneInfo {
                id: 9,
                is_plugin: false,
                is_focused: true,
                title: "vim".to_string(),
            }],
        )]),
    }
}

#[test]
fn loading_asks_for_permissions_and_events() {
    assert_eq!(
        text(&State::default().load()),
        "[RequestPermission([ReadApplicationState, ChangeApplicationState, RunCommands, \
         FullHdAccess]), Subscribe([Key, TabUpdate, PaneUpdate, SessionUpdate, ModeUpdate, \
         RunCommandResult, PermissionRequestResult])]"
    );
}

#[test]
fn granted_permissions_start_the_setup() {
    let mut state = State::default();
    let reaction = state.update(Event::PermissionRequestResult(PermissionStatus::Granted));
    assert!(reaction.should_render);
    assert_eq!(
        text(&reaction.steps),
        "[Act(RunCommand { command: [\"sh\", \"-c\", \"echo $HOME\"], \
         context: [(\"action\", \"resolve_home\")] })]"
    );
    assert!(state.error.is_none());
}

#[test]
fn denied_permissions_are_a_failure() {
    let mut state = State::default();
    let reaction = state.update(Event::PermissionRequestResult(PermissionStatus::Denied));
    assert!(reaction.should_render);
    assert!(reaction.steps.is_empty());
    assert_eq!(
        state.error.as_deref(),
        Some("Permissions denied. Please grant all requested permissions.")
    );
}

#[test]
fn the_home_folder_is_trimmed_and_its_folder_made() {
    let mut state = State::default();
    let home = " \u{a0}/home/ann\u{3000}\u{85}\r\n".as_bytes();
    let reaction = command(&mut state, Some(0), home, &[("action", "resolve_home")]);
    assert!(reaction.should_render);
    assert_eq!(
        text(&reaction.steps),
        "[Act(RunCommand { command: [\"mkdir\", \"-p\", \"/home/ann/.config/zellij\"], \
         context: [(\"action\", \"mkdir_config\"), \
         (\"config_dir\", \"/home/ann/.config/zellij\")] })]"
    );
    assert!(!state.host_folder_ready);
}

#[test]
fn white_space_inside_a_home_folder_stays() {
    let mut state = State::default();
    let steps = state.handle_command_result(
        Some(0),
        "/home/a b\u{200b}\n".as_bytes().to_vec(),
        context(&[("action", "resolve_home")]),
    );
    assert!(text(&steps).contains("\"/home/a b\\u{200b}/.config/zellij\""));
}

#[test]
fn a_home_folder_that_cannot_be_looked_up_is_a_failure() {
    for exit_code in [Some(1), Some(-1), None] {
        let mut state = State::default();
        let reaction = command(&mut state, exit_code, b"/home/a", &[("action", "resolve_home")]);
        assert!(reaction.should_render);
        assert!(reaction.steps.is_empty());
        assert_eq!(state.error.as_deref(), Some("Failed to resolve $HOME"));
    }
}

#[test]
fn a_home_folder_that_is_not_text_is_a_failure() {
    for bytes in [
        &b"/home/\xff"[..],
        &b"\xc0\xaf"[..],
        &b"\xed\xa0\x80"[..],
        &b"/home/\xe2\x94"[..],
    ] {
        let mut state = State::default();
        let reaction = command(&mut state, Some(0), bytes, &[("action", "resolve_home")]);
        assert!(reaction.steps.is_empty());
        assert_eq!(state.error.as_deref(), Some("$HOME is not valid UTF-8"));
    }
}

#[test]
fn an_empty_home_folder_is_a_failure() {
    for bytes in [&b""[..], &b"\n"[..], &b" \t\x0b\x0c\r\n"[..], "\u{2003}\u{2029}".as_bytes()] {
        let mut state = State::default();
        let reaction = command(&mut state, Some(0), bytes, &[("action", "resolve_home")]);
        assert!(reaction.steps.is_empty());
        assert_eq!(state.error.as_deref(), Some("$HOME is empty"));
    }
}

#[test]
fn a_folder_that_cannot_be_made_is_a_failure() {
    let mut state = State::default();
    let made = [("action", "mkdir_config"), ("config_dir", "/c")];
    let reaction = command(&mut state, Some(2), b"", &made);
    assert!(reaction.should_render);
    assert!(reaction.steps.is_empty());
    assert_eq!(state.error.as_deref(), Some("Failed to create config directory"));
    assert!(!state.host_folder_ready);
}

#[test]
fn a_folder_without_a_name_is_a_failure() {
    let mut state = State::default();
    let reaction = command(&mut state, Some(0), b"", &[("action", "mkdir_config")]);
    assert!(reaction.steps.is_empty());
    assert_eq!(state.error.as_deref(), Some("Missing config_dir in context"));
    assert!(!state.host_folder_ready);
}

#[test]
fn other_commands_are_ignored_but_drawn() {
    let mut state = State::default();
    let before = text(&state);
    for entries in [&[][..], &[("config_dir", "/c")][..], &[("action", "other")][..]] {
        let reaction = command(&mut state, None, b"", entries);
        assert!(reaction.should_render);
        assert!(reaction.steps.is_empty());
        assert_eq!(text(&state), before);
    }
}

#[test]
fn waiting_requests_are_taken_up_in_order() {
    let mut state = State::default();
    for (name, payload) in [("assign", "0"), ("jump", "+3"), ("assign", "007")] {
        let reaction = pipe(&mut state, name, Some(payload));
        assert!(!reaction.should_render);
        assert!(reaction.steps.is_empty());
    }
    assert_eq!(
        state.pending_actions,
        vec![
            PendingAction::Assign(0),
            PendingAction::Jump(3),
            PendingAction::Assign(7)
        ]
    );
    let made = [("action", "mkdir_config"), ("config_dir", "/c")];
    let reaction = command(&mut state, Some(0), b"", &made);
    assert!(reaction.should_render);
    assert_eq!(
        text(&reaction.steps),
        "[Act(ChangeHostFolder(\"/c\")), Begin(Reload), Begin(Assign(0)), Begin(Jump(3)), \
         Begin(Assign(7))]"
    );
    assert!(state.host_folder_ready);
    assert!(state.pending_actions.is_empty());
}

#[test]
fn requests_are_taken_up_at_once_when_ready() {
    let mut state = State::default();
    state.host_folder_ready = true;
    assert_eq!(text(&pipe(&mut state, "jump", Some("2")).steps), "[Begin(Jump(2))]");
    assert_eq!(text(&pipe(&mut state, "assign", Some("12")).steps), "[Begin(Assign(12))]");
    assert!(state.pending_actions.is_empty());
}

#[test]
fn messages_without_a_slot_number_are_ignored() {
    let too_large = format!("{}0", usize::MAX);
    let mut state = State::default();
    for payload in [
        None,
        Some(""),
        Some("+"),
        Some("-1"),
        Some("-0"),
        Some(" 1"),
        Some("1 "),
        Some("1_0"),
        Some("++1"),
        Some("0x1"),
        Some("1.0"),
        Some("٣"),
        Some(too_large.as_str()),
    ] {
        assert!(pipe(&mut state, "jump", payload).steps.is_empty());
    }
    assert!(pipe(&mut state, "Jump", Some("1")).steps.is_empty());
    assert!(pipe(&mut state, "delete", Some("1")).steps.is_empty());
    assert!(state.pending_actions.is_empty());
}

#[test]
fn the_largest_slot_number_is_understood() {
    let mut state = State::default();
    let largest = format!("+000{}", usize::MAX);
    pipe(&mut state, "jump", Some(&largest));
    assert_eq!(state.pending_actions, vec![PendingAction::Jump(usize::MAX)]);
}

#[test]
fn slot_keys_jump_and_shifted_keys_assign() {
    let mut state = State::default();
    for (i, (plain, shifted)) in "yuiop".chars().zip("YUIOP".chars()).enumerate() {
        let jump = key(&mut state, plain);
        assert!(!jump.should_render);
        assert_eq!(text(&jump.steps), format!("[Begin(Jump({i}))]"));
        let assign = key(&mut state, shifted);
        assert!(!assign.should_render);
        assert_eq!(text(&assign.steps), format!("[Begin(Assign({i}))]"));
    }
}

#[test]
fn deleting_takes_two_keys() {
    let mut state = State::default();
    for (i, c) in "yuiopYUIOP".chars().enumerate() {
        let armed = key(&mut state, 'd');
        assert!(armed.should_render && armed.steps.is_empty());
        assert!(state.awaiting_delete_key);
        let reaction = key(&mut state, c);
        assert!(reaction.should_render);
        assert_eq!(text(&reaction.steps), format!("[Begin(Delete({}))]", i % 5));
        assert!(!state.awaiting_delete_key);
    }
}

#[test]
fn any_other_key_ends_the_deletion() {
    for other in [BareKey::Char('d'), BareKey::Char('j'), BareKey::Esc, BareKey::Enter] {
        let mut state = State::default();
        key(&mut state, 'd');
        let reaction = state.update(Event::Key(other));
        assert!(reaction.should_render);
        assert!(reaction.steps.is_empty());
        assert!(!state.awaiting_delete_key);
        assert_eq!(state.selected_slot, 0);
    }
}

#[test]
fn the_cursor_goes_round() {
    let mut state = State::default();
    let mut seen = vec![];
    for _ in 0..6 {
        assert!(key(&mut state, 'j').should_render);
        seen.push(state.selected_slot);
    }
    assert_eq!(seen, vec![1, 2, 3, 4, 0, 1]);
    state.update(Event::Key(BareKey::Up));
    assert_eq!(state.selected_slot, 0);
    key(&mut state, 'k');
    assert_eq!(state.selected_slot, 4);
    state.update(Event::Key(BareKey::Down));
    assert_eq!(state.selected_slot, 0);
}

#[test]
fn the_selected_slot_is_jumped_to() {
    let mut state = State::default();
    state.selected_slot = 3;
    let enter = state.update(Event::Key(BareKey::Enter));
    assert!(!enter.should_render);
    assert_eq!(text(&enter.steps), "[Begin(Jump(3))]");
    assert_eq!(text(&key(&mut state, 'l').steps), "[Begin(Jump(3))]");
}

#[test]
fn other_keys_reload_close_or_do_nothing() {
    let mut state = State::default();
    let reload = key(&mut state, 'r');
    assert!(reload.should_render);
    assert_eq!(text(&reload.steps), "[Begin(Reload)]");
    let close = key(&mut state, 'c');
    assert!(!close.should_render);
    assert_eq!(text(&close.steps), "[Act(HideSelf)]");
    let escape = state.update(Event::Key(BareKey::Esc));
    assert!(!escape.should_render);
    assert_eq!(text(&escape.steps), "[Act(HideSelf)]");
    for ignored in [BareKey::Char('x'), BareKey::Char('D'), BareKey::Other] {
        let reaction = state.update(Event::Key(ignored));
        assert!(!reaction.should_render);
        assert!(reaction.steps.is_empty());
    }
    let other = state.update(Event::Other);
    assert!(!other.should_render);
    assert!(other.steps.is_empty());
}

#[test]
fn session_news_are_kept() {
    let mut state = State::default();
    let reaction = state.update(Event::ModeUpdate(Some("main".to_string())));
    assert!(reaction.should_render);
    assert_eq!(state.current_session_name.as_deref(), Some("main"));
    let reaction = state.update(Event::SessionUpdate(vec![SessionInfo {
        name: "other".to_string(),
    }]));
    assert!(reaction.should_render);
    assert!(state.is_session_online("other"));
    state.update(Event::ModeUpdate(None));
    assert!(state.current_session_name.is_none());
}

#[test]
fn changed_tabs_and_panes_update_slots_once() {
    let mut state = State::default();
    state.update(Event::ModeUpdate(Some("main".to_string())));
    state.harpoon_data.set_slot(0, slot("main"));
    state.harpoon_data.set_slot(1, slot("elsewhere"));

    let moved = state.update(Event::TabUpdate(tabs()));
    assert!(moved.should_render);
    assert_eq!(moved.steps.len(), 1);
    assert!(text(&moved.steps).starts_with("[Act(SaveSlots("));
    assert_eq!(state.harpoon_data.get_slot(0).unwrap().tab_position, 1);
    assert_eq!(state.harpoon_data.get_slot(0).unwrap().pane_title, "old");
    assert!(state.focused_pane.is_none());

    let titled = state.update(Event::PaneUpdate(panes()));
    assert_eq!(titled.steps.len(), 1);
    assert_eq!(state.harpoon_data.get_slot(0).unwrap().pane_title, "vim");
    assert_eq!(state.harpoon_data.get_slot(1).unwrap().pane_title, "old");
    assert_eq!(state.focused_pane.as_ref().unwrap().pane_info.id, 9);

    assert!(state.update(Event::PaneUpdate(panes())).steps.is_empty());
    assert!(state.update(Event::TabUpdate(tabs())).steps.is_empty());
}

#[test]
fn the_focused_pane_stays_when_none_is_visible() {
    let mut state = State::default();
    assert!(state.update_panes().is_none());
    state.update(Event::TabUpdate(tabs()));
    state.update(Event::PaneUpdate(panes()));
    assert_eq!(state.update_panes(), Some(()));
    state.update(Event::PaneUpdate(PaneManifest {
        panes: HashMap::new(),
    }));
    assert!(state.update_panes().is_none());
    assert_eq!(state.focused_pane.as_ref().unwrap().pane_info.title, "vim");
    state.update(Event::TabUpdate(vec![]));
    assert_eq!(state.focused_pane.as_ref().unwrap().tab_info.name, "work");
}

#[test]
fn slots_are_not_synced_without_session_or_tabs() {
    let mut state = State::default();
    state.harpoon_data.set_slot(0, slot("main"));
    assert!(state.update(Event::TabUpdate(tabs())).steps.is_empty());
    let mut state = State::default();
    state.harpoon_data.set_slot(0, slot("main"));
    state.update(Event::ModeUpdate(Some("main".to_string())));
    assert!(state.sync_slots_with_state().is_none());
    assert_eq!(state.harpoon_data.get_slot(0).unwrap().tab_position, 2);
}

#[test]
fn reading_the_slot_file_needs_its_folder() {
    let mut state = State::default();
    assert!(state.load_from_disk().is_none());
    state.host_folder_ready = true;
    assert!(matches!(state.load_from_disk(), Some(Action::LoadSlots)));
}

#[test]
fn the_text_of_the_slot_file_is_trimmed() {
    let mut state = State::default();
    state.harpoon_data.set_slot(0, slot("main"));
    let read = state.file_read(FileRead::Contents("\u{feff}\n {\"slots\": []} \n\t\u{2028}".to_string()));
    assert_eq!(read.as_deref(), Some("\u{feff}\n {\"slots\": []}"));
    let read = state.file_read(FileRead::Contents("\n {\"slots\": []} \n".to_string()));
    assert_eq!(read.as_deref(), Some("{\"slots\": []}"));
    assert_eq!(state.harpoon_data.slots.len(), 1);
}

#[test]
fn a_missing_slot_file_means_no_slots() {
    let mut state = State::default();
    state.harpoon_data.set_slot(0, slot("main"));
    assert!(state.file_read(FileRead::NotFound).is_none());
    assert_eq!(state.harpoon_data.slots.len(), 0);
    assert!(state.error.is_none());
}

#[test]
fn failures_are_shown_and_keep_the_slots() {
    let mut state = State::default();
    state.harpoon_data.set_slot(0, slot("main"));
    state.file_read(FileRead::Failed("denied".to_string()));
    assert_eq!(state.error.as_deref(), Some("Load failed: denied"));
    state.slots_parsed(Err("bad".to_string()));
    assert_eq!(state.error.as_deref(), Some("Parse failed: bad"));
    state.save_finished(Err("full".to_string()));
    assert_eq!(state.error.as_deref(), Some("Save failed: full"));
    state.save_finished(Ok(()));
    assert_eq!(state.error.as_deref(), Some("Save failed: full"));
    assert_eq!(state.harpoon_data.slots.len(), 1);
    state.slots_parsed(Ok(HarpoonData::default()));
    assert_eq!(state.harpoon_data.slots.len(), 0);
    assert_eq!(state.error.as_deref(), Some("Save failed: full"));
}

#[test]
fn a_jump_focuses_or_switches() {
    let mut state = State::default();
    state.harpoon_data.set_slot(1, slot("main"));
    let switch = "[SwitchSession { session_name: \"main\", tab_position: Some(2), \
                  pane: Some((9, false)) }, HideSelf]";
    assert_eq!(text(&state.jump_to_slot(1)), switch);
    state.current_session_name = Some("other".to_string());
    assert_eq!(text(&state.jump_to_slot(1)), switch);
    state.current_session_name = Some("main".to_string());
    assert_eq!(
        text(&state.jump_to_slot(1)),
        "[FocusTerminalPane { pane_id: 9, should_float_if_hidden: true }, HideSelf]"
    );
    assert!(state.jump_to_slot(0).is_empty());
    assert!(state.jump_to_slot(2).is_empty());
    assert!(state.jump_to_slot(usize::MAX).is_empty());
}

#[test]
fn assigning_needs_session_and_pane() {
    let mut state = State::default();
    assert!(state.assign_slot(0).is_empty());
    state.update(Event::ModeUpdate(Some("main".to_string())));
    assert!(state.assign_slot(0).is_empty());
    assert_eq!(state.harpoon_data.slots.len(), 0);
    state.update(Event::TabUpdate(tabs()));
    state.update(Event::PaneUpdate(panes()));
    let actions = state.assign_slot(2);
    assert_eq!(
        text(&actions),
        "[SaveSlots(HarpoonData { slots: [None, None, Some(HarpoonSlot { session_name: \"main\", \
         tab_name: \"work\", tab_position: 1, pane_id: 9, pane_title: \"vim\" })] }), HideSelf]"
    );
    assert_eq!(state.harpoon_data.slots.len(), 3);
}

#[test]
fn deleting_saves_only_inside_the_list() {
    let mut state = State::default();
    state.harpoon_data.set_slot(1, slot("main"));
    assert!(state.delete_slot(2).is_empty());
    assert_eq!(
        text(&state.delete_slot(1)),
        "[SaveSlots(HarpoonData { slots: [None, None] })]"
    );
    assert_eq!(text(&state.delete_slot(1)), "[SaveSlots(HarpoonData { slots: [None, None] })]");
}
