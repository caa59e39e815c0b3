use harpoon::host::{Event, FileRead};
use harpoon::keys::BareKey;
use harpoon::layout::{Pane, PaneInfo, SessionInfo, TabInfo};
use harpoon::slots::HarpoonSlot;
use harpoon::state::State;

const HELP: [&str; 2] = [
    "  \x1b[2my/u/i/o/p:\x1b[0m jump  \x1b[2mY/U/I/O/P:\x1b[0m assign",
    "  \x1b[2md + key:\x1b[0m delete  \x1b[2mr:\x1b[0m reload  \x1b[2mEsc:\x1b[0m close",
];

fn slot(session: &str) -> HarpoonSlot {
    HarpoonSlot {
        session_name: session.to_string(),
        tab_name: "work".to_string(),
        tab_position: 2,
        pane_id: 9,
        pane_title: "vim".to_string(),
    }
}

#[test]
fn a_new_plugin_shows_that_it_is_loading() {
    let lines = State::default().render(20, 20);
    let expected = vec![
        "\x1b[1m─ Harpoon \x1b[0m──────",
        "",
        "  \x1b[2mLoading...\x1b[0m",
        "",
        "  \x1b[1m\x1b[31m[y] (empty)\x1b[39m\x1b[0m",
        "  [u] (empty)",
        "  [i] (empty)",
        "  [o] (empty)",
        "  [p] (empty)",
        "",
        HELP[0],
        HELP[1],
    ];
    assert_eq!(lines, expected);
}

#[test]
fn a_ready_plugin_shows_slots_and_the_current_pane() {
    let mut state = State::default();
    state.host_folder_ready = true;
    state.selected_slot = 1;
    state.harpoon_data.set_slot(0, slot("main"));
    state.harpoon_data.set_slot(3, slot("other"));
    state.sessions = Some(vec![SessionInfo {
        name: "main".to_string(),
    }]);
    state.focused_pane = Some(Pane {
        pane_info: PaneInfo {
            id: 1,
            is_plugin: false,
            is_focused: true,
            title: "zsh".to_string(),
        },
        tab_info: TabInfo {
            position: 0,
            name: "shell".to_string(),
            active: true,
        },
    });
    let expected = vec![
        "\x1b[1m─ Harpoon \x1b[0m─",
        "",
        "  [y] main | work | vim",
        "  \x1b[1m\x1b[31m[u] (empty)\x1b[39m\x1b[0m",
        "  [i] (empty)",
        "  [o] other | work | vim (offline)",
        "  [p] (empty)",
        "",
        HELP[0],
        HELP[1],
        "",
        "  \x1b[2mCurrent:\x1b[0m shell | zsh",
    ];
    assert_eq!(state.render(20, 15), expected);
}

#[test]
fn a_failure_takes_the_place_of_the_loading_line() {
    let mut state = State::default();
    let none = state.file_read(FileRead::Failed("denied".to_string()));
    assert!(none.is_none());
    let lines = state.render(20, 0);
    assert_eq!(lines[0], "\x1b[1m─ Harpoon \x1b[0m");
    assert_eq!(lines[2], "  \x1b[31mLoad failed: denied\x1b[39m");
    assert_eq!(lines[3], "");
    assert_eq!(lines[4], "  \x1b[1m\x1b[31m[y] (empty)\x1b[39m\x1b[0m");
}

#[test]
fn the_delete_prompt_takes_the_place_of_the_help() {
    let mut state = State::default();
    let reaction = state.update(Event::Key(BareKey::Char('d')));
    assert!(reaction.should_render);
    let lines = state.render(20, 80);
    assert_eq!(lines.len(), 11);
    assert_eq!(
        lines[10],
        "  \x1b[33mPress y/u/i/o/p to delete that slot...\x1b[39m"
    );
}

#[test]
fn the_rule_fills_the_title_line() {
    let state = State::default();
    for (cols, rule) in [(0, 0), (13, 0), (14, 0), (15, 1), (100, 86)] {
        let line = state.render(1, cols)[0].clone();
        assert_eq!(line, format!("\x1b[1m─ Harpoon \x1b[0m{}", "─".repeat(rule)));
    }
}

#[test]
fn sessions_are_online_only_when_listed() {
    let mut state = State::default();
    assert!(!state.is_session_online("main"));
    state.sessions = Some(vec![SessionInfo {
        name: "main".to_string(),
    }]);
    assert!(state.is_session_online("main"));
    assert!(!state.is_session_online("mai"));
    assert!(!state.is_session_online(""));
}
