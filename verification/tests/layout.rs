use harpoon::layout::{
    find_pane, find_tab, get_focused_pane, get_focused_tab, panes_of_tab, PaneInfo, PaneManifest,
    TabInfo,
};
use harpoon::slots::{HarpoonData, HarpoonSlot};
use harpoon::sync::sync_slot;
use std::collections::HashMap;

fn tab(position: usize, name: &str, active: bool) -> TabInfo {
    TabInfo {
        position,
        name: name.to_string(),
        active,
    }
}

fn pane(id: u32, is_plugin: bool, is_focused: bool, title: &str) -> PaneInfo {
    PaneInfo {
        id,
        is_plugin,
        is_focused,
        title: title.to_string(),
    }
}

fn manifest(tabs: Vec<(usize, Vec<PaneInfo>)>) -> PaneManifest {
    PaneManifest {
        panes: HashMap::from_iter(tabs),
    }
}

fn slot(session: &str, tab: &str, position: usize, id: u32, title: &str) -> HarpoonSlot {
    HarpoonSlot {
        session_name: session.to_string(),
        tab_name: tab.to_string(),
        tab_position: position,
        pane_id: id,
        pane_title: title.to_string(),
    }
}

#[test]
fn the_first_active_tab_is_focused() {
    let tabs = vec![tab(0, "a", false), tab(1, "b", true), tab(2, "c", true)];
    assert_eq!(get_focused_tab(&tabs).unwrap().name, "b");
    assert!(get_focused_tab(&vec![tab(0, "a", false)]).is_none());
    assert!(get_focused_tab(&vec![]).is_none());
}

#[test]
fn the_first_focused_terminal_pane_is_focused() {
    let m = manifest(vec![(
        3,
        vec![
            pane(1, true, true, "plugin"),
            pane(2, false, false, "idle"),
            pane(3, false, true, "shell"),
            pane(4, false, true, "floating"),
        ],
    )]);
    assert_eq!(get_focused_pane(3, &m).unwrap().title, "shell");
    assert!(get_focused_pane(2, &m).is_none());
    let only_plugins = manifest(vec![(0, vec![pane(1, true, true, "plugin")])]);
    assert!(get_focused_pane(0, &only_plugins).is_none());
}

#[test]
fn tabs_are_found_by_name_and_panes_by_id() {
    let tabs = vec![tab(0, "a", false), tab(5, "b", true), tab(2, "b", true)];
    assert_eq!(find_tab(&tabs, &"b".to_string()).unwrap().position, 5);
    assert!(find_tab(&tabs, &"B".to_string()).is_none());
    let panes = vec![pane(1, true, true, "x"), pane(1, false, true, "y")];
    assert_eq!(find_pane(&panes, 1).unwrap().title, "x");
    assert!(find_pane(&panes, 2).is_none());
    let m = manifest(vec![(4, panes)]);
    assert_eq!(panes_of_tab(&m, 4).unwrap().len(), 2);
    assert!(panes_of_tab(&m, 0).is_none());
}

#[test]
fn a_slot_follows_its_tab_and_takes_the_new_title() {
    let tabs = vec![tab(0, "other", true), tab(1, "work", false)];
    let m = Some(manifest(vec![
        (0, vec![pane(7, false, true, "wrong tab")]),
        (1, vec![pane(7, false, true, "vim")]),
    ]));
    let mut s = slot("main", "work", 0, 7, "old");
    assert!(sync_slot(&mut s, &"main".to_string(), &tabs, &m));
    assert_eq!(s.tab_position, 1);
    assert_eq!(s.pane_title, "vim");
    assert!(!sync_slot(&mut s, &"main".to_string(), &tabs, &m));
}

#[test]
fn a_slot_of_another_session_is_left_alone() {
    let tabs = vec![tab(1, "work", true)];
    let m = Some(manifest(vec![(1, vec![pane(7, false, true, "vim")])]));
    let mut s = slot("elsewhere", "work", 0, 7, "old");
    assert!(!sync_slot(&mut s, &"main".to_string(), &tabs, &m));
    assert_eq!(s.tab_position, 0);
    assert_eq!(s.pane_title, "old");
}

#[test]
fn a_slot_whose_tab_or_pane_is_gone_keeps_what_it_has() {
    let tabs = vec![tab(1, "renamed", true)];
    let m = Some(manifest(vec![(0, vec![pane(8, false, true, "vim")])]));
    let mut s = slot("main", "work", 0, 7, "old");
    assert!(!sync_slot(&mut s, &"main".to_string(), &tabs, &m));
    assert_eq!(s.tab_position, 0);
    assert_eq!(s.pane_title, "old");
    assert!(!sync_slot(&mut s, &"main".to_string(), &tabs, &None));
}

#[test]
fn syncing_twice_changes_nothing_more() {
    let tabs = vec![tab(4, "work", true)];
    let m = Some(manifest(vec![(4, vec![pane(7, false, true, "vim")])]));
    let mut data = HarpoonData::default();
    data.set_slot(0, slot("elsewhere", "work", 0, 7, "old"));
    data.set_slot(2, slot("main", "work", 0, 7, "old"));
    assert!(data.sync_slots(&"main".to_string(), &tabs, &m));
    assert_eq!(data.slots.len(), 3);
    assert_eq!(data.get_slot(0).unwrap().tab_position, 0);
    assert!(data.get_slot(1).is_none());
    assert_eq!(data.get_slot(2).unwrap().tab_position, 4);
    assert_eq!(data.get_slot(2).unwrap().pane_title, "vim");
    assert!(!data.sync_slots(&"main".to_string(), &tabs, &m));
}
