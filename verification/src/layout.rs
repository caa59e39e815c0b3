//! Sessions, tabs and panes, as the multiplexer reports them.

use std::collections::HashMap;
use vstd::prelude::*;

verus! {

/// What the plugin reads of a tab.
#[derive(Debug)]
pub struct TabInfo {
    /// The position of the tab, from 0.
    pub position: usize,
    /// The name of the tab.
    pub name: String,
    /// Whether the tab is focused.
    pub active: bool,
}

/// What a [`TabInfo`] says.
#[verifier::ext_equal]
pub struct TabView {
    pub position: usize,
    pub name: Seq<char>,
    pub active: bool,
}

impl View for TabInfo {
    type V = TabView;

    open spec fn view(&self) -> TabView {
        TabView { position: self.position, name: self.name@, active: self.active }
    }
}

impl Clone for TabInfo {
    fn clone(&self) -> (r: Self)
        ensures
            r == *self,
    {
        TabInfo { position: self.position, name: self.name.clone(), active: self.active }
    }
}

/// What the plugin reads of a pane.
#[derive(Debug)]
pub struct PaneInfo {
    /// The id of the pane, unique among the panes of its kind.
    pub id: u32,
    /// Whether the pane is a plugin (or else a terminal).
    pub is_plugin: bool,
    /// Whether the pane is focused in its layer.
    pub is_focused: bool,
    /// The title of the pane.
    pub title: String,
}

/// What a [`PaneInfo`] says.
#[verifier::ext_equal]
pub struct PaneInfoView {
    pub id: u32,
    pub is_plugin: bool,
    pub is_focused: bool,
    pub title: Seq<char>,
}

impl View for PaneInfo {
    type V = PaneInfoView;

    open spec fn view(&self) -> PaneInfoView {
        PaneInfoView {
            id: self.id,
            is_plugin: self.is_plugin,
            is_focused: self.is_focused,
            title: self.title@,
        }
    }
}

impl Clone for PaneInfo {
    fn clone(&self) -> (r: Self)
        ensures
            r == *self,
    {
        PaneInfo {
            id: self.id,
            is_plugin: self.is_plugin,
            is_focused: self.is_focused,
            title: self.title.clone(),
        }
    }
}

/// A pane together with the tab that holds it.
#[derive(Debug)]
pub struct Pane {
    pub pane_info: PaneInfo,
    pub tab_info: TabInfo,
}

/// What a [`Pane`] says.
#[verifier::ext_equal]
pub struct PaneView {
    pub pane_info: PaneInfoView,
    pub tab_info: TabView,
}

impl View for Pane {
    type V = PaneView;

    open spec fn view(&self) -> PaneView {
        PaneView { pane_info: self.pane_info@, tab_info: self.tab_info@ }
    }
}

impl Clone for Pane {
    fn clone(&self) -> (r: Self)
        ensures
            r == *self,
    {
        Pane { pane_info: self.pane_info.clone(), tab_info: self.tab_info.clone() }
    }
}

/// The panes of a session by the position of the tab that holds them.
#[derive(Debug)]
pub struct PaneManifest {
    pub panes: HashMap<usize, Vec<PaneInfo>>,
}

impl View for PaneManifest {
    type V = Map<usize, Seq<PaneInfoView>>;

    open spec fn view(&self) -> Map<usize, Seq<PaneInfoView>> {
        self.panes@.map_values(|panes: Vec<PaneInfo>| panes_view(panes@))
    }
}

/// What the plugin reads of a session.
#[derive(Debug)]
pub struct SessionInfo {
    /// The name of the session.
    pub name: String,
}

/// What a list of tabs says.
pub open spec fn tabs_view(tabs: Seq<TabInfo>) -> Seq<TabView> {
    tabs.map_values(|tab: TabInfo| tab@)
}

/// What a list of panes says.
pub open spec fn panes_view(panes: Seq<PaneInfo>) -> Seq<PaneInfoView> {
    panes.map_values(|pane: PaneInfo| pane@)
}

/// The names in a list of sessions.
pub open spec fn session_names(sessions: Seq<SessionInfo>) -> Seq<Seq<char>> {
    sessions.map_values(|session: SessionInfo| session.name@)
}

/// The first element of `s` that satisfies `pred`.
pub open spec fn first_match<A>(s: Seq<A>, pred: spec_fn(A) -> bool) -> Option<A>
    decreases s.len(),
{
    if s.len() == 0 {
        None
    } else if pred(s[0]) {
        Some(s[0])
    } else {
        first_match(s.drop_first(), pred)
    }
}

/// One step of a search from the front: what is left to search from `i` on.
pub proof fn lemma_first_match_step<A>(s: Seq<A>, pred: spec_fn(A) -> bool, i: int)
    requires
        0 <= i <= s.len(),
    ensures
        i == s.len() ==> first_match(s.skip(i), pred) is None,
        i < s.len() ==> first_match(s.skip(i), pred) == if pred(s[i]) {
            Some(s[i])
        } else {
            first_match(s.skip(i + 1), pred)
        },
{
    if i < s.len() {
        assert(s.skip(i).drop_first() == s.skip(i + 1));
    }
}

/// What a search finds is in the sequence and satisfies the predicate.
pub proof fn lemma_first_match_satisfies<A>(s: Seq<A>, pred: spec_fn(A) -> bool)
    ensures
        first_match(s, pred) matches Some(x) ==> pred(x) && s.contains(x),
    decreases s.len(),
{
    if s.len() > 0 {
        if pred(s[0]) {
            assert(s.contains(s[0]));
        } else {
            lemma_first_match_satisfies(s.drop_first(), pred);
        }
    }
}

/// The focused tab: the first one that is active.
pub open spec fn focused_tab(tabs: Seq<TabView>) -> Option<TabView> {
    first_match(tabs, |tab: TabView| tab.active)
}

/// The first tab with the name `name`.
pub open spec fn tab_named(tabs: Seq<TabView>, name: Seq<char>) -> Option<TabView> {
    first_match(tabs, |tab: TabView| tab.name == name)
}

/// The focused pane of the tab at `position`: the first terminal pane there that is
/// focused.
pub open spec fn focused_pane(
    position: usize,
    manifest: Map<usize, Seq<PaneInfoView>>,
) -> Option<PaneInfoView> {
    if manifest.contains_key(position) {
        first_match(
            manifest[position],
            |pane: PaneInfoView| pane.is_focused && !pane.is_plugin,
        )
    } else {
        None
    }
}

/// The first pane with the id `id`.
pub open spec fn pane_with_id(panes: Seq<PaneInfoView>, id: u32) -> Option<PaneInfoView> {
    first_match(panes, |pane: PaneInfoView| pane.id == id)
}

/// What an optional tab says.
pub open spec fn opt_tab_view(tab: Option<TabInfo>) -> Option<TabView> {
    match tab {
        Some(tab) => Some(tab@),
        None => None,
    }
}

/// What an optional pane says.
pub open spec fn opt_pane_info_view(pane: Option<PaneInfo>) -> Option<PaneInfoView> {
    match pane {
        Some(pane) => Some(pane@),
        None => None,
    }
}

/// The focused tab among `tab_infos`.
pub fn get_focused_tab(tab_infos: &Vec<TabInfo>) -> (r: Option<TabInfo>)
    ensures
        opt_tab_view(r) == focused_tab(tabs_view(tab_infos@)),
{
    let ghost tabs = tabs_view(tab_infos@);
    let ghost pred = |tab: TabView| tab.active;
    assert(tabs.skip(0) == tabs);
    let mut i: usize = 0;
    while i < tab_infos.len()
        invariant
            i <= tab_infos.len(),
            tabs == tabs_view(tab_infos@),
            pred == (|tab: TabView| tab.active),
            first_match(tabs, pred) == first_match(tabs.skip(i as int), pred),
        decreases tab_infos.len() - i,
    {
        proof {
            lemma_first_match_step(tabs, pred, i as int);
        }
        if tab_infos[i].active {
            return Some(tab_infos[i].clone());
        }
        i = i + 1;
    }
    proof {
        lemma_first_match_step(tabs, pred, i as int);
    }
    None
}

/// The first tab among `tab_infos` with the name `name`.
pub fn find_tab<'a>(tab_infos: &'a Vec<TabInfo>, name: &String) -> (r: Option<&'a TabInfo>)
    ensures
        match r {
            Some(tab) => tab_named(tabs_view(tab_infos@), name@) == Some(tab@),
            None => tab_named(tabs_view(tab_infos@), name@) is None,
        },
{
    let ghost tabs = tabs_view(tab_infos@);
    let ghost pred = |tab: TabView| tab.name == name@;
    assert(tabs.skip(0) == tabs);
    let mut i: usize = 0;
    while i < tab_infos.len()
        invariant
            i <= tab_infos.len(),
            tabs == tabs_view(tab_infos@),
            pred == (|tab: TabView| tab.name == name@),
            first_match(tabs, pred) == first_match(tabs.skip(i as int), pred),
        decreases tab_infos.len() - i,
    {
        proof {
            lemma_first_match_step(tabs, pred, i as int);
        }
        if tab_infos[i].name == *name {
            return Some(&tab_infos[i]);
        }
        i = i + 1;
    }
    proof {
        lemma_first_match_step(tabs, pred, i as int);
    }
    None
}

/// The panes of the tab at `tab_position`, where the manifest lists that tab.
pub fn panes_of_tab(pane_manifest: &PaneManifest, tab_position: usize) -> (r: Option<
    &Vec<PaneInfo>,
>)
    ensures
        match r {
            Some(panes) => pane_manifest@.contains_key(tab_position)
                && pane_manifest@[tab_position] == panes_view(panes@),
            None => !pane_manifest@.contains_key(tab_position),
        },
{
    broadcast use vstd::std_specs::hash::group_hash_axioms;

    pane_manifest.panes.get(&tab_position)
}

/// The focused terminal pane of the tab at `tab_position`.
pub fn get_focused_pane(tab_position: usize, pane_manifest: &PaneManifest) -> (r: Option<PaneInfo>)
    ensures
        opt_pane_info_view(r) == focused_pane(tab_position, pane_manifest@),
{
    let panes = match panes_of_tab(pane_manifest, tab_position) {
        Some(panes) => panes,
        None => return None,
    };
    let ghost views = panes_view(panes@);
    let ghost pred = |pane: PaneInfoView| pane.is_focused && !pane.is_plugin;
    assert(views.skip(0) == views);
    let mut i: usize = 0;
    while i < panes.len()
        invariant
            i <= panes.len(),
            views == panes_view(panes@),
            pane_manifest@.contains_key(tab_position),
            pane_manifest@[tab_position] == views,
            pred == (|pane: PaneInfoView| pane.is_focused && !pane.is_plugin),
            first_match(views, pred) == first_match(views.skip(i as int), pred),
        decreases panes.len() - i,
    {
        proof {
            lemma_first_match_step(views, pred, i as int);
        }
        if panes[i].is_focused && !panes[i].is_plugin {
            return Some(panes[i].clone());
        }
        i = i + 1;
    }
    proof {
        lemma_first_match_step(views, pred, i as int);
    }
    None
}

/// The first pane among `panes` with the id `id`.
pub fn find_pane(panes: &Vec<PaneInfo>, id: u32) -> (r: Option<&PaneInfo>)
    ensures
        match r {
            Some(pane) => pane_with_id(panes_view(panes@), id) == Some(pane@),
            None => pane_with_id(panes_view(panes@), id) is None,
        },
{
    let ghost views = panes_view(panes@);
    let ghost pred = |pane: PaneInfoView| pane.id == id;
    assert(views.skip(0) == views);
    let mut i: usize = 0;
    while i < panes.len()
        invariant
            i <= panes.len(),
            views == panes_view(panes@),
            pred == (|pane: PaneInfoView| pane.id == id),
            first_match(views, pred) == first_match(views.skip(i as int), pred),
        decreases panes.len() - i,
    {
        proof {
            lemma_first_match_step(views, pred, i as int);
        }
        if panes[i].id == id {
            return Some(&panes[i]);
        }
        i = i + 1;
    }
    proof {
        lemma_first_match_step(views, pred, i as int);
    }
    None
}

} // verus!
