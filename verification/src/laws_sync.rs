//! What reported tabs and panes do to the focused pane and to the slots.

use crate::host::{ActionView, EventView, StepView};
use crate::laws_search::{
    law_focused_pane_is_first_focused_terminal, law_focused_tab_is_first_active,
    law_named_tab_is_first_with_name, law_pane_is_first_with_id,
};
use crate::layout::{PaneInfoView, PaneView, TabView};
use crate::model::StateView;
use crate::slots::SlotView;
use crate::sync::{synced_slot, synced_slots};
use vstd::prelude::*;

verus! {

/// Tabs or panes that come in make the first focused terminal pane of the first active
/// tab the focused pane, whatever was focused before.
pub proof fn law_reports_move_the_focus(
    state: StateView,
    tabs: Seq<TabView>,
    manifest: Map<usize, Seq<PaneInfoView>>,
    t: int,
    p: int,
)
    requires
        0 <= t < tabs.len(),
        tabs[t].active,
        forall|k: int| 0 <= k < t ==> !(#[trigger] tabs[k]).active,
        manifest.contains_key(tabs[t].position),
        0 <= p < manifest[tabs[t].position].len(),
        manifest[tabs[t].position][p].is_focused,
        !manifest[tabs[t].position][p].is_plugin,
        forall|k: int|
            0 <= k < p ==> !(#[trigger] manifest[tabs[t].position][k]).is_focused
                || manifest[tabs[t].position][k].is_plugin,
    ensures
        ({
            let found = Some(
                PaneView { pane_info: manifest[tabs[t].position][p], tab_info: tabs[t] },
            );
            &&& state.pane_manifest == Some(manifest) ==> state.updated(
                EventView::TabUpdate(tabs),
            ).0.focused_pane == found
            &&& state.tab_info == Some(tabs) ==> state.updated(
                EventView::PaneUpdate(manifest),
            ).0.focused_pane == found
            &&& state.tab_info == Some(tabs) && state.pane_manifest == Some(manifest) ==> {
                &&& state.visible_pane() == found
                &&& state.panes_updated().focused_pane == found
                &&& state.refreshed().focused_pane == found
            }
        }),
{
    law_focused_tab_is_first_active(tabs, t);
    law_focused_pane_is_first_focused_terminal(manifest, tabs[t].position, p);
}

/// Where tabs or panes are not known, no tab is active, or the first active one has no
/// focused terminal pane, the focused pane stays the last one.
pub proof fn law_focus_stays_without_a_pane(
    state: StateView,
    tabs: Seq<TabView>,
    manifest: Map<usize, Seq<PaneInfoView>>,
    t: int,
)
    requires
        (forall|k: int| 0 <= k < tabs.len() ==> !(#[trigger] tabs[k]).active) || (0 <= t
            < tabs.len() && tabs[t].active && (forall|k: int|
            0 <= k < t ==> !(#[trigger] tabs[k]).active) && (!manifest.contains_key(
            tabs[t].position,
        ) || (forall|k: int|
            0 <= k < manifest[tabs[t].position].len() ==> !(#[trigger] manifest[tabs[t].position][k]).is_focused
                || manifest[tabs[t].position][k].is_plugin))),
    ensures
        state.pane_manifest == Some(manifest) ==> state.updated(
            EventView::TabUpdate(tabs),
        ).0.focused_pane == state.focused_pane,
        state.tab_info == Some(tabs) ==> state.updated(
            EventView::PaneUpdate(manifest),
        ).0.focused_pane == state.focused_pane,
        state.tab_info == Some(tabs) && state.pane_manifest == Some(manifest) ==> {
            &&& state.visible_pane() is None
            &&& state.panes_updated().focused_pane == state.focused_pane
            &&& state.refreshed().focused_pane == state.focused_pane
        },
{
    law_focused_tab_is_first_active(tabs, t);
    if 0 <= t < tabs.len() {
        law_focused_pane_is_first_focused_terminal(manifest, tabs[t].position, 0);
    }
}

/// As long as only tabs or only panes are known, the focused pane stays as it is.
pub proof fn law_focus_needs_tabs_and_panes(
    state: StateView,
    tabs: Seq<TabView>,
    manifest: Map<usize, Seq<PaneInfoView>>,
)
    ensures
        state.pane_manifest is None ==> state.updated(EventView::TabUpdate(tabs)).0.focused_pane
            == state.focused_pane,
        state.tab_info is None ==> state.updated(EventView::PaneUpdate(manifest)).0.focused_pane
            == state.focused_pane,
        state.tab_info is None || state.pane_manifest is None ==> state.visible_pane() is None
            && state.panes_updated() == state,
{
}

/// What came in is kept, and besides it only the focused pane and the slots can change.
pub proof fn law_reports_are_kept(
    state: StateView,
    tabs: Seq<TabView>,
    manifest: Map<usize, Seq<PaneInfoView>>,
)
    ensures
        ({
            let after = state.updated(EventView::TabUpdate(tabs)).0;
            after == (StateView {
                tab_info: Some(tabs),
                focused_pane: after.focused_pane,
                slots: after.slots,
                ..state
            })
        }),
        ({
            let after = state.updated(EventView::PaneUpdate(manifest)).0;
            after == (StateView {
                pane_manifest: Some(manifest),
                focused_pane: after.focused_pane,
                slots: after.slots,
                ..state
            })
        }),
        state.panes_updated() == (StateView {
            focused_pane: state.panes_updated().focused_pane,
            ..state
        }),
        state.synced() == (StateView { slots: state.synced().slots, ..state }),
{
}

/// How a slot of the session `session` follows the tabs and panes of that session: it
/// leads to the same pane, it moves with the first tab of its name, and it takes the
/// title of the first pane with its id in the tab where it then is. Where there is no
/// such tab or pane, position or title stay.
pub open spec fn follows(
    before: SlotView,
    after: SlotView,
    tabs: Seq<TabView>,
    manifest: Option<Map<usize, Seq<PaneInfoView>>>,
) -> bool {
    &&& after.session_name == before.session_name
    &&& after.tab_name == before.tab_name
    &&& after.pane_id == before.pane_id
    &&& forall|t: int|
        0 <= t < tabs.len() && (#[trigger] tabs[t]).name == before.tab_name && (forall|k: int|
            0 <= k < t ==> (#[trigger] tabs[k]).name != before.tab_name) ==> after.tab_position
            == tabs[t].position
    &&& (forall|k: int| 0 <= k < tabs.len() ==> (#[trigger] tabs[k]).name != before.tab_name)
        ==> after.tab_position == before.tab_position
    &&& manifest is Some && manifest->0.contains_key(after.tab_position) ==> {
        let panes = manifest->0[after.tab_position];
        &&& forall|p: int|
            0 <= p < panes.len() && (#[trigger] panes[p]).id == before.pane_id && (forall|k: int|
                0 <= k < p ==> (#[trigger] panes[k]).id != before.pane_id) ==> after.pane_title
                == panes[p].title
        &&& (forall|k: int| 0 <= k < panes.len() ==> (#[trigger] panes[k]).id != before.pane_id)
            ==> after.pane_title == before.pane_title
    }
    &&& manifest is None || !manifest->0.contains_key(after.tab_position) ==> after.pane_title
        == before.pane_title
}

/// A slot of the current session follows its tab and its pane; a slot of another session
/// stays as it is.
pub proof fn law_slot_follows(
    slot: SlotView,
    session: Seq<char>,
    tabs: Seq<TabView>,
    manifest: Option<Map<usize, Seq<PaneInfoView>>>,
)
    ensures
        slot.session_name == session ==> follows(
            slot,
            synced_slot(slot, session, tabs, manifest),
            tabs,
            manifest,
        ),
        slot.session_name != session ==> synced_slot(slot, session, tabs, manifest) == slot,
{
    let after = synced_slot(slot, session, tabs, manifest);
    if slot.session_name == session {
        law_named_tab_is_first_with_name(tabs, slot.tab_name, 0);
        assert forall|t: int|
            0 <= t < tabs.len() && (#[trigger] tabs[t]).name == slot.tab_name && (forall|k: int|
                0 <= k < t ==> (#[trigger] tabs[k]).name != slot.tab_name) implies after.tab_position
            == tabs[t].position by {
            law_named_tab_is_first_with_name(tabs, slot.tab_name, t);
        }
        if manifest is Some && manifest->0.contains_key(after.tab_position) {
            let panes = manifest->0[after.tab_position];
            law_pane_is_first_with_id(panes, slot.pane_id, 0);
            assert forall|p: int|
                0 <= p < panes.len() && (#[trigger] panes[p]).id == slot.pane_id && (forall|
                    k: int,
                |
                    0 <= k < p ==> (#[trigger] panes[k]).id != slot.pane_id) implies after.pane_title
                == panes[p].title by {
                law_pane_is_first_with_id(panes, slot.pane_id, p);
            }
        }
    }
}

/// How a list of slots follows the tabs and panes of the session `session`, place by
/// place.
pub open spec fn all_follow(
    before: Seq<Option<SlotView>>,
    after: Seq<Option<SlotView>>,
    session: Seq<char>,
    tabs: Seq<TabView>,
    manifest: Option<Map<usize, Seq<PaneInfoView>>>,
) -> bool {
    &&& after.len() == before.len()
    &&& forall|i: int|
        0 <= i < before.len() ==> {
            &&& (#[trigger] after[i]) is Some <==> before[i] is Some
            &&& before[i] is Some && before[i]->0.session_name == session ==> follows(
                before[i]->0,
                after[i]->0,
                tabs,
                manifest,
            )
            &&& before[i] is Some && before[i]->0.session_name != session ==> after[i] == before[i]
        }
}

/// Every slot follows its tab and its pane when tabs or panes come in; without a known
/// session or known tabs the slots stay as they are.
pub proof fn law_slots_follow_reports(
    state: StateView,
    session: Seq<char>,
    tabs: Seq<TabView>,
    manifest: Map<usize, Seq<PaneInfoView>>,
)
    ensures
        all_follow(
            state.slots,
            synced_slots(state.slots, session, tabs, state.pane_manifest),
            session,
            tabs,
            state.pane_manifest,
        ),
        state.current_session_name == Some(session) ==> all_follow(
            state.slots,
            state.updated(EventView::TabUpdate(tabs)).0.slots,
            session,
            tabs,
            state.pane_manifest,
        ),
        state.current_session_name == Some(session) && state.tab_info == Some(tabs) ==> all_follow(
            state.slots,
            state.updated(EventView::PaneUpdate(manifest)).0.slots,
            session,
            tabs,
            Some(manifest),
        ) && all_follow(
            state.slots,
            state.synced().slots,
            session,
            tabs,
            state.pane_manifest,
        ),
        state.current_session_name is None ==> state.updated(
            EventView::TabUpdate(tabs),
        ).0.slots == state.slots,
        state.current_session_name is None || state.tab_info is None ==> state.updated(
            EventView::PaneUpdate(manifest),
        ).0.slots == state.slots && state.synced() == state,
{
    lemma_all_follow(state.slots, session, tabs, state.pane_manifest);
    lemma_all_follow(state.slots, session, tabs, Some(manifest));
}

proof fn lemma_all_follow(
    slots: Seq<Option<SlotView>>,
    session: Seq<char>,
    tabs: Seq<TabView>,
    manifest: Option<Map<usize, Seq<PaneInfoView>>>,
)
    ensures
        all_follow(
            slots,
            synced_slots(slots, session, tabs, manifest),
            session,
            tabs,
            manifest,
        ),
{
    let after = synced_slots(slots, session, tabs, manifest);
    assert forall|i: int| 0 <= i < slots.len() implies {
        &&& (#[trigger] after[i]) is Some <==> slots[i] is Some
        &&& slots[i] is Some && slots[i]->0.session_name == session ==> follows(
            slots[i]->0,
            after[i]->0,
            tabs,
            manifest,
        )
        &&& slots[i] is Some && slots[i]->0.session_name != session ==> after[i] == slots[i]
    } by {
        if slots[i] is Some {
            law_slot_follows(slots[i]->0, session, tabs, manifest);
        }
    }
}

/// Tabs or panes that come in are always drawn, and the slots are saved, as they are
/// then, exactly if one of them changed.
pub proof fn law_changed_slots_are_saved(
    state: StateView,
    tabs: Seq<TabView>,
    manifest: Map<usize, Seq<PaneInfoView>>,
    event: EventView,
)
    requires
        event == EventView::TabUpdate(tabs) || event == EventView::PaneUpdate(manifest),
    ensures
        state.updated(event).1.should_render,
        state.updated(event).0.slots.len() == state.slots.len(),
        (exists|i: int|
            0 <= i < state.slots.len() && #[trigger] state.updated(event).0.slots[i]
                != state.slots[i]) ==> state.updated(event).1.steps == seq![
            StepView::Act(ActionView::SaveSlots(state.updated(event).0.slots)),
        ],
        (forall|i: int|
            0 <= i < state.slots.len() ==> #[trigger] state.updated(event).0.slots[i]
                == state.slots[i]) ==> state.updated(event).1.steps.len() == 0,
{
    let after = state.updated(event).0.slots;
    if forall|i: int| 0 <= i < state.slots.len() ==> #[trigger] after[i] == state.slots[i] {
        assert(after == state.slots);
    }
}

} // verus!
