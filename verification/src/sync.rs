//! Keeping the slots of the current session up to date with its tabs and panes.

use crate::layout::{
    find_pane, find_tab, pane_with_id, panes_of_tab, tab_named, tabs_view, PaneInfoView,
    PaneManifest, TabInfo, TabView,
};
use crate::slots::{entry_view, HarpoonData, HarpoonSlot, SlotView};
use vstd::prelude::*;

verus! {

/// What an optional manifest says.
pub open spec fn opt_manifest_view(manifest: Option<PaneManifest>) -> Option<
    Map<usize, Seq<PaneInfoView>>,
> {
    match manifest {
        Some(manifest) => Some(manifest@),
        None => None,
    }
}

/// Where the tab of `slot` is now: at the position of the first tab with its name, or
/// where it was last seen.
pub open spec fn current_position(slot: SlotView, tabs: Seq<TabView>) -> usize {
    match tab_named(tabs, slot.tab_name) {
        Some(tab) => tab.position,
        None => slot.tab_position,
    }
}

/// The title that the pane of `slot` has now in the tab at `position`, or the one that it
/// had when it was last seen.
pub open spec fn current_title(
    slot: SlotView,
    position: usize,
    manifest: Option<Map<usize, Seq<PaneInfoView>>>,
) -> Seq<char> {
    match manifest {
        Some(manifest) => if manifest.contains_key(position) {
            match pane_with_id(manifest[position], slot.pane_id) {
                Some(pane) => pane.title,
                None => slot.pane_title,
            }
        } else {
            slot.pane_title
        },
        None => slot.pane_title,
    }
}

/// `slot` brought up to date with the tabs and panes of the session `session`. A slot of
/// another session stays as it is.
pub open spec fn synced_slot(
    slot: SlotView,
    session: Seq<char>,
    tabs: Seq<TabView>,
    manifest: Option<Map<usize, Seq<PaneInfoView>>>,
) -> SlotView {
    if slot.session_name == session {
        let position = current_position(slot, tabs);
        SlotView {
            tab_position: position,
            pane_title: current_title(slot, position, manifest),
            ..slot
        }
    } else {
        slot
    }
}

/// A place in the list of slots, brought up to date.
pub open spec fn synced_entry(
    entry: Option<SlotView>,
    session: Seq<char>,
    tabs: Seq<TabView>,
    manifest: Option<Map<usize, Seq<PaneInfoView>>>,
) -> Option<SlotView> {
    match entry {
        Some(slot) => Some(synced_slot(slot, session, tabs, manifest)),
        None => None,
    }
}

/// The list of slots, brought up to date.
pub open spec fn synced_slots(
    slots: Seq<Option<SlotView>>,
    session: Seq<char>,
    tabs: Seq<TabView>,
    manifest: Option<Map<usize, Seq<PaneInfoView>>>,
) -> Seq<Option<SlotView>> {
    Seq::new(slots.len(), |i: int| synced_entry(slots[i], session, tabs, manifest))
}

/// Brings `slot` up to date. Returns whether that changed anything.
pub fn sync_slot(
    slot: &mut HarpoonSlot,
    session_name: &String,
    tab_info: &Vec<TabInfo>,
    pane_manifest: &Option<PaneManifest>,
) -> (changed: bool)
    ensures
        final(slot)@ == synced_slot(
            old(slot)@,
            session_name@,
            tabs_view(tab_info@),
            opt_manifest_view(*pane_manifest),
        ),
        changed == (final(slot)@ != old(slot)@),
{
    if slot.session_name != *session_name {
        return false;
    }
    let mut changed: bool = false;
    if let Some(tab) = find_tab(tab_info, &slot.tab_name) {
        if slot.tab_position != tab.position {
            slot.tab_position = tab.position;
            changed = true;
        }
    }
    if let Some(pane_manifest) = pane_manifest {
        if let Some(panes) = panes_of_tab(pane_manifest, slot.tab_position) {
            if let Some(pane) = find_pane(panes, slot.pane_id) {
                if slot.pane_title != pane.title {
                    slot.pane_title = pane.title.clone();
                    changed = true;
                }
            }
        }
    }
    changed
}

impl HarpoonData {
    /// Brings every slot up to date. Returns whether that changed anything.
    pub fn sync_slots(
        &mut self,
        session_name: &String,
        tab_info: &Vec<TabInfo>,
        pane_manifest: &Option<PaneManifest>,
    ) -> (changed: bool)
        ensures
            final(self)@ == synced_slots(
                old(self)@,
                session_name@,
                tabs_view(tab_info@),
                opt_manifest_view(*pane_manifest),
            ),
            changed == (final(self)@ != old(self)@),
    {
        let ghost session = session_name@;
        let ghost tabs = tabs_view(tab_info@);
        let ghost manifest = opt_manifest_view(*pane_manifest);
        let mut changed: bool = false;
        // A place that changed, once there is one.
        let ghost mut at: int = 0;
        let mut i: usize = 0;
        while i < self.slots.len()
            invariant
                i <= self.slots@.len(),
                self.slots@.len() == old(self).slots@.len(),
                session == session_name@,
                tabs == tabs_view(tab_info@),
                manifest == opt_manifest_view(*pane_manifest),
                forall|j: int|
                    0 <= j < i ==> entry_view(#[trigger] self.slots@[j]) == synced_entry(
                        entry_view(old(self).slots@[j]),
                        session,
                        tabs,
                        manifest,
                    ),
                forall|j: int|
                    i <= j < self.slots@.len() ==> #[trigger] self.slots@[j]
                        == old(self).slots@[j],
                changed ==> 0 <= at < i && entry_view(self.slots@[at]) != entry_view(
                    old(self).slots@[at],
                ),
                !changed ==> forall|j: int|
                    0 <= j < i ==> entry_view(#[trigger] self.slots@[j]) == entry_view(
                        old(self).slots@[j],
                    ),
            decreases self.slots.len() - i,
        {
            if let Some(slot) = &mut self.slots[i] {
                if sync_slot(slot, session_name, tab_info, pane_manifest) {
                    changed = true;
                    proof {
                        at = i as int;
                    }
                }
            }
            i = i + 1;
        }
        proof {
            if changed {
                assert(self@[at] != old(self)@[at]);
            } else {
                assert(self@ == old(self)@);
            }
        }
        changed
    }
}

} // verus!
