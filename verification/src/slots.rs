//! The slots: which pane each slot key leads to.

use vstd::prelude::*;

verus! {

/// The pane that a slot leads to, and where it was last seen.
#[derive(Debug)]
pub struct HarpoonSlot {
    /// The session that holds the pane.
    pub session_name: String,
    /// The name of the tab that holds the pane.
    pub tab_name: String,
    /// The position of that tab in its session, from 0.
    pub tab_position: usize,
    /// The id of the pane among the terminal panes of its session.
    pub pane_id: u32,
    /// The title of the pane.
    pub pane_title: String,
}

/// What a [`HarpoonSlot`] says.
#[verifier::ext_equal]
pub struct SlotView {
    pub session_name: Seq<char>,
    pub tab_name: Seq<char>,
    pub tab_position: usize,
    pub pane_id: u32,
    pub pane_title: Seq<char>,
}

impl View for HarpoonSlot {
    type V = SlotView;

    open spec fn view(&self) -> SlotView {
        SlotView {
            session_name: self.session_name@,
            tab_name: self.tab_name@,
            tab_position: self.tab_position,
            pane_id: self.pane_id,
            pane_title: self.pane_title@,
        }
    }
}

impl Clone for HarpoonSlot {
    fn clone(&self) -> (r: Self)
        ensures
            r == *self,
    {
        HarpoonSlot {
            session_name: self.session_name.clone(),
            tab_name: self.tab_name.clone(),
            tab_position: self.tab_position,
            pane_id: self.pane_id,
            pane_title: self.pane_title.clone(),
        }
    }
}

/// What a place in the list of slots says: `None` where it is free.
pub open spec fn entry_view(entry: Option<HarpoonSlot>) -> Option<SlotView> {
    match entry {
        Some(slot) => Some(slot@),
        None => None,
    }
}

/// The list of slots. It may be shorter than the number of slot keys: a slot past its
/// end is free.
#[derive(Debug)]
pub struct HarpoonData {
    pub slots: Vec<Option<HarpoonSlot>>,
}

impl View for HarpoonData {
    type V = Seq<Option<SlotView>>;

    open spec fn view(&self) -> Seq<Option<SlotView>> {
        Seq::new(self.slots@.len(), |i: int| entry_view(self.slots@[i]))
    }
}

/// The slot at `index`, or `None` where that place is free or past the end.
pub open spec fn slot_at(slots: Seq<Option<SlotView>>, index: int) -> Option<SlotView> {
    if 0 <= index < slots.len() {
        slots[index]
    } else {
        None
    }
}

/// `slots`, lengthened with free places until `index` lies inside.
pub open spec fn with_room(slots: Seq<Option<SlotView>>, index: int) -> Seq<Option<SlotView>> {
    if index < slots.len() {
        slots
    } else {
        slots + Seq::new((index + 1 - slots.len()) as nat, |i: int| None::<SlotView>)
    }
}

/// `slots` with `slot` at `index`.
pub open spec fn with_slot(slots: Seq<Option<SlotView>>, index: int, slot: SlotView) -> Seq<
    Option<SlotView>,
> {
    with_room(slots, index).update(index, Some(slot))
}

/// `slots` with nothing at `index`.
pub open spec fn without_slot(slots: Seq<Option<SlotView>>, index: int) -> Seq<Option<SlotView>> {
    if index < slots.len() {
        slots.update(index, None)
    } else {
        slots
    }
}

impl Default for HarpoonData {
    fn default() -> (r: Self)
        ensures
            r@ == Seq::<Option<SlotView>>::empty(),
    {
        HarpoonData { slots: Vec::new() }
    }
}

impl Clone for HarpoonData {
    fn clone(&self) -> (r: Self)
        ensures
            r@ == self@,
    {
        let mut slots: Vec<Option<HarpoonSlot>> = Vec::new();
        let mut i: usize = 0;
        while i < self.slots.len()
            invariant
                i <= self.slots.len(),
                slots@ == self.slots@.take(i as int),
            decreases self.slots.len() - i,
        {
            let entry = match &self.slots[i] {
                Some(slot) => Some(slot.clone()),
                None => None,
            };
            slots.push(entry);
            i = i + 1;
        }
        assert(slots@ == self.slots@);
        HarpoonData { slots }
    }
}

impl HarpoonData {
    /// Lengthens the list with free places until `index` lies inside. As with any growing
    /// list, what does not fit in memory ends the program.
    pub fn ensure_slot(&mut self, index: usize)
        ensures
            final(self)@ == with_room(old(self)@, index as int),
    {
        while self.slots.len() <= index
            invariant
                old(self).slots@.len() <= self.slots@.len(),
                self.slots@.len() <= old(self).slots@.len() || self.slots@.len() <= index + 1,
                forall|i: int|
                    0 <= i < old(self).slots@.len() ==> self.slots@[i] == old(self).slots@[i],
                forall|i: int|
                    old(self).slots@.len() <= i < self.slots@.len() ==> self.slots@[i] is None,
            decreases index + 1 - self.slots.len(),
        {
            self.slots.push(None);
        }
    }

    /// The slot at `index`, where that place is taken.
    pub fn get_slot(&self, index: usize) -> (r: Option<&HarpoonSlot>)
        ensures
            match r {
                Some(slot) => slot_at(self@, index as int) == Some(slot@),
                None => slot_at(self@, index as int) is None,
            },
    {
        if index < self.slots.len() {
            self.slots[index].as_ref()
        } else {
            None
        }
    }

    /// Puts `slot` at `index`, lengthening the list where it is too short.
    pub fn set_slot(&mut self, index: usize, slot: HarpoonSlot)
        ensures
            final(self)@ == with_slot(old(self)@, index as int, slot@),
    {
        self.ensure_slot(index);
        assert(index < self@.len());
        self.slots[index] = Some(slot);
    }

    /// Frees the place at `index`. Returns whether that place lies inside the list.
    pub fn clear_slot(&mut self, index: usize) -> (r: bool)
        ensures
            final(self)@ == without_slot(old(self)@, index as int),
            r == (index < old(self)@.len()),
    {
        if index < self.slots.len() {
            self.slots[index] = None;
            true
        } else {
            false
        }
    }
}

} // verus!
