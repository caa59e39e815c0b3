//! Carrying out an agenda to its end, on a host whose slot file gives back what was last
//! written to it.

use crate::host::{act_steps, ActionView, FileReadView, StepView, Task};
use crate::laws::{law_assigned_slot_is_found, law_deleted_slot_is_free};
use crate::model::StateView;
use crate::slots::{slot_at, SlotView};
use vstd::prelude::*;

verus! {

/// How many steps are left at most from this one on.
pub open spec fn step_weight(step: StepView) -> nat {
    match step {
        StepView::Act(_) => 1,
        StepView::Finish(_) => 3,
        StepView::Begin(_) => 4,
    }
}

/// How many steps are left at most in `agenda`.
pub open spec fn weight(agenda: Seq<StepView>) -> nat
    decreases agenda.len(),
{
    if agenda.len() == 0 {
        0
    } else {
        step_weight(agenda[0]) + weight(agenda.drop_first())
    }
}

/// An agenda of two parts weighs what they weigh together.
proof fn lemma_weight_of_parts(first: Seq<StepView>, rest: Seq<StepView>)
    ensures
        weight(first + rest) == weight(first) + weight(rest),
    decreases first.len(),
{
    if first.len() == 0 {
        assert(first + rest == rest);
    } else {
        lemma_weight_of_parts(first.drop_first(), rest);
        assert((first + rest).drop_first() == first.drop_first() + rest);
    }
}

/// Every reaction comes to an end: each step that is taken brings the agenda closer to
/// being empty, whatever the host answers.
pub proof fn law_agenda_runs_out(state: StateView, agenda: Seq<StepView>)
    ensures
        agenda.len() > 0 ==> weight(state.advanced(agenda).1) < weight(agenda),
        weight(agenda) == 0 ==> agenda.len() == 0,
{
    if agenda.len() > 0 {
        let rest = agenda.drop_first();
        match agenda[0] {
            StepView::Act(_) => {},
            StepView::Begin(task) => {
                let first = seq![StepView::Finish(task)];
                lemma_weight_of_parts(first, rest);
                reveal_with_fuel(weight, 2);
                assert(first.drop_first() == Seq::<StepView>::empty());
            },
            StepView::Finish(task) => {
                let first = act_steps(state.finish_actions(task));
                lemma_weight_of_parts(first, rest);
                reveal_with_fuel(weight, 3);
                assert(first.len() <= 2);
            },
        }
    }
}

/// The plugin and its host in the middle of a reaction.
pub struct World {
    /// The plugin.
    pub state: StateView,
    /// The steps that are left.
    pub agenda: Seq<StepView>,
    /// What the slot file holds, where there is one.
    pub file: Option<Seq<Option<SlotView>>>,
    /// What the host has done so far, apart from reading and writing that file.
    pub done: Seq<ActionView>,
}

impl World {
    /// The state once the slot file was read and parsed.
    pub open spec fn loaded(state: StateView, file: Option<Seq<Option<SlotView>>>) -> StateView {
        match file {
            Some(slots) => state.after_parse(Ok(slots)),
            None => state.after_read(FileReadView::NotFound),
        }
    }

    /// The world after one step, and after the host has done what was asked for.
    pub open spec fn next(self) -> World {
        let (state, agenda, action) = self.state.advanced(self.agenda);
        match action {
            None => World { state, agenda, ..self },
            Some(ActionView::LoadSlots) => World {
                state: World::loaded(state, self.file),
                agenda,
                ..self
            },
            Some(ActionView::SaveSlots(slots)) => World {
                state,
                agenda,
                file: Some(slots),
                ..self
            },
            Some(action) => World { state, agenda, done: self.done.push(action), ..self },
        }
    }

    /// The world once nothing is left to do.
    pub open spec fn run(self) -> World
        decreases weight(self.agenda),
    {
        if self.agenda.len() == 0 {
            self
        } else {
            proof {
                law_agenda_runs_out(self.state, self.agenda);
            }
            self.next().run()
        }
    }

    /// The world in which `state` starts `task`.
    pub open spec fn starting(
        state: StateView,
        task: Task,
        file: Option<Seq<Option<SlotView>>>,
    ) -> World {
        World { state, agenda: seq![StepView::Begin(task)], file, done: Seq::empty() }
    }
}

/// The world in which a task has come to its end: the slot file was read first, where
/// its folder is set up, and the rest of the task was done with what it held.
pub proof fn law_task_reads_then_acts(
    state: StateView,
    task: Task,
    file: Option<Seq<Option<SlotView>>>,
)
    requires
        state.takes_up(task),
    ensures
        ({
            let read = if state.host_folder_ready {
                World::loaded(state, file)
            } else {
                state
            };
            let end = World::starting(state, task, file).run();
            &&& end.agenda.len() == 0
            &&& end.state == read.finished(task)
            &&& end.file == match task {
                Task::Assign(_) => Some(end.state.slots),
                Task::Delete(index) if index < read.slots.len() => Some(end.state.slots),
                _ => file,
            }
            &&& end.done == match task {
                Task::Jump(index) => read.jump_actions(index),
                Task::Assign(_) => seq![ActionView::HideSelf],
                _ => Seq::empty(),
            }
        }),
{
    let read = if state.host_folder_ready {
        World::loaded(state, file)
    } else {
        state
    };
    reveal_with_fuel(World::run, 5);
    let w0 = World::starting(state, task, file);
    let w1 = w0.next();
    assert(w1.agenda == seq![StepView::Finish(task)]);
    assert(w1.state == read);
    let w2 = w1.next();
    assert(w2.state == read.finished(task));
    assert(w2.agenda == act_steps(read.finish_actions(task)));
}

/// What the slot at `index` holds in the slot file.
pub open spec fn file_slot(file: Option<Seq<Option<SlotView>>>, index: usize) -> Option<SlotView> {
    match file {
        Some(slots) => slot_at(slots, index as int),
        None => None,
    }
}

/// A jump leads to the pane that was focused when the slot was assigned: in the same
/// session it is focused, and from any other one its session, tab and pane are switched
/// to. It makes no difference whether the same instance of the plugin jumps or another.
pub proof fn law_jump_leads_to_assigned_pane(
    state: StateView,
    index: usize,
    file: Option<Seq<Option<SlotView>>>,
    visitor: StateView,
)
    requires
        state.can_assign(),
        visitor.host_folder_ready,
    ensures
        ({
            let assigned = World::starting(state, Task::Assign(index), file).run();
            let jumped = World::starting(visitor, Task::Jump(index), assigned.file).run();
            let session = state.current_session_name->0;
            let pane = state.focused_pane->0;
            jumped.done == seq![
                if visitor.current_session_name == Some(session) {
                    ActionView::FocusTerminalPane {
                        pane_id: pane.pane_info.id,
                        should_float_if_hidden: true,
                    }
                } else {
                    ActionView::SwitchSession {
                        session_name: session,
                        tab_position: Some(pane.tab_info.position),
                        pane: Some((pane.pane_info.id, false)),
                    }
                },
                ActionView::HideSelf,
            ]
        }),
{
    let assigned = World::starting(state, Task::Assign(index), file).run();
    law_task_reads_then_acts(state, Task::Assign(index), file);
    law_task_reads_then_acts(visitor, Task::Jump(index), assigned.file);
    let read = if state.host_folder_ready {
        World::loaded(state, file)
    } else {
        state
    };
    law_assigned_slot_is_found(read.slots, index, state.slot_to_assign(), index);
}

/// A jump to a slot that was freed asks the host for nothing.
pub proof fn law_jump_ignores_deleted_slot(
    state: StateView,
    index: usize,
    file: Option<Seq<Option<SlotView>>>,
    visitor: StateView,
)
    requires
        state.host_folder_ready,
        visitor.host_folder_ready,
    ensures
        ({
            let deleted = World::starting(state, Task::Delete(index), file).run();
            let jumped = World::starting(visitor, Task::Jump(index), deleted.file).run();
            jumped.done == Seq::<ActionView>::empty()
        }),
{
    let deleted = World::starting(state, Task::Delete(index), file).run();
    law_task_reads_then_acts(state, Task::Delete(index), file);
    law_task_reads_then_acts(visitor, Task::Jump(index), deleted.file);
    law_deleted_slot_is_free(World::loaded(state, file).slots, index, index);
}

/// Assigning or freeing one slot keeps what any instance of the plugin has stored in the
/// others, however old the slots are that this instance has in mind.
pub proof fn law_other_slots_survive(
    state: StateView,
    index: usize,
    file: Option<Seq<Option<SlotView>>>,
    other: usize,
)
    requires
        state.host_folder_ready,
        other != index,
    ensures
        state.can_assign() ==> file_slot(
            World::starting(state, Task::Assign(index), file).run().file,
            other,
        ) == file_slot(file, other),
        file_slot(World::starting(state, Task::Delete(index), file).run().file, other)
            == file_slot(file, other),
{
    let read = World::loaded(state, file);
    if state.can_assign() {
        law_task_reads_then_acts(state, Task::Assign(index), file);
        law_assigned_slot_is_found(read.slots, index, state.slot_to_assign(), other);
    }
    law_task_reads_then_acts(state, Task::Delete(index), file);
    law_deleted_slot_is_free(read.slots, index, other);
}

/// After any task that was taken up, with the folder of the slot file set up, the plugin
/// has in mind what the slot file holds.
pub proof fn law_task_leaves_slots_stored(
    state: StateView,
    task: Task,
    file: Option<Seq<Option<SlotView>>>,
    index: usize,
)
    requires
        state.takes_up(task),
        state.host_folder_ready,
    ensures
        ({
            let end = World::starting(state, task, file).run();
            slot_at(end.state.slots, index as int) == file_slot(end.file, index)
        }),
{
    law_task_reads_then_acts(state, task, file);
}

} // verus!
