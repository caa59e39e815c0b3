//! What each event, key, piped message and finished command does, in any state.

use crate::host::{
    ActionView, EventView, PendingAction, PermissionStatus, ReactionView, StepView, Task,
};
use crate::keys::BareKey;
use crate::laws_search::{
    law_context_gives_first_entry, law_numbers_in_text, law_trimming_takes_off_the_ends,
};
use crate::model::StateView;
use crate::text::{digits_value, is_white_space, parsed_usize};
use vstd::prelude::*;
use vstd::utf8::{decode_utf8, valid_utf8};

verus! {

/// At the start nothing is known, nothing waits and the cursor is on the first slot.
pub proof fn law_start_is_blank()
    ensures
        ({
            let state = StateView::initial();
            &&& state.slots.len() == 0
            &&& !state.host_folder_ready
            &&& state.pending_actions.len() == 0
            &&& state.error is None
            &&& state.current_session_name is None
            &&& state.sessions is None
            &&& state.focused_pane is None
            &&& state.tab_info is None
            &&& state.pane_manifest is None
            &&& state.selected_slot == 0
            &&& !state.awaiting_delete_key
        }),
{
}

/// Once the folder of the slot file is set up, a piped message "jump" or "assign" with a
/// slot number starts that task at once, for that slot, and changes nothing else,
/// whatever the state is and whatever the slot holds.
pub proof fn law_ready_requests_start(state: StateView, text: Seq<char>, slot: usize)
    requires
        state.host_folder_ready,
        parsed_usize(text) == Some(slot),
    ensures
        state.piped("jump"@, Some(text)) == (
            state,
            (ReactionView {
                should_render: false,
                steps: seq![StepView::Begin(Task::Jump(slot))],
            }),
        ),
        state.piped("assign"@, Some(text)) == (
            state,
            (ReactionView {
                should_render: false,
                steps: seq![StepView::Begin(Task::Assign(slot))],
            }),
        ),
        state.requested(PendingAction::Jump(slot)) == state.piped("jump"@, Some(text)),
        state.requested(PendingAction::Assign(slot)) == state.piped("assign"@, Some(text)),
{
    reveal_strlit("jump");
    reveal_strlit("assign");
    assert("jump"@.len() != "assign"@.len());
}

/// As long as the folder of the slot file is not set up, such a message is put behind
/// those that wait already, and does nothing else.
pub proof fn law_early_requests_wait(state: StateView, text: Seq<char>, slot: usize)
    requires
        !state.host_folder_ready,
        parsed_usize(text) == Some(slot),
    ensures
        ({
            let (after, reaction) = state.piped("jump"@, Some(text));
            &&& after == (StateView {
                pending_actions: state.pending_actions + seq![PendingAction::Jump(slot)],
                ..state
            })
            &&& !reaction.should_render
            &&& reaction.steps.len() == 0
            &&& state.requested(PendingAction::Jump(slot)) == (after, reaction)
        }),
        ({
            let (after, reaction) = state.piped("assign"@, Some(text));
            &&& after == (StateView {
                pending_actions: state.pending_actions + seq![PendingAction::Assign(slot)],
                ..state
            })
            &&& !reaction.should_render
            &&& reaction.steps.len() == 0
            &&& state.requested(PendingAction::Assign(slot)) == (after, reaction)
        }),
{
    reveal_strlit("jump");
    reveal_strlit("assign");
    assert("jump"@.len() != "assign"@.len());
    assert(state.pending_actions.push(PendingAction::Jump(slot)) == state.pending_actions + seq![
        PendingAction::Jump(slot),
    ]);
    assert(state.pending_actions.push(PendingAction::Assign(slot)) == state.pending_actions + seq![
        PendingAction::Assign(slot),
    ]);
}

/// The slot number of a message is the number that its decimal digits denote, with or
/// without a plus sign.
pub proof fn law_requests_name_slots_in_digits(
    state: StateView,
    digits: Seq<char>,
    signed: bool,
    slot: usize,
)
    requires
        state.host_folder_ready,
        digits.len() > 0,
        forall|k: int| 0 <= k < digits.len() ==> '0' <= #[trigger] digits[k] <= '9',
        digits_value(digits) == slot,
    ensures
        ({
            let text = if signed {
                seq!['+'] + digits
            } else {
                digits
            };
            &&& state.piped("jump"@, Some(text)).1.steps == seq![StepView::Begin(Task::Jump(slot))]
            &&& state.piped("assign"@, Some(text)).1.steps == seq![
                StepView::Begin(Task::Assign(slot)),
            ]
        }),
{
    let text = if signed {
        seq!['+'] + digits
    } else {
        digits
    };
    law_numbers_in_text(text, digits);
    law_ready_requests_start(state, text, slot);
}

/// A message with another name, without a payload or with one that is no slot number is
/// ignored.
pub proof fn law_other_messages_are_ignored(
    state: StateView,
    name: Seq<char>,
    payload: Option<Seq<char>>,
)
    requires
        (name != "jump"@ && name != "assign"@) || payload is None || parsed_usize(payload->0) is None,
    ensures
        ({
            let (after, reaction) = state.piped(name, payload);
            &&& after == state
            &&& !reaction.should_render
            &&& reaction.steps.len() == 0
        }),
{
}

/// The letters y, u, i, o and p start a jump to the first, second, third, fourth and
/// fifth slot, and with shift they assign it.
pub proof fn law_letters_start_tasks(state: StateView, n: usize)
    requires
        !state.awaiting_delete_key,
        n < 5,
    ensures
        state.updated(EventView::Key(BareKey::Char(seq!['y', 'u', 'i', 'o', 'p'][n as int]))) == (
            state,
            (ReactionView { should_render: false, steps: seq![StepView::Begin(Task::Jump(n))] }),
        ),
        state.updated(EventView::Key(BareKey::Char(seq!['Y', 'U', 'I', 'O', 'P'][n as int]))) == (
            state,
            (ReactionView { should_render: false, steps: seq![StepView::Begin(Task::Assign(n))] }),
        ),
{
}

/// After `d`, the letter of a slot, in either case, frees that slot, any other key frees
/// none, and either way the next key has its usual meaning again.
pub proof fn law_delete_key_is_spent(state: StateView, n: usize, key: BareKey)
    requires
        state.awaiting_delete_key,
    ensures
        n < 5 && (key == BareKey::Char(seq!['y', 'u', 'i', 'o', 'p'][n as int]) || key
            == BareKey::Char(seq!['Y', 'U', 'I', 'O', 'P'][n as int])) ==> state.updated(
            EventView::Key(key),
        ).1.steps == seq![StepView::Begin(Task::Delete(n))],
        (key matches BareKey::Char(c) ==> !seq![
            'y', 'u', 'i', 'o', 'p', 'Y', 'U', 'I', 'O', 'P',
        ].contains(c)) ==> state.updated(EventView::Key(key)).1.steps.len() == 0,
        state.updated(EventView::Key(key)).0 == (StateView { awaiting_delete_key: false, ..state }),
        state.updated(EventView::Key(key)).1.should_render,
{
    let letters = seq!['y', 'u', 'i', 'o', 'p', 'Y', 'U', 'I', 'O', 'P'];
    assert(letters[0] == 'y' && letters[1] == 'u' && letters[2] == 'i' && letters[3] == 'o'
        && letters[4] == 'p');
    assert(letters[5] == 'Y' && letters[6] == 'U' && letters[7] == 'I' && letters[8] == 'O'
        && letters[9] == 'P');
}

/// `j` and the down key move the cursor to the next slot and from the last to the first;
/// `k` and the up key move it back. Nothing else changes, and the screen is drawn.
pub proof fn law_cursor_keys(state: StateView)
    requires
        !state.awaiting_delete_key,
    ensures
        ({
            let down = state.updated(EventView::Key(BareKey::Down));
            &&& down.0 == (StateView { selected_slot: down.0.selected_slot, ..state })
            &&& down.0.selected_slot == (state.selected_slot + 1) % 5
            &&& state.selected_slot < 4 ==> down.0.selected_slot == state.selected_slot + 1
            &&& state.selected_slot == 4 ==> down.0.selected_slot == 0
            &&& down.1.should_render
            &&& down.1.steps.len() == 0
            &&& state.updated(EventView::Key(BareKey::Char('j'))) == down
        }),
        ({
            let up = state.updated(EventView::Key(BareKey::Up));
            &&& up.0 == (StateView { selected_slot: up.0.selected_slot, ..state })
            &&& state.selected_slot > 0 ==> up.0.selected_slot == state.selected_slot - 1
            &&& state.selected_slot == 0 ==> up.0.selected_slot == 4
            &&& up.1.should_render
            &&& up.1.steps.len() == 0
            &&& state.updated(EventView::Key(BareKey::Char('k'))) == up
        }),
{
}

/// The remaining keys: `l` and enter jump to the slot under the cursor, `d` asks for the
/// slot to free, `r` reads the slots again, `c` and escape hide the plugin, and every
/// other key does nothing.
pub proof fn law_command_keys(state: StateView, c: char)
    requires
        !state.awaiting_delete_key,
    ensures
        state.updated(EventView::Key(BareKey::Enter)) == (
            state,
            (ReactionView {
                should_render: false,
                steps: seq![StepView::Begin(Task::Jump(state.selected_slot))],
            }),
        ),
        state.updated(EventView::Key(BareKey::Char('l'))) == state.updated(
            EventView::Key(BareKey::Enter),
        ),
        state.updated(EventView::Key(BareKey::Char('d'))) == (
            (StateView { awaiting_delete_key: true, ..state }),
            (ReactionView { should_render: true, steps: Seq::empty() }),
        ),
        state.updated(EventView::Key(BareKey::Char('r'))) == (
            state,
            (ReactionView { should_render: true, steps: seq![StepView::Begin(Task::Reload)] }),
        ),
        state.updated(EventView::Key(BareKey::Esc)) == (
            state,
            (ReactionView {
                should_render: false,
                steps: seq![StepView::Act(ActionView::HideSelf)],
            }),
        ),
        state.updated(EventView::Key(BareKey::Char('c'))) == state.updated(
            EventView::Key(BareKey::Esc),
        ),
        state.updated(EventView::Key(BareKey::Other)) == (
            state,
            (ReactionView { should_render: false, steps: Seq::empty() }),
        ),
        !seq![
            'y', 'u', 'i', 'o', 'p', 'Y', 'U', 'I', 'O', 'P', 'd', 'j', 'k', 'l', 'r', 'c',
        ].contains(c) ==> state.updated(EventView::Key(BareKey::Char(c))) == (
            state,
            (ReactionView { should_render: false, steps: Seq::empty() }),
        ),
{
    let bound = seq![
        'y', 'u', 'i', 'o', 'p', 'Y', 'U', 'I', 'O', 'P', 'd', 'j', 'k', 'l', 'r', 'c',
    ];
    assert(bound[0] == 'y' && bound[1] == 'u' && bound[2] == 'i' && bound[3] == 'o' && bound[4]
        == 'p');
    assert(bound[5] == 'Y' && bound[6] == 'U' && bound[7] == 'I' && bound[8] == 'O' && bound[9]
        == 'P');
    assert(bound[10] == 'd' && bound[11] == 'j' && bound[12] == 'k' && bound[13] == 'l');
    assert(bound[14] == 'r' && bound[15] == 'c');
}

/// The name of the session, and the sessions that are running, are taken over as they
/// are reported, and drawn. Other events are ignored.
pub proof fn law_reports_of_sessions(
    state: StateView,
    name: Option<Seq<char>>,
    sessions: Seq<Seq<char>>,
)
    ensures
        state.updated(EventView::ModeUpdate(name)) == (
            (StateView { current_session_name: name, ..state }),
            (ReactionView { should_render: true, steps: Seq::empty() }),
        ),
        state.updated(EventView::SessionUpdate(sessions)) == (
            (StateView { sessions: Some(sessions), ..state }),
            (ReactionView { should_render: true, steps: Seq::empty() }),
        ),
        state.updated(EventView::Other) == (
            state,
            (ReactionView { should_render: false, steps: Seq::empty() }),
        ),
{
}

/// With the permissions granted, the home folder is looked up; without them, that is
/// shown.
pub proof fn law_permissions_decide(state: StateView)
    ensures
        state.updated(EventView::PermissionRequestResult(PermissionStatus::Granted)) == (
            state,
            (ReactionView {
                should_render: true,
                steps: seq![
                    StepView::Act(
                        ActionView::RunCommand {
                            command: seq!["sh"@, "-c"@, "echo $HOME"@],
                            context: seq![("action"@, "resolve_home"@)],
                        },
                    ),
                ],
            }),
        ),
        state.updated(EventView::PermissionRequestResult(PermissionStatus::Denied)) == (
            (StateView {
                error: Some("Permissions denied. Please grant all requested permissions."@),
                ..state
            }),
            (ReactionView { should_render: true, steps: Seq::empty() }),
        ),
{
}

/// The end of the look-up of the home folder. Where the command succeeded and printed
/// `home`, with nothing but white space around it, the folder for the slot file is made
/// below it; where it failed, or what it printed is no UTF-8 text or is blank, that is
/// shown.
pub proof fn law_home_leads_to_folder(
    state: StateView,
    exit_code: Option<i32>,
    stdout: Seq<u8>,
    context: Seq<(Seq<char>, Seq<char>)>,
    at: int,
    home: Seq<char>,
    before: Seq<char>,
    after: Seq<char>,
)
    requires
        0 <= at < context.len(),
        context[at].0 == "action"@,
        context[at].1 == "resolve_home"@,
        forall|k: int| 0 <= k < at ==> (#[trigger] context[k]).0 != "action"@,
        valid_utf8(stdout) ==> decode_utf8(stdout) == before + home + after,
        forall|k: int| 0 <= k < before.len() ==> is_white_space(#[trigger] before[k]),
        forall|k: int| 0 <= k < after.len() ==> is_white_space(#[trigger] after[k]),
        home.len() > 0 ==> !is_white_space(home[0]) && !is_white_space(home.last()),
    ensures
        ({
            let (end, reaction) = state.updated(
                EventView::RunCommandResult { exit_code, stdout, context },
            );
            &&& reaction.should_render
            &&& exit_code == Some(0i32) && valid_utf8(stdout) && home.len() > 0 ==> {
                &&& end == state
                &&& reaction.steps == seq![
                    StepView::Act(
                        ActionView::RunCommand {
                            command: seq!["mkdir"@, "-p"@, home + "/.config/zellij"@],
                            context: seq![
                                ("action"@, "mkdir_config"@),
                                ("config_dir"@, home + "/.config/zellij"@),
                            ],
                        },
                    ),
                ]
            }
            &&& exit_code != Some(0i32) ==> end == (StateView {
                error: Some("Failed to resolve $HOME"@),
                ..state
            }) && reaction.steps.len() == 0
            &&& exit_code == Some(0i32) && !valid_utf8(stdout) ==> end == (StateView {
                error: Some("$HOME is not valid UTF-8"@),
                ..state
            }) && reaction.steps.len() == 0
            &&& exit_code == Some(0i32) && valid_utf8(stdout) && home.len() == 0 ==> end == (
            StateView { error: Some("$HOME is empty"@), ..state }) && reaction.steps.len() == 0
        }),
{
    law_context_gives_first_entry(context, "action"@, at);
    law_trimming_takes_off_the_ends(before, home, after);
}

/// The end of the command that makes the folder. Where it succeeded, the slot file is
/// looked for in the folder that the command was given, the slots are read, and then
/// every request that waited is taken up, in the order in which they came; from now on
/// none waits. Where it failed, or does not say which folder it made, that is shown.
pub proof fn law_folder_leads_to_slots(
    state: StateView,
    exit_code: Option<i32>,
    stdout: Seq<u8>,
    context: Seq<(Seq<char>, Seq<char>)>,
    at: int,
    dir_at: int,
)
    requires
        0 <= at < context.len(),
        context[at].0 == "action"@,
        context[at].1 == "mkdir_config"@,
        forall|k: int| 0 <= k < at ==> (#[trigger] context[k]).0 != "action"@,
        0 <= dir_at < context.len() ==> context[dir_at].0 == "config_dir"@ && (forall|k: int|
            0 <= k < dir_at ==> (#[trigger] context[k]).0 != "config_dir"@),
        !(0 <= dir_at < context.len()) ==> (forall|k: int|
            0 <= k < context.len() ==> (#[trigger] context[k]).0 != "config_dir"@),
    ensures
        ({
            let (end, reaction) = state.updated(
                EventView::RunCommandResult { exit_code, stdout, context },
            );
            &&& reaction.should_render
            &&& exit_code == Some(0i32) && 0 <= dir_at < context.len() ==> {
                &&& end == (StateView {
                    host_folder_ready: true,
                    pending_actions: Seq::empty(),
                    ..state
                })
                &&& reaction.steps.len() == 2 + state.pending_actions.len()
                &&& reaction.steps[0] == StepView::Act(
                    ActionView::ChangeHostFolder(context[dir_at].1),
                )
                &&& reaction.steps[1] == StepView::Begin(Task::Reload)
                &&& forall|i: int|
                    0 <= i < state.pending_actions.len() ==> match #[trigger] state.pending_actions[i] {
                        PendingAction::Jump(slot) => reaction.steps[2 + i] == StepView::Begin(
                            Task::Jump(slot),
                        ),
                        PendingAction::Assign(slot) => reaction.steps[2 + i] == StepView::Begin(
                            Task::Assign(slot),
                        ),
                    }
            }
            &&& exit_code != Some(0i32) ==> end == (StateView {
                error: Some("Failed to create config directory"@),
                ..state
            }) && reaction.steps.len() == 0
            &&& exit_code == Some(0i32) && !(0 <= dir_at < context.len()) ==> end == (StateView {
                error: Some("Missing config_dir in context"@),
                ..state
            }) && reaction.steps.len() == 0
        }),
{
    law_context_gives_first_entry(context, "action"@, at);
    law_context_gives_first_entry(context, "config_dir"@, dir_at);
    reveal_strlit("resolve_home");
    reveal_strlit("mkdir_config");
    assert("resolve_home"@[0] == 'r' && "mkdir_config"@[0] == 'm');
}

/// The end of any other command changes nothing.
pub proof fn law_other_commands_are_ignored(
    state: StateView,
    exit_code: Option<i32>,
    stdout: Seq<u8>,
    context: Seq<(Seq<char>, Seq<char>)>,
    at: int,
)
    requires
        (forall|k: int| 0 <= k < context.len() ==> (#[trigger] context[k]).0 != "action"@) || (0
            <= at < context.len() && context[at].0 == "action"@ && context[at].1
            != "resolve_home"@ && context[at].1 != "mkdir_config"@ && (forall|k: int|
            0 <= k < at ==> (#[trigger] context[k]).0 != "action"@)),
    ensures
        state.updated(EventView::RunCommandResult { exit_code, stdout, context }) == (
            state,
            (ReactionView { should_render: true, steps: Seq::empty() }),
        ),
{
    law_context_gives_first_entry(context, "action"@, at);
}

} // verus!
