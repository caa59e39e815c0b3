# harpoon

A plugin for the Zellij terminal multiplexer that keeps up to five panes within reach:
`Y U I O P` lets a slot lead to the focused pane, `y u i o p` jumps there from any
session, and `d` followed by a slot key frees the slot.

- `src/` is the library, verified with Verus: the slots, the plugin's state, its reaction
  to every event, key and piped message, and the screen.
  - `model.rs` describes the plugin as a transition system; `state.rs` implements it.
  - `laws.rs` and `run.rs` prove what holds of the plugin as a whole, for example that a
    jump leads to the pane that was focused when its slot was assigned.
  - `style.rs` and `text.rs` hold the few functions of other libraries that the proofs
    rely on.
- `app/` is the plugin itself: it talks to Zellij, and reads and writes the slot file.
- `tests/` runs the library on concrete inputs.
