//! A verified core for a slot-based session switcher that runs inside the Zellij terminal
//! multiplexer: five keys, each of which can hold a pane to jump back to, whatever session
//! the pane is in.
//!
//! [`state`] holds the plugin's state and its reactions, [`model`] says what they are, and
//! [`laws`], [`run`] and the modules whose names begin with `laws_` prove what follows. The
//! host, which reads files and talks to the multiplexer, is outside: [`host`] says what
//! passes between the two.

pub mod host;
pub mod keys;
pub mod laws;
pub mod laws_calls;
pub mod laws_reactions;
pub mod laws_screen;
pub mod laws_search;
pub mod laws_sync;
pub mod laws_tasks;
pub mod laws_views;
pub mod layout;
pub mod model;
pub mod render;
pub mod run;
pub mod slots;
pub mod state;
pub mod style;
pub mod sync;
pub mod text;
