//! Copy mode and the agent panel of a terminal multiplexer's client shell,
//! as verified state machines and layouts.
pub mod agent_panel;
pub mod copy_enter;
pub mod copy_keys;
pub mod copy_mode;
pub mod copy_pipeline;
pub mod copy_search;
pub mod copy_state;
pub mod copy_view;
pub mod selection;
pub mod text_editor;
pub mod types;
pub mod shell;
