//! Core of the Torii terminal client: everything it decides, with proofs.

pub mod actions;
pub mod agent_keys;
pub mod agent_layout;
pub mod boards;
pub mod choice_laws;
pub mod choices;
pub mod clipboard;
pub mod composer;
pub mod composer_state;
pub mod connection;
pub mod dialog;
pub mod dialog_keys;
pub mod dialogs;
pub mod digest;
pub mod dispatch;
pub mod entry_view;
pub mod events;
pub mod fixtures;
pub mod geometry;
pub mod harness;
pub mod hits;
pub mod idset;
pub mod images;
pub mod incoming;
pub mod incoming_laws;
pub mod input_laws;
pub mod line_diff;
pub mod markdown;
pub mod markdown_events;
pub mod markdown_laws;
pub mod markdown_table;
pub mod mock;
pub mod mouse;
pub mod offers;
pub mod overlay;
pub mod panes;
pub mod paste_editor;
pub mod picker;
pub mod pickers;
pub mod places;
pub mod prompt;
pub mod requests;
pub mod result_diff;
pub mod screen;
pub mod screen_laws;
pub mod scrolling;
pub mod sessions;
pub mod slash;
pub mod startup;
pub mod state;
pub mod state_types;
pub mod streaming;
pub mod styled;
pub mod supervisor;
pub mod task;
pub mod text;
pub mod tool_calls;
pub mod transcript;
pub mod transcript_keys;
pub mod tree;
pub mod update;
pub mod view_keys;
pub mod view_laws;
pub mod width;
pub mod workflow;
pub mod workflow_run;
pub mod workflow_store;
pub mod wrap;
