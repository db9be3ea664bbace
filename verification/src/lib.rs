//! Verified core of the TENEX terminal client: where each key goes and
//! what it does in every view and modal, the command palette's rules, the
//! forms of the settings, nudge, agent and project modals, prefix triggers,
//! Jaeger trace URLs, clipboard path decoding, sign-in, and the decisions
//! the event loop makes. The application performs the I/O and carries out
//! the actions that these functions return.

pub mod text;
pub mod seq_facts;
pub mod jaeger;
pub mod input_prefix;
pub mod view_state;
pub mod commands;
pub mod archive;
pub mod clipboard;
pub mod conversation;
pub mod messages;
pub mod keys;
pub mod events;
pub mod raw_event;
pub mod modal_actions;
pub mod home;
pub mod event_loop;
pub mod fields;
pub mod settings;
pub mod nudges;
pub mod debug_stats;
pub mod agents;
pub mod workspaces;
pub mod editor_keys;
pub mod project_modals;
pub mod auth;
pub mod report_viewer;
pub mod bunker;
pub mod selectors;
pub mod ask;
pub mod modal_routing;
pub mod home_keys;

use vstd::prelude::*;

verus! {

} // verus!
