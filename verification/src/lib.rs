//! Verified core of the `pi` coding-agent command line: argument parsing,
//! picker state machines, scoped-model bookkeeping, slash-command parsing
//! and the text helpers the terminal front end renders with.
use vstd::prelude::*;

pub mod text;
pub mod listnav;
pub mod tree_picker;
pub mod scoped_models;
pub mod args;
pub mod catalog_order;
pub mod scoped_picker;
pub mod rpc;
pub mod settings_picker;
pub mod slash;
pub mod thinking;
pub mod messages;
pub mod share;
pub mod keys;
pub mod session_picker;
pub mod run_plan;
pub mod paths;
pub mod transition;
pub mod list_picker;
pub mod tree_items;
pub mod session_stats;
pub mod changelog;
pub mod compaction;
pub mod rpc_events;
pub mod transcript;
pub mod settings_file;
pub mod rpc_replies;
pub mod json_text;

verus! {

} // verus!
