//! Cross-monitor "back and forth" for sway: a mirror workspace on the primary
//! output acts as a bridge to whatever the secondary output shows, and a small
//! state machine keeps the window manager's own focus history consistent.
//!
//! Everything here is pure: the IPC connection, the event subscription and the
//! command sink belong to the caller, which feeds focus events in and carries
//! out the workspace switches that come back.

mod command;
mod history;
mod laws;
mod topology;

pub use command::{spec_switch_command, switch_command, DEFAULT_MIRROR_WS};
pub use history::{
    decide, names_view, outputs_view, redirect, Action, Decision, FocusEvent, HistoryModel,
    WorkspaceHistory,
};
pub use laws::{
    lemma_parking_returns, lemma_pass_through_order, lemma_single_output_no_op,
    lemma_suppressed_run, lemma_suppression_exact, run, step,
};
pub use topology::{listing_map, output_in, TopologySnapshot};
