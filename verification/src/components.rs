//! The state behind the panes of the screen: what is selected, what is
//! focused, which task is in progress. Drawing is left to the host.

pub mod dashboard;
pub mod server_rack;
pub mod status_bar;
pub mod task_terminal;
