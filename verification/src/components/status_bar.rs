//! The status bar: it names the pane that holds the focus.

use vstd::prelude::*;
use crate::layout::PaneId;

verus! {

/// The state of the status bar.
#[derive(Debug, Clone, Copy, PartialEq, Eq)]
pub struct StatusBar {
    pub focused_pane: PaneId,
}

impl StatusBar {
    /// A status bar with the focus on the dashboard.
    pub fn new() -> (bar: StatusBar)
        ensures
            bar.focused_pane == PaneId::Dashboard,
    {
        StatusBar { focused_pane: PaneId::Dashboard }
    }

    /// Records which pane holds the focus.
    pub fn set_focused_pane(&mut self, pane: PaneId)
        ensures
            final(self).focused_pane == pane,
    {
        self.focused_pane = pane;
    }

    /// The pane that holds the focus.
    pub fn focused_pane(&self) -> (pane: PaneId)
        ensures
            pane == self.focused_pane,
    {
        self.focused_pane
    }
}

} // verus!
