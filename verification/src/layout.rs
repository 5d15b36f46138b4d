//! The panes of the screen and the order in which focus moves over them.

use vstd::prelude::*;

verus! {

/// A pane that can hold the focus.
#[derive(Debug, Clone, Copy, PartialEq, Eq, Hash, Structural)]
pub enum PaneId {
    Dashboard,
    ServerRack,
    NetworkMap,
    TaskTerminal,
}

/// The number of panes that can hold the focus.
pub const PANE_COUNT: usize = 4;

impl PaneId {
    /// The position of the pane in the focus order.
    pub open spec fn spec_position(self) -> int {
        match self {
            PaneId::Dashboard => 0,
            PaneId::ServerRack => 1,
            PaneId::NetworkMap => 2,
            PaneId::TaskTerminal => 3,
        }
    }

    /// The pane at a position of the focus order.
    pub open spec fn spec_at(position: int) -> PaneId {
        if position == 0 {
            PaneId::Dashboard
        } else if position == 1 {
            PaneId::ServerRack
        } else if position == 2 {
            PaneId::NetworkMap
        } else {
            PaneId::TaskTerminal
        }
    }

    /// The pane `direction` steps further in the focus order, wrapping
    /// around at both ends.
    pub open spec fn spec_cycled(self, direction: i32) -> PaneId {
        PaneId::spec_at((self.spec_position() + direction) % (PANE_COUNT as int))
    }

    /// The position of the pane in the focus order.
    pub fn position(self) -> (position: usize)
        ensures
            position as int == self.spec_position(),
            position < PANE_COUNT,
    {
        match self {
            PaneId::Dashboard => 0,
            PaneId::ServerRack => 1,
            PaneId::NetworkMap => 2,
            PaneId::TaskTerminal => 3,
        }
    }

    /// The pane `direction` steps further in the focus order.
    pub fn cycled(self, direction: i32) -> (pane: PaneId)
        ensures
            pane == self.spec_cycled(direction),
    {
        let position: i64 = self.position() as i64 + direction as i64;
        let wrapped: i64 = ((position % 4) + 4) % 4;
        if wrapped == 0 {
            PaneId::Dashboard
        } else if wrapped == 1 {
            PaneId::ServerRack
        } else if wrapped == 2 {
            PaneId::NetworkMap
        } else {
            PaneId::TaskTerminal
        }
    }
}

/// The panes that can hold the focus, in focus order.
pub fn focusable_panes() -> (panes: Vec<PaneId>)
    ensures
        panes@.len() == PANE_COUNT,
        forall|i: int| 0 <= i < PANE_COUNT ==> #[trigger] panes@[i] == PaneId::spec_at(i),
{
    let mut panes: Vec<PaneId> = Vec::new();
    panes.push(PaneId::Dashboard);
    panes.push(PaneId::ServerRack);
    panes.push(PaneId::NetworkMap);
    panes.push(PaneId::TaskTerminal);
    panes
}

/// Stepping forward and then back, or back and then forward, returns to
/// the same pane, and four steps in one direction go once around.
pub proof fn lemma_focus_cycles(pane: PaneId)
    ensures
        pane.spec_cycled(1).spec_cycled(-1i32) == pane,
        pane.spec_cycled(-1i32).spec_cycled(1) == pane,
        pane.spec_cycled(1).spec_cycled(1).spec_cycled(1).spec_cycled(1) == pane,
        pane.spec_cycled(0) == pane,
{
}

} // verus!
