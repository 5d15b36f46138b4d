//! What the host is asked to do, and the keys it forwards.

use vstd::prelude::*;
use crate::buildings::BuildingKind;
use crate::layout::PaneId;
use crate::upgrades::UpgradeId;

verus! {

/// A request to the host.
#[derive(Debug, Clone, Copy, PartialEq, Eq)]
pub enum Action {
    Render,
    GameTick,
    Quit,
    Resize(u16, u16),
    NextPane,
    PrevPane,
    FocusPane(PaneId),
    PurchaseBuilding(BuildingKind),
    UpgradeBuilding(BuildingKind),
    PurchaseUpgrade(UpgradeId),
    TaskInput(char),
    TaskSelect(usize),
    TaskSubmit,
    Prestige,
    /// The key was used up; nothing is asked of the host.
    Nothing,
}

/// A key press as the panes read it.
#[derive(Debug, Clone, Copy, PartialEq, Eq)]
pub enum Key {
    Char(char),
    Backspace,
    Enter,
    Up,
    Down,
    Tab,
    BackTab,
    Esc,
    /// Any key that nothing reads.
    Other,
}

impl Key {
    /// The key moves a selection up: the arrow, or `k`.
    pub open spec fn spec_is_up(self) -> bool {
        self == Key::Up || self == Key::Char('k')
    }

    /// The key moves a selection down: the arrow, or `j`.
    pub open spec fn spec_is_down(self) -> bool {
        self == Key::Down || self == Key::Char('j')
    }

    /// Whether the key moves a selection up.
    pub fn is_up(self) -> (up: bool)
        ensures
            up == self.spec_is_up(),
    {
        match self {
            Key::Up => true,
            Key::Char(c) => c == 'k',
            _ => false,
        }
    }

    /// Whether the key moves a selection down.
    pub fn is_down(self) -> (down: bool)
        ensures
            down == self.spec_is_down(),
    {
        match self {
            Key::Down => true,
            Key::Char(c) => c == 'j',
            _ => false,
        }
    }
}

} // verus!
