//! The server rack: the list of buildings or of upgrades on offer, with a
//! selection that the keys move and act on.

use vstd::prelude::*;
use crate::action::{Action, Key};
use crate::buildings::BuildingKind;
use crate::state::{spec_available_upto, spec_refer_to, GameState, GameView};
use crate::upgrades::Upgrade;

verus! {

/// Which list the rack shows.
#[derive(Debug, Clone, Copy, PartialEq, Eq)]
pub enum RackView {
    Buildings,
    Upgrades,
}

/// The state of the server rack.
#[derive(Debug, Clone, Copy, PartialEq, Eq)]
pub struct ServerRack {
    pub selected_index: usize,
    pub scroll_offset: usize,
    pub view: RackView,
}

/// What a key does to the rack: the rack after it, and what is asked of
/// the host, if the rack read the key at all.
pub struct RackOutcome {
    pub rack: ServerRack,
    pub action: Option<Action>,
}

impl RackView {
    /// The other list.
    pub open spec fn spec_toggled(self) -> RackView {
        match self {
            RackView::Buildings => RackView::Upgrades,
            RackView::Upgrades => RackView::Buildings,
        }
    }
}

impl ServerRack {
    /// The rack as it starts: the buildings, the first of them selected.
    pub open spec fn spec_new() -> ServerRack {
        ServerRack { selected_index: 0, scroll_offset: 0, view: RackView::Buildings }
    }

    /// The rack after a key moved the selection within a list of `len`
    /// entries. Only on the list of buildings does the scroll offset follow
    /// a selection that moves above it.
    pub open spec fn spec_moved(self, key: Key, len: int) -> ServerRack {
        if key.spec_is_up() {
            if self.selected_index > 0 {
                let selected = (self.selected_index - 1) as usize;
                ServerRack {
                    selected_index: selected,
                    scroll_offset: if self.view == RackView::Buildings && selected
                        < self.scroll_offset {
                        selected
                    } else {
                        self.scroll_offset
                    },
                    ..self
                }
            } else {
                self
            }
        } else if key.spec_is_down() && self.selected_index + 1 < len {
            ServerRack { selected_index: (self.selected_index + 1) as usize, ..self }
        } else {
            self
        }
    }

    /// What a key does while the rack lists the buildings shown in
    /// `unlocked`: the arrows, `k` and `j` move the selection, Enter asks to
    /// buy the selected kind and `u` to raise its level; an empty list reads
    /// no key.
    pub open spec fn spec_building_key(self, key: Key, unlocked: Seq<BuildingKind>) -> RackOutcome {
        if unlocked.len() == 0 {
            RackOutcome { rack: self, action: None }
        } else if key.spec_is_up() || key.spec_is_down() {
            RackOutcome {
                rack: self.spec_moved(key, unlocked.len() as int),
                action: Some(Action::Nothing),
            }
        } else if key == Key::Enter && self.selected_index < unlocked.len() {
            RackOutcome {
                rack: self,
                action: Some(Action::PurchaseBuilding(unlocked[self.selected_index as int])),
            }
        } else if key == Key::Char('u') && self.selected_index < unlocked.len() {
            RackOutcome {
                rack: self,
                action: Some(Action::UpgradeBuilding(unlocked[self.selected_index as int])),
            }
        } else {
            RackOutcome { rack: self, action: None }
        }
    }

    /// What a key does while the rack lists the upgrades on offer, whose
    /// identifiers are `available`: the arrows, `k` and `j` move the
    /// selection and Enter asks to purchase the selected upgrade; an empty
    /// list reads no key.
    pub open spec fn spec_upgrade_key(self, key: Key, available: Seq<usize>) -> RackOutcome {
        if available.len() == 0 {
            RackOutcome { rack: self, action: None }
        } else if key.spec_is_up() || key.spec_is_down() {
            RackOutcome {
                rack: self.spec_moved(key, available.len() as int),
                action: Some(Action::Nothing),
            }
        } else if key == Key::Enter && self.selected_index < available.len() {
            RackOutcome {
                rack: self,
                action: Some(Action::PurchaseUpgrade(available[self.selected_index as int])),
            }
        } else {
            RackOutcome { rack: self, action: None }
        }
    }

    /// What a key does to the rack in a game: `r` switches between the two
    /// lists and selects the first entry; every other key goes to the list
    /// shown.
    pub open spec fn spec_key(self, key: Key, game: GameView) -> RackOutcome {
        if key == Key::Char('r') {
            RackOutcome {
                rack: ServerRack {
                    selected_index: 0,
                    scroll_offset: 0,
                    view: self.view.spec_toggled(),
                },
                action: Some(Action::Nothing),
            }
        } else {
            match self.view {
                RackView::Buildings => self.spec_building_key(key, game.unlocked()),
                RackView::Upgrades => self.spec_upgrade_key(
                    key,
                    spec_offered_ids(game),
                ),
            }
        }
    }

    /// The rack as it starts.
    pub fn new() -> (rack: ServerRack)
        ensures
            rack == ServerRack::spec_new(),
    {
        ServerRack { selected_index: 0, scroll_offset: 0, view: RackView::Buildings }
    }

    /// Moves the selection within a list of `len` entries.
    fn move_selection(&mut self, key: Key, len: usize)
        ensures
            *final(self) == old(self).spec_moved(key, len as int),
    {
        if key.is_up() {
            if self.selected_index > 0 {
                self.selected_index = self.selected_index - 1;
                match self.view {
                    RackView::Buildings => {
                        if self.selected_index < self.scroll_offset {
                            self.scroll_offset = self.selected_index;
                        }
                    },
                    RackView::Upgrades => {},
                }
            }
        } else if key.is_down() {
            if self.selected_index < usize::MAX && self.selected_index + 1 < len {
                self.selected_index = self.selected_index + 1;
            }
        }
    }

    /// Handles a key while the buildings are listed.
    fn handle_building_keys(&mut self, key: Key, state: &GameState) -> (action: Option<Action>)
        ensures
            *final(self) == old(self).spec_building_key(key, state@.unlocked()).rack,
            action == old(self).spec_building_key(key, state@.unlocked()).action,
    {
        let unlocked = state.unlocked_buildings();
        if unlocked.len() == 0 {
            return None;
        }
        if key.is_up() || key.is_down() {
            self.move_selection(key, unlocked.len());
            return Some(Action::Nothing);
        }
        match key {
            Key::Enter => {
                if self.selected_index < unlocked.len() {
                    Some(Action::PurchaseBuilding(unlocked[self.selected_index]))
                } else {
                    None
                }
            },
            Key::Char(c) => {
                if c == 'u' && self.selected_index < unlocked.len() {
                    Some(Action::UpgradeBuilding(unlocked[self.selected_index]))
                } else {
                    None
                }
            },
            _ => None,
        }
    }

    /// Handles a key while the upgrades on offer are listed.
    fn handle_upgrade_keys(&mut self, key: Key, state: &GameState) -> (action: Option<Action>)
        ensures
            *final(self) == old(self).spec_upgrade_key(key, spec_offered_ids(state@)).rack,
            action == old(self).spec_upgrade_key(key, spec_offered_ids(state@)).action,
    {
        let available = state.available_upgrades();
        proof {
            lemma_offered_ids(state);
        }
        if available.len() == 0 {
            return None;
        }
        if key.is_up() || key.is_down() {
            self.move_selection(key, available.len());
            return Some(Action::Nothing);
        }
        match key {
            Key::Enter => {
                if self.selected_index < available.len() {
                    Some(Action::PurchaseUpgrade(available[self.selected_index].id))
                } else {
                    None
                }
            },
            _ => None,
        }
    }

    /// Handles a key: moves the selection, switches the list, or asks the
    /// host to buy or upgrade what is selected. Returns nothing where the
    /// rack does not read the key.
    pub fn handle_key_with_state(&mut self, key: Key, state: &GameState) -> (action: Option<
        Action,
    >)
        ensures
            *final(self) == old(self).spec_key(key, state@).rack,
            action == old(self).spec_key(key, state@).action,
    {
        match key {
            Key::Char(c) => {
                if c == 'r' {
                    self.view = match self.view {
                        RackView::Buildings => RackView::Upgrades,
                        RackView::Upgrades => RackView::Buildings,
                    };
                    self.selected_index = 0;
                    self.scroll_offset = 0;
                    return Some(Action::Nothing);
                }
            },
            _ => {},
        }
        match self.view {
            RackView::Buildings => self.handle_building_keys(key, state),
            RackView::Upgrades => self.handle_upgrade_keys(key, state),
        }
    }
}

/// The identifiers of the upgrades on offer in a game, in catalog order.
pub open spec fn spec_offered_ids(game: GameView) -> Seq<usize> {
    let positions = spec_available_upto(game.upgrades, game.upgrades.len() as int);
    Seq::new(positions.len(), |k: int| game.upgrades[positions[k]].id)
}

/// The upgrades that a game reports as on offer carry the offered
/// identifiers.
proof fn lemma_offered_ids(state: &GameState)
    ensures
        forall|available: Seq<&Upgrade>|
            #[trigger] spec_refer_to(
                available,
                state.upgrades@,
                spec_available_upto(state@.upgrades, state.upgrades@.len() as int),
            ) ==> available.len() == spec_offered_ids(state@).len() && forall|k: int|
                0 <= k < available.len() ==> (#[trigger] available[k]).id == spec_offered_ids(
                    state@,
                )[k],
{
    assert forall|available: Seq<&Upgrade>|
        #[trigger] spec_refer_to(
            available,
            state.upgrades@,
            spec_available_upto(state@.upgrades, state.upgrades@.len() as int),
        ) implies available.len() == spec_offered_ids(state@).len() && forall|k: int|
        0 <= k < available.len() ==> (#[trigger] available[k]).id == spec_offered_ids(state@)[k] by {
        let positions = spec_available_upto(state@.upgrades, state.upgrades@.len() as int);
        assert forall|k: int| 0 <= k < available.len() implies (#[trigger] available[k]).id
            == spec_offered_ids(state@)[k] by {
            assert(0 <= positions[k] < state.upgrades@.len());
            assert(*available[k] == state.upgrades@[positions[k]]);
            assert(state@.upgrades[positions[k]] == state.upgrades@[positions[k]]@);
        }
    }
}

/// The selection never leaves a list it is in: within a list of `len`
/// entries a key leaves it within the list.
pub proof fn lemma_selection_stays_in_list(rack: ServerRack, key: Key, len: int)
    requires
        rack.selected_index < len,
    ensures
        rack.spec_moved(key, len).selected_index < len,
        rack.spec_moved(key, len).view == rack.view,
{
}

} // verus!
