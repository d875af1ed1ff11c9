use vstd::prelude::*;

use crate::player::Player;
use crate::ship::Ship;

verus! {

/// How many vessels of each kind a fleet may hold.
#[derive(Clone, Copy, Debug, PartialEq, Eq, Structural)]
pub struct GameRules {
    pub submarine_limit: u8,
    pub destroyer_limit: u8,
    pub cruiser_limit: u8,
    pub battleship_limit: u8,
}

impl GameRules {
    /// The limit for vessels that cover `size` cells.
    pub open spec fn limit_for(self, size: nat) -> u8 {
        if size == 1 {
            self.submarine_limit
        } else if size == 2 {
            self.destroyer_limit
        } else if size == 3 {
            self.cruiser_limit
        } else if size == 4 {
            self.battleship_limit
        } else {
            0
        }
    }

    pub open spec fn spec_can_place(self, player: Player, ship: Ship) -> bool {
        player.count_for(ship.spec_size()) < self.limit_for(ship.spec_size())
    }

    /// Whether the fleet may still take a vessel of some kind.
    pub open spec fn spec_available(self, player: Player) -> bool {
        player.submarines < self.submarine_limit || player.destroyers < self.destroyer_limit
            || player.cruisers < self.cruiser_limit || player.battleships
            < self.battleship_limit
    }

    /// The standard fleet: four submarines, three destroyers, two cruisers
    /// and one battleship.
    pub fn new() -> (r: GameRules)
        ensures
            r.submarine_limit == 4,
            r.destroyer_limit == 3,
            r.cruiser_limit == 2,
            r.battleship_limit == 1,
    {
        GameRules { submarine_limit: 4, destroyer_limit: 3, cruiser_limit: 2, battleship_limit: 1 }
    }

    /// Whether the fleet holds fewer vessels of the kind of `ship` than allowed.
    pub fn can_place_ship(&self, player: &Player, ship: Ship) -> (r: bool)
        ensures
            r == self.spec_can_place(*player, ship),
    {
        match ship {
            Ship::Submarine => player.submarines < self.submarine_limit,
            Ship::Destroyer(_) => player.destroyers < self.destroyer_limit,
            Ship::Cruiser(_) => player.cruisers < self.cruiser_limit,
            Ship::Battleship(_) => player.battleships < self.battleship_limit,
        }
    }

    /// Whether the fleet may still take a vessel of any kind.
    pub fn has_available_ships(&self, player: &Player) -> (r: bool)
        ensures
            r == self.spec_available(*player),
    {
        player.submarines < self.submarine_limit || player.destroyers < self.destroyer_limit
            || player.cruisers < self.cruiser_limit || player.battleships
            < self.battleship_limit
    }
}

} // verus!
