use vstd::prelude::*;

use crate::error::GameError;

verus! {

/// The phase of a match. Seats are named by their identifiers.
#[derive(Clone, Copy, Debug, PartialEq, Eq, Structural)]
pub enum GameStage {
    /// Fewer than two seats are taken.
    Waiting,
    /// Fleets are being placed; once one seat is done, only the named seat may
    /// still place.
    PlayerShips(Option<u8>),
    /// The named seat fires next.
    PlayerShoots(u8),
    /// The named seat has sunk the other fleet.
    PlayerWins(u8),
}

impl GameStage {
    /// The stage as the seat `my_id` sees it on the wire.
    pub open spec fn spec_code(self, my_id: u8) -> u8 {
        match self {
            GameStage::Waiting => 1,
            GameStage::PlayerShips(who) => if who == Some(my_id) {
                2
            } else {
                3
            },
            GameStage::PlayerShoots(id) => if id == my_id {
                4
            } else {
                5
            },
            GameStage::PlayerWins(id) => if id == my_id {
                6
            } else {
                7
            },
        }
    }

    /// The one-byte code of the stage for the seat `my_id`: the acting seat
    /// and the other one get different codes.
    pub fn try_into_u8(&self, my_id: u8) -> (r: Result<u8, GameError>)
        ensures
            r == Ok::<u8, GameError>(self.spec_code(my_id)),
    {
        match self {
            GameStage::Waiting => Ok(1),
            GameStage::PlayerShips(player) => {
                match player {
                    Some(id) => {
                        if *id == my_id {
                            Ok(2)
                        } else {
                            Ok(3)
                        }
                    },
                    None => Ok(3),
                }
            },
            GameStage::PlayerShoots(player_id) => {
                if *player_id == my_id {
                    Ok(4)
                } else {
                    Ok(5)
                }
            },
            GameStage::PlayerWins(player_id) => {
                if *player_id == my_id {
                    Ok(6)
                } else {
                    Ok(7)
                }
            },
        }
    }
}

} // verus!
