use vstd::prelude::*;
use crate::faction::Faction;

verus! {

/// The heads-up line that names whose turn it is.
#[derive(PartialEq, Eq, Structural, Clone, Copy, Debug)]
pub struct TurnIndicator {
    pub current_player: Faction,
}

/// Turn position of a faction, counted from one; zero for `Neutral`.
pub open spec fn player_number_spec(f: Faction) -> u32 {
    match f {
        Faction::Neutral => 0,
        Faction::Player1 => 1,
        Faction::Player2 => 2,
        Faction::Player3 => 3,
        Faction::Player4 => 4,
        Faction::Player5 => 5,
        Faction::Player6 => 6,
    }
}

/// The indicator a game starts with: the first player moves first.
pub fn spawn_turn_indicator() -> (r: TurnIndicator)
    ensures
        r == (TurnIndicator { current_player: Faction::Player1 }),
{
    TurnIndicator { current_player: Faction::Player1 }
}

impl TurnIndicator {
    /// The number shown in "Player N's Turn".
    pub fn player_number(&self) -> (r: u32)
        ensures
            r == player_number_spec(self.current_player),
    {
        match self.current_player {
            Faction::Neutral => 0,
            Faction::Player1 => 1,
            Faction::Player2 => 2,
            Faction::Player3 => 3,
            Faction::Player4 => 4,
            Faction::Player5 => 5,
            Faction::Player6 => 6,
        }
    }
}

} // verus!
