use vstd::prelude::*;

verus! {

/// Ownership label of a tile: `Neutral` means "no owner", the others are players.
#[derive(PartialEq, Eq, Structural, Clone, Copy, Debug, Hash)]
pub enum Faction {
    Neutral,
    Player1,
    Player2,
    Player3,
    Player4,
    Player5,
    Player6,
}

/// Number of player factions.
pub const PLAYER_COUNT: usize = 6;

/// A display colour; each channel is a percentage of full intensity (0..=100).
#[derive(PartialEq, Eq, Structural, Clone, Copy, Debug)]
pub struct Rgb {
    pub red: u8,
    pub green: u8,
    pub blue: u8,
}

/// The `i`-th player faction in the fixed turn order (`Player1` first).
pub open spec fn player_at(i: int) -> Faction {
    if i == 0 {
        Faction::Player1
    } else if i == 1 {
        Faction::Player2
    } else if i == 2 {
        Faction::Player3
    } else if i == 3 {
        Faction::Player4
    } else if i == 4 {
        Faction::Player5
    } else {
        Faction::Player6
    }
}

/// Turn position of a player faction, counted from zero.
pub open spec fn player_index(f: Faction) -> int {
    match f {
        Faction::Neutral => -1,
        Faction::Player1 => 0,
        Faction::Player2 => 1,
        Faction::Player3 => 2,
        Faction::Player4 => 3,
        Faction::Player5 => 4,
        Faction::Player6 => 5,
    }
}

/// Distinct indices below the player count name distinct factions, none of them neutral.
pub proof fn lemma_player_at_injective(i: int, j: int)
    requires
        0 <= i < PLAYER_COUNT,
        0 <= j < PLAYER_COUNT,
    ensures
        player_at(i) != Faction::Neutral,
        player_index(player_at(i)) == i,
        i != j ==> player_at(i) != player_at(j),
{
}

pub open spec fn rgb(red: u8, green: u8, blue: u8) -> Rgb {
    Rgb { red, green, blue }
}

impl Faction {
    /// The colour a tile owned by this faction is drawn in.
    pub open spec fn color_spec(self) -> Rgb {
        match self {
            Faction::Neutral => rgb(50, 50, 50),
            Faction::Player1 => rgb(100, 0, 0),
            Faction::Player2 => rgb(0, 0, 100),
            Faction::Player3 => rgb(0, 100, 0),
            Faction::Player4 => rgb(100, 100, 0),
            Faction::Player5 => rgb(100, 0, 100),
            Faction::Player6 => rgb(0, 100, 100),
        }
    }

    /// Grey for `Neutral`; red, blue, green, yellow, magenta and cyan for the players.
    pub fn color(&self) -> (r: Rgb)
        ensures
            r == self.color_spec(),
    {
        match self {
            Faction::Neutral => Rgb { red: 50, green: 50, blue: 50 },
            Faction::Player1 => Rgb { red: 100, green: 0, blue: 0 },
            Faction::Player2 => Rgb { red: 0, green: 0, blue: 100 },
            Faction::Player3 => Rgb { red: 0, green: 100, blue: 0 },
            Faction::Player4 => Rgb { red: 100, green: 100, blue: 0 },
            Faction::Player5 => Rgb { red: 100, green: 0, blue: 100 },
            Faction::Player6 => Rgb { red: 0, green: 100, blue: 100 },
        }
    }

    /// All player factions in turn order.
    pub fn all_players() -> (r: Vec<Faction>)
        ensures
            r@.len() == PLAYER_COUNT,
            forall|i: int| 0 <= i < PLAYER_COUNT ==> #[trigger] r@[i] == player_at(i),
    {
        vec![
            Faction::Player1,
            Faction::Player2,
            Faction::Player3,
            Faction::Player4,
            Faction::Player5,
            Faction::Player6,
        ]
    }
}

} // verus!
