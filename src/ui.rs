use vstd::prelude::*;

verus! {

/// Configuration of a new game, edited on the setup screen.
#[derive(PartialEq, Eq, Structural, Clone, Copy, Debug)]
pub struct GameSettings {
    pub board_width: u32,
    pub board_height: u32,
    pub num_players: u32,
    pub initial_armies: u32,
    pub reinforcement_rate: u32,
}

/// A reason the setup screen refuses to start a game.
#[derive(PartialEq, Eq, Structural, Clone, Copy, Debug)]
pub enum SettingsError {
    BoardWidth,
    BoardHeight,
    NumPlayers,
    InitialArmies,
    ReinforcementRate,
    TooManyPlayers,
}

pub open spec fn in_range(v: u32, lo: u32, hi: u32) -> bool {
    lo <= v <= hi
}

/// `e` when `bad` holds, nothing otherwise.
pub open spec fn error_if(bad: bool, e: SettingsError) -> Seq<SettingsError> {
    if bad {
        seq![e]
    } else {
        seq![]
    }
}

impl GameSettings {
    /// The errors of these settings, in the order the form lists them.
    pub open spec fn errors_spec(self) -> Seq<SettingsError> {
        error_if(!in_range(self.board_width, 5, 20), SettingsError::BoardWidth)
            + error_if(!in_range(self.board_height, 5, 20), SettingsError::BoardHeight)
            + error_if(!in_range(self.num_players, 2, 6), SettingsError::NumPlayers)
            + error_if(!in_range(self.initial_armies, 1, 5), SettingsError::InitialArmies)
            + error_if(!in_range(self.reinforcement_rate, 1, 10), SettingsError::ReinforcementRate)
            + error_if(
            self.num_players > (self.board_width as int * self.board_height as int) / 4,
            SettingsError::TooManyPlayers,
        )
    }

    /// Every bound of the form holds, and the board has room for the players.
    pub open spec fn is_valid(self) -> bool {
        &&& in_range(self.board_width, 5, 20)
        &&& in_range(self.board_height, 5, 20)
        &&& in_range(self.num_players, 2, 6)
        &&& in_range(self.initial_armies, 1, 5)
        &&& in_range(self.reinforcement_rate, 1, 10)
        &&& self.num_players <= (self.board_width as int * self.board_height as int) / 4
    }

    /// Lists what is wrong with these settings: each bound that is broken, in
    /// form order, and last whether there are more players than a quarter of
    /// the cells.
    pub fn validation_errors(&self) -> (r: Vec<SettingsError>)
        ensures
            r@ == self.errors_spec(),
            r@.len() == 0 <==> self.is_valid(),
    {
        let mut errors: Vec<SettingsError> = Vec::new();
        if self.board_width < 5 || self.board_width > 20 {
            errors.push(SettingsError::BoardWidth);
        }
        if self.board_height < 5 || self.board_height > 20 {
            errors.push(SettingsError::BoardHeight);
        }
        if self.num_players < 2 || self.num_players > 6 {
            errors.push(SettingsError::NumPlayers);
        }
        if self.initial_armies < 1 || self.initial_armies > 5 {
            errors.push(SettingsError::InitialArmies);
        }
        if self.reinforcement_rate < 1 || self.reinforcement_rate > 10 {
            errors.push(SettingsError::ReinforcementRate);
        }
        let w: u64 = self.board_width as u64;
        let h: u64 = self.board_height as u64;
        assert(w * h <= u32::MAX as int * u32::MAX as int) by (nonlinear_arith)
            requires
                w <= u32::MAX,
                h <= u32::MAX,
        ;
        let cells: u64 = w * h;
        if self.num_players as u64 > cells / 4 {
            errors.push(SettingsError::TooManyPlayers);
        }
        assert(errors@ =~= self.errors_spec());
        errors
    }

    /// Whether the form lets the game start.
    pub fn is_valid_settings(&self) -> (r: bool)
        ensures
            r == self.is_valid(),
    {
        let errors = self.validation_errors();
        errors.len() == 0
    }
}

impl Default for GameSettings {
    /// A ten by ten board, two players, two armies, one reinforcement a turn.
    fn default() -> (r: Self)
        ensures
            r == (GameSettings {
                board_width: 10,
                board_height: 10,
                num_players: 2,
                initial_armies: 2,
                reinforcement_rate: 1,
            }),
    {
        GameSettings {
            board_width: 10,
            board_height: 10,
            num_players: 2,
            initial_armies: 2,
            reinforcement_rate: 1,
        }
    }
}

impl SettingsError {
    /// The message the setup form shows for this error.
    pub fn message(&self) -> (r: &'static str)
        ensures
            r@ == self.message_spec(),
    {
        match self {
            SettingsError::BoardWidth => "Board Width must be between 5 and 20.",
            SettingsError::BoardHeight => "Board Height must be between 5 and 20.",
            SettingsError::NumPlayers => "Number of Players must be between 2 and 6.",
            SettingsError::InitialArmies => "Initial Armies per Tile must be between 1 and 5.",
            SettingsError::ReinforcementRate => "Reinforcement Rate must be between 1 and 10.",
            SettingsError::TooManyPlayers => "Too many players for the chosen board size.",
        }
    }

    pub open spec fn message_spec(self) -> Seq<char> {
        match self {
            SettingsError::BoardWidth => "Board Width must be between 5 and 20."@,
            SettingsError::BoardHeight => "Board Height must be between 5 and 20."@,
            SettingsError::NumPlayers => "Number of Players must be between 2 and 6."@,
            SettingsError::InitialArmies => "Initial Armies per Tile must be between 1 and 5."@,
            SettingsError::ReinforcementRate => "Reinforcement Rate must be between 1 and 10."@,
            SettingsError::TooManyPlayers => "Too many players for the chosen board size."@,
        }
    }
}

} // verus!
