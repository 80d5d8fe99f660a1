use vstd::prelude::*;
use crate::camera::{CameraController, zoomed};
use crate::faction::Faction;
use crate::game::{
    ArmyCountDisplay, assign_initial_territories, assign_territories_in_order, assigned_by,
    claim_count, positions_of, spawn_army_text_ui,
};
use crate::game_state_ui::{TurnIndicator, spawn_turn_indicator};
use crate::map::{
    HexAxialPos, MapTile, generated_board, lemma_generated_board, positions_unique, setup_map,
};
use crate::ui::GameSettings;

verus! {

/// Top-level mode of the application.
#[derive(PartialEq, Eq, Structural, Clone, Copy, Debug)]
pub enum AppState {
    SetupState,
    GameState,
}

/// Why a request to start a game was turned down.
#[derive(PartialEq, Eq, Structural, Clone, Copy, Debug)]
pub enum TransitionError {
    /// A game is already running.
    NotInSetup,
    /// The settings break a bound of the setup form.
    InvalidSettings,
}

/// Everything the simulation holds: the phase, the settings, and the entities
/// of the current game (tiles, army labels, turn indicator, camera).
pub struct GameWorld {
    state: AppState,
    settings: GameSettings,
    tiles: Vec<MapTile>,
    army_labels: Vec<ArmyCountDisplay>,
    turn_indicator: Option<TurnIndicator>,
    camera: CameraController,
}

/// The contents of a `GameWorld`.
pub struct WorldView {
    pub state: AppState,
    pub settings: GameSettings,
    pub tiles: Seq<MapTile>,
    pub army_labels: Seq<ArmyCountDisplay>,
    pub turn_indicator: Option<TurnIndicator>,
    pub camera: CameraController,
}

impl View for GameWorld {
    type V = WorldView;

    closed spec fn view(&self) -> WorldView {
        WorldView {
            state: self.state,
            settings: self.settings,
            tiles: self.tiles@,
            army_labels: self.army_labels@,
            turn_indicator: self.turn_indicator,
            camera: self.camera,
        }
    }
}

/// Entities removed when a game ends: each tile with its outline, each army
/// label, and the turn indicator.
pub open spec fn tagged_entities(v: WorldView) -> int {
    2 * v.tiles.len() + v.army_labels.len() + if v.turn_indicator.is_some() {
        1int
    } else {
        0int
    }
}

/// The entities of exactly one game of `settings`: a board of
/// `board_width * board_height` tiles on distinct cells, one label per tile,
/// one turn indicator.
pub open spec fn one_generation(v: WorldView) -> bool {
    &&& v.tiles.len() == v.settings.board_width * v.settings.board_height
    &&& positions_unique(v.tiles)
    &&& v.army_labels.len() == v.tiles.len()
    &&& forall|i: int| 0 <= i < v.army_labels.len() ==> (#[trigger] v.army_labels[i]).tile_index == i
    &&& v.turn_indicator.is_some()
}

impl WorldView {
    /// The setup screen holds no game entities; a running game holds exactly
    /// one generation of them, made from valid settings; the camera is sound.
    pub open spec fn wf(self) -> bool {
        &&& self.camera.wf()
        &&& self.state == AppState::SetupState ==> {
            &&& self.tiles.len() == 0
            &&& self.army_labels.len() == 0
            &&& self.turn_indicator.is_none()
        }
        &&& self.state == AppState::GameState ==> {
            &&& self.settings.is_valid()
            &&& one_generation(self)
        }
    }

    /// A game was entered with the current settings: the board was generated
    /// afresh and then claimed in `order`, labels and indicator spawned, the
    /// camera rebuilt.
    pub open spec fn entered_game_with(self, order: Seq<HexAxialPos>) -> bool {
        let s = self.settings;
        let board = generated_board(s.board_width as int, s.board_height as int, s.initial_armies);
        &&& self.state == AppState::GameState
        &&& assigned_by(
            board,
            self.tiles,
            order,
            claim_count(s.num_players as int, order.len() as int),
            s.initial_armies,
        )
        &&& self.turn_indicator == Some(TurnIndicator { current_player: Faction::Player1 })
        &&& self.camera == CameraController::initial()
    }
}

/// Every state reached from the start holds no entities on the setup screen
/// and exactly one generation of them during a game: `3 * w * h + 1`
/// entities, none left over from an earlier game.
pub proof fn lemma_one_generation(v: WorldView)
    requires
        v.wf(),
    ensures
        v.state == AppState::SetupState ==> tagged_entities(v) == 0,
        v.state == AppState::GameState ==> tagged_entities(v) == 3 * (v.settings.board_width
            * v.settings.board_height) + 1,
{
}

impl GameWorld {
    /// The setup screen with default settings and no game entities.
    pub fn new() -> (r: Self)
        ensures
            r@.state == AppState::SetupState,
            r@.settings == (GameSettings {
                board_width: 10,
                board_height: 10,
                num_players: 2,
                initial_armies: 2,
                reinforcement_rate: 1,
            }),
            r@.tiles.len() == 0,
            r@.army_labels.len() == 0,
            r@.turn_indicator.is_none(),
            r@.camera == CameraController::initial(),
            r@.wf(),
    {
        GameWorld {
            state: AppState::SetupState,
            settings: GameSettings::default(),
            tiles: Vec::new(),
            army_labels: Vec::new(),
            turn_indicator: None,
            camera: CameraController::new(),
        }
    }

    pub fn state(&self) -> (r: AppState)
        ensures
            r == self@.state,
    {
        self.state
    }

    pub fn settings(&self) -> (r: GameSettings)
        ensures
            r == self@.settings,
    {
        self.settings
    }

    pub fn tiles(&self) -> (r: &Vec<MapTile>)
        ensures
            r@ == self@.tiles,
    {
        &self.tiles
    }

    pub fn army_labels(&self) -> (r: &Vec<ArmyCountDisplay>)
        ensures
            r@ == self@.army_labels,
    {
        &self.army_labels
    }

    pub fn turn_indicator(&self) -> (r: Option<TurnIndicator>)
        ensures
            r == self@.turn_indicator,
    {
        self.turn_indicator
    }

    pub fn camera(&self) -> (r: CameraController)
        ensures
            r == self@.camera,
    {
        self.camera
    }

    /// Number of entities that the end of the current game removes.
    pub fn tagged_entity_count(&self) -> (r: usize)
        requires
            self@.wf(),
        ensures
            r == tagged_entities(self@),
    {
        proof {
            if self@.state == AppState::GameState {
                assert(self@.tiles.len() <= 400) by (nonlinear_arith)
                    requires
                        self@.tiles.len() == self@.settings.board_width * self@.settings.board_height,
                        self@.settings.board_width <= 20,
                        self@.settings.board_height <= 20,
                ;
            }
        }
        let indicator: usize = if self.turn_indicator.is_some() {
            1
        } else {
            0
        };
        2 * self.tiles.len() + self.army_labels.len() + indicator
    }

    /// The setup form edits the settings; outside the setup screen they stay fixed.
    pub fn set_settings(&mut self, settings: GameSettings) -> (r: bool)
        requires
            old(self)@.wf(),
        ensures
            r == (old(self)@.state == AppState::SetupState),
            r ==> final(self)@ == (WorldView { settings, ..old(self)@ }),
            !r ==> final(self)@ == old(self)@,
            final(self)@.wf(),
    {
        if self.state == AppState::SetupState {
            self.settings = settings;
            true
        } else {
            false
        }
    }

    /// Removes every entity of the current game.
    fn cleanup_game_state(&mut self)
        ensures
            final(self)@ == (WorldView {
                tiles: Seq::empty(),
                army_labels: Seq::empty(),
                turn_indicator: None,
                ..old(self)@
            }),
    {
        self.tiles = Vec::new();
        self.army_labels = Vec::new();
        self.turn_indicator = None;
    }

    /// Turns a freshly generated and claimed board into the running game:
    /// spawns the labels and the indicator and rebuilds the camera.
    fn spawn_game_entities(&mut self, tiles: Vec<MapTile>)
        ensures
            final(self)@.tiles == tiles@,
            final(self)@.state == AppState::GameState,
            final(self)@.settings == old(self)@.settings,
            final(self)@.army_labels.len() == tiles@.len(),
            forall|i: int|
                0 <= i < final(self)@.army_labels.len() ==> (#[trigger] final(self)@.army_labels[i]).tile_index == i,
            final(self)@.turn_indicator == Some(TurnIndicator { current_player: Faction::Player1 }),
            final(self)@.camera == CameraController::initial(),
    {
        let labels = spawn_army_text_ui(&tiles);
        self.tiles = tiles;
        self.army_labels = labels;
        self.turn_indicator = Some(spawn_turn_indicator());
        self.camera = CameraController::new();
        self.state = AppState::GameState;
    }

    /// "Generate Board" with the cells claimed in the given `order` (the last
    /// cell of `order` goes to the first player). Starts a game when the setup
    /// screen is showing and the settings are valid; otherwise says why not and
    /// changes nothing.
    pub fn confirm_setup_with_order(&mut self, order: &Vec<HexAxialPos>) -> (r: Result<(), TransitionError>)
        requires
            old(self)@.wf(),
        ensures
            old(self)@.state != AppState::SetupState ==> r == Err::<(), TransitionError>(TransitionError::NotInSetup),
            old(self)@.state == AppState::SetupState && !old(self)@.settings.is_valid() ==> r == Err::<(), TransitionError>(
                TransitionError::InvalidSettings,
            ),
            r.is_ok() <==> (old(self)@.state == AppState::SetupState && old(self)@.settings.is_valid()),
            r.is_err() ==> final(self)@ == old(self)@,
            r.is_ok() ==> final(self)@.settings == old(self)@.settings && final(self)@.entered_game_with(order@),
            final(self)@.wf(),
    {
        if self.state != AppState::SetupState {
            return Err(TransitionError::NotInSetup);
        }
        if !self.settings.is_valid_settings() {
            return Err(TransitionError::InvalidSettings);
        }
        self.cleanup_game_state();
        let s = self.settings;
        proof {
            assert(s.board_width * s.board_height <= 400) by (nonlinear_arith)
                requires
                    s.board_width <= 20,
                    s.board_height <= 20,
            ;
        }
        let mut tiles = setup_map(s.board_width, s.board_height, s.initial_armies);
        let ghost board = tiles@;
        proof {
            lemma_generated_board(tiles@, s.board_width as int, s.board_height as int, s.initial_armies);
            assert(tiles@ =~= generated_board(s.board_width as int, s.board_height as int, s.initial_armies));
        }
        assign_territories_in_order(&mut tiles, order, s.num_players, s.initial_armies);
        self.spawn_game_entities(tiles);
        Ok(())
    }

    /// "Generate Board": as `confirm_setup_with_order`, the starting cells
    /// drawn at random from the board without repetition.
    pub fn confirm_setup(&mut self) -> (r: Result<(), TransitionError>)
        requires
            old(self)@.wf(),
        ensures
            old(self)@.state != AppState::SetupState ==> r == Err::<(), TransitionError>(TransitionError::NotInSetup),
            old(self)@.state == AppState::SetupState && !old(self)@.settings.is_valid() ==> r == Err::<(), TransitionError>(
                TransitionError::InvalidSettings,
            ),
            r.is_ok() <==> (old(self)@.state == AppState::SetupState && old(self)@.settings.is_valid()),
            r.is_err() ==> final(self)@ == old(self)@,
            r.is_ok() ==> final(self)@.settings == old(self)@.settings && exists|order: Seq<HexAxialPos>|
                #[trigger] order.to_multiset() == positions_of(
                    generated_board(
                        old(self)@.settings.board_width as int,
                        old(self)@.settings.board_height as int,
                        old(self)@.settings.initial_armies,
                    ),
                ).to_multiset() && final(self)@.entered_game_with(order),
            final(self)@.wf(),
    {
        if self.state != AppState::SetupState {
            return Err(TransitionError::NotInSetup);
        }
        if !self.settings.is_valid_settings() {
            return Err(TransitionError::InvalidSettings);
        }
        self.cleanup_game_state();
        let s = self.settings;
        proof {
            assert(s.board_width * s.board_height <= 400) by (nonlinear_arith)
                requires
                    s.board_width <= 20,
                    s.board_height <= 20,
            ;
        }
        let mut tiles = setup_map(s.board_width, s.board_height, s.initial_armies);
        let ghost board = tiles@;
        proof {
            lemma_generated_board(tiles@, s.board_width as int, s.board_height as int, s.initial_armies);
            assert(tiles@ =~= generated_board(s.board_width as int, s.board_height as int, s.initial_armies));
        }
        assign_initial_territories(&mut tiles, s.num_players, s.initial_armies);
        let ghost assigned = tiles@;
        self.spawn_game_entities(tiles);
        proof {
            let order = choose|order: Seq<HexAxialPos>|
                #[trigger] order.to_multiset() == positions_of(board).to_multiset() && assigned_by(
                    board,
                    assigned,
                    order,
                    claim_count(s.num_players as int, board.len() as int),
                    s.initial_armies,
                );
            vstd::seq_lib::to_multiset_len(order);
            vstd::seq_lib::to_multiset_len(positions_of(board));
            assert(self@.entered_game_with(order));
        }
        Ok(())
    }

    /// Escape during a game ends it: its entities are removed and the setup
    /// screen returns. Otherwise nothing changes.
    pub fn handle_escape_key(&mut self, escape_just_pressed: bool)
        requires
            old(self)@.wf(),
        ensures
            escape_just_pressed && old(self)@.state == AppState::GameState ==> final(self)@ == (WorldView {
                state: AppState::SetupState,
                tiles: Seq::empty(),
                army_labels: Seq::empty(),
                turn_indicator: None,
                ..old(self)@
            }),
            !(escape_just_pressed && old(self)@.state == AppState::GameState) ==> final(self)@ == old(self)@,
            final(self)@.wf(),
    {
        if escape_just_pressed && self.state == AppState::GameState {
            self.state = AppState::SetupState;
            self.cleanup_game_state();
        }
    }

    /// Applies one frame's scroll (in thousandths of a line) to the camera
    /// during a game; on the setup screen the camera does not move.
    pub fn zoom_camera(&mut self, scroll: i64)
        requires
            old(self)@.wf(),
        ensures
            old(self)@.state == AppState::GameState ==> final(self)@ == (WorldView {
                camera: CameraController {
                    distance: zoomed(old(self)@.camera, scroll as int) as i64,
                    ..old(self)@.camera
                },
                ..old(self)@
            }),
            old(self)@.state != AppState::GameState ==> final(self)@ == old(self)@,
            final(self)@.wf(),
    {
        if self.state == AppState::GameState {
            self.camera.apply_zoom(scroll);
        }
    }
}

} // verus!
