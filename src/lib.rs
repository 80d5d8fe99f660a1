//! A hexagonal territory board with an orbit camera and a setup/game phase
//! cycle: board generation over axial coordinates, random starting
//! territories, zoom and pan decisions of the camera, validation of the game
//! settings, and the entity lifecycle of each game.
pub mod camera;
pub mod faction;
pub mod floor;
pub mod game;
pub mod game_state_ui;
pub mod map;
pub mod ui;
pub mod world;
