use hexgame::ui::{GameSettings, SettingsError};

fn settings(w: u32, h: u32, p: u32, a: u32, rr: u32) -> GameSettings {
    GameSettings {
        board_width: w,
        board_height: h,
        num_players: p,
        initial_armies: a,
        reinforcement_rate: rr,
    }
}

#[test]
fn default_settings_are_valid() {
    let s = GameSettings::default();
    assert_eq!(s, settings(10, 10, 2, 2, 1));
    assert!(s.validation_errors().is_empty());
    assert!(s.is_valid_settings());
}

#[test]
fn each_bound_is_reported() {
    assert_eq!(settings(4, 10, 2, 2, 1).validation_errors(), vec![SettingsError::BoardWidth]);
    assert_eq!(settings(21, 10, 2, 2, 1).validation_errors(), vec![SettingsError::BoardWidth]);
    assert_eq!(settings(10, 4, 2, 2, 1).validation_errors(), vec![SettingsError::BoardHeight]);
    assert_eq!(settings(10, 10, 1, 2, 1).validation_errors(), vec![SettingsError::NumPlayers]);
    assert_eq!(settings(10, 10, 7, 2, 1).validation_errors(), vec![SettingsError::NumPlayers]);
    assert_eq!(settings(10, 10, 2, 0, 1).validation_errors(), vec![SettingsError::InitialArmies]);
    assert_eq!(settings(10, 10, 2, 6, 1).validation_errors(), vec![SettingsError::InitialArmies]);
    assert_eq!(settings(10, 10, 2, 2, 0).validation_errors(), vec![SettingsError::ReinforcementRate]);
    assert_eq!(settings(10, 10, 2, 2, 11).validation_errors(), vec![SettingsError::ReinforcementRate]);
}

#[test]
fn too_many_players_for_board() {
    // 5 * 5 / 4 = 6, so six players fit on the smallest board.
    assert!(settings(5, 5, 6, 1, 1).is_valid_settings());
    // 0 * 0 / 4 = 0: any player is too many, besides the broken bounds.
    assert_eq!(
        settings(0, 0, 2, 1, 1).validation_errors(),
        vec![SettingsError::BoardWidth, SettingsError::BoardHeight, SettingsError::TooManyPlayers]
    );
    assert_eq!(
        settings(1, 4, 2, 1, 1).validation_errors(),
        vec![SettingsError::BoardWidth, SettingsError::BoardHeight, SettingsError::TooManyPlayers]
    );
}

#[test]
fn errors_listed_in_form_order() {
    assert_eq!(
        settings(30, 1, 7, 0, 99).validation_errors(),
        vec![
            SettingsError::BoardWidth,
            SettingsError::BoardHeight,
            SettingsError::NumPlayers,
            SettingsError::InitialArmies,
            SettingsError::ReinforcementRate,
        ]
    );
}

#[test]
fn huge_board_does_not_overflow() {
    let s = settings(u32::MAX, u32::MAX, 6, 1, 1);
    assert_eq!(s.validation_errors(), vec![SettingsError::BoardWidth, SettingsError::BoardHeight]);
}

#[test]
fn error_messages() {
    assert_eq!(SettingsError::BoardWidth.message(), "Board Width must be between 5 and 20.");
    assert_eq!(SettingsError::TooManyPlayers.message(), "Too many players for the chosen board size.");
    assert_eq!(SettingsError::ReinforcementRate.message(), "Reinforcement Rate must be between 1 and 10.");
}
