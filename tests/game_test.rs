use rusty_battleship::error::GameError;
use rusty_battleship::game::Game;
use rusty_battleship::game_rules::GameRules;
use rusty_battleship::game_stage::GameStage;
use rusty_battleship::player::Player;
use rusty_battleship::playmap::Playmap;
use rusty_battleship::point::{Orientation, Point};
use rusty_battleship::ship::Ship;

fn small_rules() -> GameRules {
    GameRules { submarine_limit: 1, destroyer_limit: 1, cruiser_limit: 0, battleship_limit: 0 }
}

#[test]
fn test_connect() -> Result<(), GameError> {
    let rules = GameRules::new();
    let mut game = Game::new(rules);

    let (connection_id, _) = game.connect()?;
    assert_eq!(connection_id, 1);

    let (connection_id, _) = game.connect()?;
    assert_eq!(connection_id, 2);

    assert!(game.connect().is_err());

    return Ok(());
}

#[test]
fn test_disconnect() -> Result<(), GameError> {
    let rules = GameRules::new();
    let mut game = Game::new(rules);

    let (connection_a, _) = game.connect()?;
    let (connection_b, _) = game.connect()?;

    game.disconnect(connection_a)?;

    assert_eq!(game.connection_a, Some(connection_b));
    assert_eq!(game.connection_b, None);

    return Ok(());
}

#[test]
fn test_trigger_sync() -> Result<(), GameError> {
    let mut game = Game::new(GameRules::new());

    let (_, receiver_a) = game.connect()?;
    let (_, receiver_b) = game.connect()?;

    game.trigger_sync();

    assert_eq!(receiver_a.try_iter().count(), 1);
    assert_eq!(receiver_b.try_iter().count(), 1);

    return Ok(());
}

#[test]
fn trigger_sync_skips_a_dropped_receiver() {
    let mut game = Game::new(GameRules::new());
    let (_, receiver_a) = game.connect().unwrap();
    let (_, receiver_b) = game.connect().unwrap();
    drop(receiver_a);
    game.trigger_sync();
    game.trigger_sync();
    assert_eq!(receiver_b.try_iter().count(), 2);
}

#[test]
fn connect_when_full_is_refused() {
    let mut game = Game::new(GameRules::new());
    game.connect().unwrap();
    game.connect().unwrap();
    assert_eq!(game.connect().err(), Some(GameError::SeatsFull));
    assert_eq!(game.connection_count, 2);
    assert_eq!(game.stage, GameStage::PlayerShips(None));
}

#[test]
fn disconnect_unknown_seat_is_refused() {
    let mut game = Game::new(GameRules::new());
    game.connect().unwrap();
    assert_eq!(game.disconnect(7), Err(GameError::UnknownSeat));
    assert_eq!(game.connection_a, Some(1));
}

#[test]
fn disconnect_mid_placement_resets_and_waits() {
    let mut game = Game::new(small_rules());
    let (a, _) = game.connect().unwrap();
    let (b, _) = game.connect().unwrap();
    game.place_figure(a, Ship::Submarine, Point::new(0, 0).unwrap()).unwrap();
    game.place_figure(b, Ship::Submarine, Point::new(5, 5).unwrap()).unwrap();

    game.disconnect(b).unwrap();
    assert_eq!(game.stage, GameStage::Waiting);
    assert_eq!(game.connection_a, Some(a));
    assert_eq!(game.connection_b, None);
    assert_eq!(game.player_a.ships, Playmap::new());
    assert_eq!(game.player_a.submarines, 0);
    assert_eq!(game.player_b.ships, Playmap::new());

    let r = game.place_figure(a, Ship::Submarine, Point::new(1, 1).unwrap());
    assert_eq!(r, Err(GameError::WrongStage));
    assert_eq!(game.stage, GameStage::Waiting);

    let (c, _) = game.connect().unwrap();
    assert_eq!(c, 3);
    assert_eq!(game.connection_b, Some(3));
    assert_eq!(game.stage, GameStage::PlayerShips(None));
}

#[test]
fn disconnect_of_seat_a_moves_b_into_a() {
    let mut game = Game::new(small_rules());
    let (a, _) = game.connect().unwrap();
    let (b, _) = game.connect().unwrap();
    game.place_figure(b, Ship::Submarine, Point::new(5, 5).unwrap()).unwrap();
    game.disconnect(a).unwrap();
    assert_eq!(game.connection_a, Some(b));
    assert_eq!(game.connection_b, None);
    assert_eq!(game.stage, GameStage::Waiting);
    assert_eq!(game.player_a.ships, Playmap::new());
    assert_eq!(game.player_b.ships, Playmap::new());
}

#[test]
fn place_beyond_limit_is_refused_and_changes_nothing() {
    let mut game = Game::new(small_rules());
    let (a, _) = game.connect().unwrap();
    game.connect().unwrap();
    game.place_figure(a, Ship::Submarine, Point::new(0, 0).unwrap()).unwrap();
    let ships = game.player_a.ships;
    let r = game.place_figure(a, Ship::Submarine, Point::new(5, 5).unwrap());
    assert_eq!(r, Err(GameError::StageOrLimit));
    assert_eq!(game.player_a.ships, ships);
    assert_eq!(game.player_a.submarines, 1);
    let r = game.place_figure(a, Ship::Cruiser(Orientation::Vertical), Point::new(5, 5).unwrap());
    assert_eq!(r, Err(GameError::StageOrLimit));
    assert_eq!(game.player_a.ships, ships);
    assert_eq!(game.player_a.cruisers, 0);
    assert_eq!(game.stage, GameStage::PlayerShips(None));
}

#[test]
fn place_off_grid_in_match_is_refused() {
    let mut game = Game::new(small_rules());
    let (a, _) = game.connect().unwrap();
    game.connect().unwrap();
    let r = game.place_figure(a, Ship::Destroyer(Orientation::Vertical), Point::new(0, 9).unwrap());
    assert_eq!(r, Err(GameError::OutOfRange));
    assert_eq!(game.player_a.ships, Playmap::new());
    assert_eq!(game.player_a.destroyers, 0);
}

#[test]
fn unknown_seat_cannot_place() {
    let mut game = Game::new(small_rules());
    game.connect().unwrap();
    game.connect().unwrap();
    let r = game.place_figure(9, Ship::Submarine, Point::new(0, 0).unwrap());
    assert_eq!(r, Err(GameError::UnknownSeat));
}

#[test]
fn finished_seat_cannot_place_but_may_remove() {
    let mut game = Game::new(GameRules { submarine_limit: 2, destroyer_limit: 0, cruiser_limit: 0, battleship_limit: 0 });
    let (a, _) = game.connect().unwrap();
    let (b, _) = game.connect().unwrap();
    game.place_figure(a, Ship::Submarine, Point::new(0, 0).unwrap()).unwrap();
    game.place_figure(a, Ship::Submarine, Point::new(5, 0).unwrap()).unwrap();
    assert_eq!(game.stage, GameStage::PlayerShips(Some(b)));
    assert_eq!(game.place_figure(a, Ship::Submarine, Point::new(7, 7).unwrap()), Err(GameError::WrongStage));
    game.remove_figure(a, Point::new(5, 0).unwrap()).unwrap();
    assert_eq!(game.player_a.submarines, 1);
    assert_eq!(game.stage, GameStage::PlayerShips(Some(b)));
    assert_eq!(game.remove_figure(b, Point::new(5, 0).unwrap()), Err(GameError::EmptyCell));
}

#[test]
fn shooting_out_of_turn_or_stage_is_refused() {
    let mut game = Game::new(GameRules { submarine_limit: 1, destroyer_limit: 0, cruiser_limit: 0, battleship_limit: 0 });
    let (a, _) = game.connect().unwrap();
    let (b, _) = game.connect().unwrap();
    assert_eq!(game.shoot(a, Point::new(0, 0).unwrap()), Err(GameError::WrongStage));
    game.place_figure(a, Ship::Submarine, Point::new(0, 0).unwrap()).unwrap();
    game.place_figure(b, Ship::Submarine, Point::new(1, 0).unwrap()).unwrap();
    assert_eq!(game.stage, GameStage::PlayerShoots(a));
    assert_eq!(game.shoot(b, Point::new(0, 0).unwrap()), Err(GameError::WrongTurn));
    assert_eq!(game.player_a.shots, Playmap::new());
    assert_eq!(game.remove_figure(a, Point::new(0, 0).unwrap()), Err(GameError::WrongStage));
    game.shoot(a, Point::new(1, 0).unwrap()).unwrap();
    assert_eq!(game.stage, GameStage::PlayerWins(a));
    assert_eq!(game.shoot(a, Point::new(2, 0).unwrap()), Err(GameError::WrongStage));
}

#[test]
fn snapshot_shows_only_hits_of_the_other_fleet() {
    let mut game = Game::new(small_rules());
    let (a, _) = game.connect().unwrap();
    let (b, _) = game.connect().unwrap();
    game.place_figure(a, Ship::Submarine, Point::new(0, 0).unwrap()).unwrap();
    game.place_figure(a, Ship::Destroyer(Orientation::Horizontal), Point::new(2, 2).unwrap()).unwrap();
    game.place_figure(b, Ship::Submarine, Point::new(9, 9).unwrap()).unwrap();
    game.place_figure(b, Ship::Destroyer(Orientation::Vertical), Point::new(4, 4).unwrap()).unwrap();

    let view = game.get_state(a).unwrap();
    assert_eq!(view.enemy_losses, Playmap::new());
    assert_eq!(view.my_ships, game.player_a.ships);

    game.shoot(a, Point::new(4, 5).unwrap()).unwrap();
    game.shoot(a, Point::new(0, 1).unwrap()).unwrap();

    let view = game.get_state(a).unwrap();
    let mut hit = Playmap::new();
    hit.mark_field(Point::new(4, 5).unwrap());
    assert_eq!(view.enemy_losses, hit);
    assert_eq!(view.enemy_losses.intersection(&view.enemy_marks), view.enemy_losses);
    assert!(view.enemy_marks.is_marked_field(Point::new(0, 1).unwrap()));
    assert!(!view.enemy_losses.is_marked_field(Point::new(4, 4).unwrap()));

    let other = game.get_state(b).unwrap();
    assert_eq!(other.my_ships, game.player_b.ships);
    assert_eq!(other.my_marks, view.enemy_marks);
    assert_eq!(other.enemy_losses, Playmap::new());
    assert!(game.get_state(9).is_err());
}

#[test]
fn stage_codes_depend_on_the_viewer() {
    assert_eq!(GameStage::Waiting.try_into_u8(1), Ok(1));
    assert_eq!(GameStage::PlayerShips(Some(1)).try_into_u8(1), Ok(2));
    assert_eq!(GameStage::PlayerShips(Some(1)).try_into_u8(2), Ok(3));
    assert_eq!(GameStage::PlayerShips(None).try_into_u8(1), Ok(3));
    assert_eq!(GameStage::PlayerShoots(2).try_into_u8(2), Ok(4));
    assert_eq!(GameStage::PlayerShoots(2).try_into_u8(1), Ok(5));
    assert_eq!(GameStage::PlayerWins(1).try_into_u8(1), Ok(6));
    assert_eq!(GameStage::PlayerWins(1).try_into_u8(2), Ok(7));
}

#[test]
fn new_game_is_empty() {
    let game = Game::new(GameRules::new());
    assert_eq!(game.stage, GameStage::Waiting);
    assert_eq!(game.player_a.ships, Player::new().ships);
    assert_eq!(game.connection_a, None);
}
