use snake::game::GameState;
use snake::grid::{Direction, Position};
use snake::input::Pressed;

const DIRECTIONS: [Direction; 4] =
    [Direction::Left, Direction::Right, Direction::Up, Direction::Down];

fn at(x: i16, y: i16) -> Position {
    Position { x, y }
}

fn keys(right: bool, left: bool, up: bool, down: bool) -> Pressed {
    Pressed { right, left, up, down }
}

fn travelling(direction: Direction, locked: bool) -> GameState {
    GameState::from_parts(at(5, 5), direction, vec![], at(0, 0), locked, 0).unwrap()
}

#[test]
fn the_four_unit_vectors() {
    assert_eq!(Direction::Left.vector(), (-1, 0));
    assert_eq!(Direction::Right.vector(), (1, 0));
    assert_eq!(Direction::Up.vector(), (0, -1));
    assert_eq!(Direction::Down.vector(), (0, 1));
}

#[test]
fn each_direction_has_its_reverse() {
    assert_eq!(Direction::Left.reverse(), Direction::Right);
    assert_eq!(Direction::Right.reverse(), Direction::Left);
    assert_eq!(Direction::Up.reverse(), Direction::Down);
    assert_eq!(Direction::Down.reverse(), Direction::Up);
}

#[test]
fn a_step_follows_the_vector() {
    assert_eq!(at(5, 5).step(Direction::Left), at(4, 5));
    assert_eq!(at(5, 5).step(Direction::Right), at(6, 5));
    assert_eq!(at(5, 5).step(Direction::Up), at(5, 4));
    assert_eq!(at(5, 5).step(Direction::Down), at(5, 6));
    assert_eq!(at(0, 0).step(Direction::Left), at(-1, 0));
}

#[test]
fn the_grid_has_fourteen_cells_a_side() {
    assert!(at(0, 0).in_grid());
    assert!(at(13, 13).in_grid());
    assert!(!at(14, 0).in_grid());
    assert!(!at(0, 14).in_grid());
    assert!(!at(-1, 0).in_grid());
    assert!(!at(0, -1).in_grid());
}

#[test]
fn a_locked_snake_does_not_turn() {
    let mut game = travelling(Direction::Right, true);
    game.apply_input(keys(false, false, true, false));
    assert_eq!(game.direction(), Direction::Right);
    assert!(game.navigation_lock());
}

#[test]
fn a_held_key_turns_the_snake_and_locks() {
    let mut game = travelling(Direction::Right, false);
    game.apply_input(keys(false, false, true, false));
    assert_eq!(game.direction(), Direction::Up);
    assert!(game.navigation_lock());
    game.apply_input(keys(false, true, false, false));
    assert_eq!(game.direction(), Direction::Up);
    assert!(game.navigation_lock());
}

#[test]
fn no_key_changes_nothing() {
    let mut game = travelling(Direction::Down, false);
    game.apply_input(keys(false, false, false, false));
    assert_eq!(game.direction(), Direction::Down);
    assert!(!game.navigation_lock());
}

#[test]
fn the_reverse_is_refused() {
    let reverse = [
        (Direction::Right, keys(false, true, false, false)),
        (Direction::Left, keys(true, false, false, false)),
        (Direction::Up, keys(false, false, false, true)),
        (Direction::Down, keys(false, false, true, false)),
    ];
    for (direction, pressed) in reverse {
        let mut game = travelling(direction, false);
        game.apply_input(pressed);
        assert_eq!(game.direction(), direction);
        assert!(!game.navigation_lock());
    }
}

#[test]
fn the_present_direction_held_again_locks() {
    let mut game = travelling(Direction::Right, false);
    game.apply_input(keys(true, false, false, false));
    assert_eq!(game.direction(), Direction::Right);
    assert!(game.navigation_lock());
}

#[test]
fn keys_held_together_go_by_right_left_up_down() {
    let mut game = travelling(Direction::Up, false);
    game.apply_input(keys(true, true, true, true));
    assert_eq!(game.direction(), Direction::Right);

    let mut game = travelling(Direction::Up, false);
    game.apply_input(keys(false, true, true, true));
    assert_eq!(game.direction(), Direction::Left);

    let mut game = travelling(Direction::Left, false);
    game.apply_input(keys(false, false, true, true));
    assert_eq!(game.direction(), Direction::Up);

    let mut game = travelling(Direction::Left, false);
    game.apply_input(keys(false, true, false, true));
    assert_eq!(game.direction(), Direction::Left);
}

#[test]
fn a_refused_key_gives_way_to_the_next_in_order() {
    let mut game = travelling(Direction::Left, false);
    game.apply_input(keys(true, false, true, false));
    assert_eq!(game.direction(), Direction::Up);
    assert!(game.navigation_lock());

    let mut game = travelling(Direction::Right, false);
    game.apply_input(keys(false, true, false, true));
    assert_eq!(game.direction(), Direction::Down);

    let mut game = travelling(Direction::Down, false);
    game.apply_input(keys(false, false, true, true));
    assert_eq!(game.direction(), Direction::Down);
    assert!(game.navigation_lock());
}

#[test]
fn select_names_the_first_admitted_key() {
    assert_eq!(keys(false, false, false, false).select(Direction::Up), None);
    assert_eq!(keys(true, true, false, false).select(Direction::Up), Some(Direction::Right));
    assert_eq!(keys(true, true, false, false).select(Direction::Left), Some(Direction::Left));
    assert_eq!(keys(true, false, false, false).select(Direction::Left), None);
    assert_eq!(keys(false, false, true, true).select(Direction::Down), Some(Direction::Down));
    assert_eq!(keys(false, false, true, true).select(Direction::Right), Some(Direction::Up));
}

#[test]
fn input_never_reverses_the_snake() {
    for direction in DIRECTIONS {
        for bits in 0..16u8 {
            let pressed = keys(bits & 1 != 0, bits & 2 != 0, bits & 4 != 0, bits & 8 != 0);
            for locked in [false, true] {
                let mut game = travelling(direction, locked);
                game.apply_input(pressed);
                assert_ne!(game.direction(), direction.reverse());
                if locked {
                    assert_eq!(game.direction(), direction);
                    assert!(game.navigation_lock());
                }
            }
        }
    }
}

#[test]
fn a_lost_session_does_not_turn() {
    let mut game =
        GameState::from_parts(at(13, 5), Direction::Right, vec![], at(0, 0), false, 0).unwrap();
    game.tick(1_000_000_000);
    assert!(game.is_game_over());
    assert!(!game.navigation_lock());
    game.apply_input(keys(false, false, true, false));
    assert_eq!(game.direction(), Direction::Right);
    assert!(!game.navigation_lock());
}
