use snake::game::GameState;
use snake::grid::{Direction, Position};
use snake::pace::INITIAL_SPEED;
use snake::random::random_position;

fn at(x: i16, y: i16) -> Position {
    Position { x, y }
}

fn body_of(game: &GameState) -> Vec<Position> {
    game.body().iter().copied().collect()
}

fn assert_fresh(game: &GameState, now: u64) {
    assert_eq!(game.head(), at(0, 0));
    assert_eq!(game.direction(), Direction::Right);
    assert_eq!(game.direction().vector(), (1, 0));
    assert!(body_of(game).is_empty());
    assert_eq!(game.score(), 0);
    assert_eq!(game.speed(), INITIAL_SPEED);
    assert!(!game.is_game_over());
    assert!(!game.navigation_lock());
    assert_eq!(game.last_tick(), now);
    assert!(game.target().in_grid());
}

#[test]
fn a_new_session_starts_at_the_origin() {
    let game = GameState::new(42);
    assert_fresh(&game, 42);
}

#[test]
fn a_new_session_takes_the_target_it_is_given() {
    let game = GameState::new_with_target(7, at(13, 0));
    assert_fresh(&game, 7);
    assert_eq!(game.target(), at(13, 0));
}

#[test]
fn reset_restores_every_field() {
    let mut game =
        GameState::from_parts(at(5, 5), Direction::Up, vec![at(5, 6), at(5, 7)], at(5, 4), true, 0)
            .unwrap();
    game.tick_with_target(1_000_000_000, at(1, 1));
    assert_eq!(game.score(), 300);
    game.reset(2_000_000_000);
    assert_fresh(&game, 2_000_000_000);
}

#[test]
fn reset_restores_a_lost_session() {
    let mut game =
        GameState::from_parts(at(13, 5), Direction::Right, vec![at(12, 5)], at(0, 0), false, 0)
            .unwrap();
    game.tick(1_000_000_000);
    assert!(game.is_game_over());
    game.reset_with_target(2_000_000_000, at(3, 4));
    assert_fresh(&game, 2_000_000_000);
    assert_eq!(game.target(), at(3, 4));
}

#[test]
fn random_positions_lie_on_the_grid_and_vary() {
    let mut seen_other_column = false;
    let mut seen_other_row = false;
    let first = random_position();
    for _ in 0..500 {
        let p = random_position();
        assert!(0 <= p.x && p.x < 14, "column {}", p.x);
        assert!(0 <= p.y && p.y < 14, "row {}", p.y);
        if p.x != first.x {
            seen_other_column = true;
        }
        if p.y != first.y {
            seen_other_row = true;
        }
    }
    assert!(first.in_grid());
    assert!(seen_other_column);
    assert!(seen_other_row);
}

#[test]
fn new_targets_vary_between_sessions() {
    let first = GameState::new(0).target();
    let mut varied = false;
    for _ in 0..500 {
        let target = GameState::new(0).target();
        assert!(target.in_grid());
        if target != first {
            varied = true;
        }
    }
    assert!(varied);
}

#[test]
fn a_session_resumes_from_its_parts() {
    let game = GameState::from_parts(
        at(2, 2),
        Direction::Down,
        vec![at(2, 1), at(2, 0), at(1, 0)],
        at(9, 9),
        true,
        123,
    )
    .unwrap();
    assert_eq!(game.head(), at(2, 2));
    assert_eq!(game.direction(), Direction::Down);
    assert_eq!(body_of(&game), vec![at(2, 1), at(2, 0), at(1, 0)]);
    assert_eq!(game.target(), at(9, 9));
    assert_eq!(game.score(), 300);
    assert_eq!(game.speed(), 291_089_700);
    assert!(game.navigation_lock());
    assert!(!game.is_game_over());
    assert_eq!(game.last_tick(), 123);
}

#[test]
fn no_session_has_a_head_off_the_grid() {
    assert!(GameState::from_parts(at(14, 0), Direction::Right, vec![], at(0, 0), false, 0).is_none());
    assert!(GameState::from_parts(at(0, -1), Direction::Right, vec![], at(0, 0), false, 0).is_none());
    assert!(GameState::from_parts(at(13, 13), Direction::Right, vec![], at(0, 0), false, 0).is_some());
}

#[test]
fn no_session_has_a_target_off_the_grid() {
    assert!(GameState::from_parts(at(0, 0), Direction::Right, vec![], at(0, 14), false, 0).is_none());
    assert!(GameState::from_parts(at(0, 0), Direction::Right, vec![], at(-1, 3), false, 0).is_none());
}

#[test]
fn no_session_has_a_body_off_the_grid() {
    let body = vec![at(0, 0), at(-1, 0)];
    assert!(GameState::from_parts(at(1, 0), Direction::Right, body, at(5, 5), false, 0).is_none());
}

#[test]
fn no_session_has_a_body_that_crosses_itself() {
    let body = vec![at(1, 1), at(1, 2), at(1, 1)];
    assert!(GameState::from_parts(at(1, 0), Direction::Right, body, at(5, 5), false, 0).is_none());
}

#[test]
fn no_session_has_its_head_on_its_body() {
    let body = vec![at(1, 1), at(1, 0)];
    assert!(GameState::from_parts(at(1, 0), Direction::Right, body, at(5, 5), false, 0).is_none());
}
