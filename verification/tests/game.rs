use snake_game::game::Cell;
use snake_game::game::Command;
use snake_game::game::Direction;
use snake_game::game::GameState;
use snake_game::game::Position;
use snake_game::game::parse_key;
use snake_game::game::BOARD_HEIGHT;
use snake_game::game::BOARD_WIDTH;

fn pos(x: usize, y: usize) -> Position {
    Position { x, y }
}

fn assert_contained(g: &GameState) {
    for p in g.snake_body.iter() {
        assert!(p.x != 0 && p.x != BOARD_WIDTH - 1, "segment on a wall column");
        assert!(p.y != 0 && p.y != BOARD_HEIGHT - 1, "segment on a wall row");
    }
    let f = g.food_position;
    assert!(f.x != 0 && f.x != BOARD_WIDTH - 1 && f.y != 0 && f.y != BOARD_HEIGHT - 1);
}

fn assert_no_overlap(g: &GameState) {
    for i in 0..g.snake_body.len() {
        for j in 0..g.snake_body.len() {
            if i != j {
                assert_ne!(g.snake_body[i], g.snake_body[j], "segments {} and {} overlap", i, j);
            }
        }
    }
}

#[test]
fn initial_state() {
    let g = GameState::new();
    assert_eq!(g.snake_body, vec![pos(10, 7), pos(9, 7), pos(8, 7)]);
    assert_eq!(g.snake_direction, Direction::Right);
    assert_eq!(g.food_position, pos(15, 7));
    assert_eq!(g.score, 0);
    assert!(!g.game_over);
    assert_contained(&g);
    assert_no_overlap(&g);
}

#[test]
fn initial_board_view() {
    let g = GameState::new();
    assert_eq!(g.board.len(), BOARD_HEIGHT);
    for (y, row) in g.board.iter().enumerate() {
        assert_eq!(row.len(), BOARD_WIDTH);
        for (x, cell) in row.iter().enumerate() {
            let p = pos(x, y);
            let expected = if p == g.food_position {
                Cell::Food
            } else if g.snake_body.contains(&p) {
                Cell::SnakeBody
            } else if x == 0 || x == BOARD_WIDTH - 1 || y == 0 || y == BOARD_HEIGHT - 1 {
                Cell::Wall
            } else {
                Cell::Empty
            };
            assert_eq!(*cell, expected, "cell ({}, {})", x, y);
        }
    }
}

#[test]
fn reversal_rejected() {
    let mut g = GameState::new();
    g.change_direction(Direction::Left);
    assert_eq!(g.snake_direction, Direction::Right);
    g.change_direction(Direction::Up);
    assert_eq!(g.snake_direction, Direction::Up);
}

#[test]
fn reversal_rejected_all_headings() {
    let pairs = [
        (Direction::Up, Direction::Down),
        (Direction::Down, Direction::Up),
        (Direction::Left, Direction::Right),
        (Direction::Right, Direction::Left),
    ];
    for (heading, opposite) in pairs {
        let mut g = GameState::new();
        g.snake_direction = heading;
        g.change_direction(opposite);
        assert_eq!(g.snake_direction, heading);
    }
}

#[test]
fn plain_move_shifts_body() {
    let mut g = GameState::new();
    g.move_snake();
    assert_eq!(g.snake_body, vec![pos(11, 7), pos(10, 7), pos(9, 7)]);
    assert_eq!(g.score, 0);
    assert_eq!(g.food_position, pos(15, 7));
    assert!(!g.game_over);
}

#[test]
fn feeding_scenario() {
    let mut g = GameState::new();
    for _ in 0..5 {
        g.move_snake();
    }
    assert_eq!(g.snake_body, vec![pos(15, 7), pos(14, 7), pos(13, 7), pos(12, 7)]);
    assert_eq!(g.snake_body.len(), 4);
    assert_eq!(g.score, 10);
    assert!(!g.game_over);
    // ((15 + 3) mod 18) + 1 = 1, ((7 + 2) mod 13) + 1 = 10, not on the snake.
    assert_eq!(g.food_position, pos(1, 10));
    assert!(!g.snake_body.contains(&g.food_position));
    assert_contained(&g);
    assert_no_overlap(&g);
}

#[test]
fn wall_hit_scenario() {
    let mut g = GameState::new();
    g.change_direction(Direction::Up);
    for _ in 0..6 {
        g.move_snake();
    }
    assert_eq!(g.snake_body[0], pos(10, 1));
    g.change_direction(Direction::Left);
    for _ in 0..9 {
        g.move_snake();
    }
    assert_eq!(g.snake_body, vec![pos(1, 1), pos(2, 1), pos(3, 1)]);
    assert!(!g.game_over);
    g.change_direction(Direction::Up);
    let before = g.clone();
    g.move_snake();
    assert!(g.game_over);
    assert_eq!(g.snake_body, before.snake_body);
    assert_eq!(g.food_position, before.food_position);
    assert_eq!(g.score, before.score);
    assert_eq!(g.board, before.board);
}

#[test]
fn frozen_after_death() {
    let mut g = GameState::new();
    // Run right into the east wall: 8 safe moves, the 9th collides.
    for _ in 0..9 {
        g.move_snake();
    }
    assert!(g.game_over);
    let frozen = g.clone();
    for _ in 0..3 {
        g.move_snake();
        assert_eq!(g, frozen);
    }
}

#[test]
fn containment_and_no_overlap_along_a_run() {
    let mut g = GameState::new();
    let turns = [
        Direction::Up,
        Direction::Left,
        Direction::Down,
        Direction::Right,
        Direction::Down,
        Direction::Left,
    ];
    let mut t = 0;
    while !g.game_over {
        g.change_direction(turns[t % turns.len()]);
        t += 1;
        for _ in 0..3 {
            g.move_snake();
            if !g.game_over {
                assert_contained(&g);
                assert_no_overlap(&g);
            }
        }
        assert!(t < 1000, "run should end at a wall");
    }
    // Death freezes the last valid configuration, still contained.
    assert_contained(&g);
    assert_no_overlap(&g);
}

#[test]
fn reset_matches_fresh_instance() {
    let mut g = GameState::new();
    for _ in 0..5 {
        g.move_snake();
    }
    assert_eq!(g.score, 10);
    g.reset();
    assert_eq!(g, GameState::new());

    // Also from a dead state.
    let mut h = GameState::new();
    for _ in 0..20 {
        h.move_snake();
    }
    assert!(h.game_over);
    h.reset();
    assert_eq!(h, GameState::new());
}

#[test]
fn collision_check_reads_walls_and_body() {
    let g = GameState::new();
    assert!(g.check_collision(pos(0, 7)));
    assert!(g.check_collision(pos(BOARD_WIDTH - 1, 7)));
    assert!(g.check_collision(pos(5, 0)));
    assert!(g.check_collision(pos(5, BOARD_HEIGHT - 1)));
    assert!(g.check_collision(pos(9, 7)));
    assert!(!g.check_collision(pos(5, 5)));
}

#[test]
fn food_nudged_when_candidate_lands_on_snake() {
    let mut g = GameState::new();
    // From food (15, 7) the relocation candidate is (1, 10); park the
    // snake there so the single corrective nudge moves it to (3, 10).
    g.snake_body = vec![pos(1, 10), pos(2, 10), pos(3, 9)];
    g.update_board();
    g.place_new_food();
    assert_eq!(g.food_position, pos(3, 10));
}

#[test]
fn keys_map_to_commands() {
    assert_eq!(parse_key(b'w'), Some(Command::Turn(Direction::Up)));
    assert_eq!(parse_key(b'a'), Some(Command::Turn(Direction::Left)));
    assert_eq!(parse_key(b's'), Some(Command::Turn(Direction::Down)));
    assert_eq!(parse_key(b'd'), Some(Command::Turn(Direction::Right)));
    assert_eq!(parse_key(b'r'), Some(Command::Reset));
    assert_eq!(parse_key(b'q'), None);
    assert_eq!(parse_key(b' '), None);
    assert_eq!(parse_key(0), None);
}
