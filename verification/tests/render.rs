use snake_game::game::Direction;
use snake_game::game::GameState;
use snake_game::render::number_text;
use snake_game::render::render_game;

fn text(n: u32) -> String {
    String::from_utf8(number_text(n)).unwrap()
}

#[test]
fn numbers_render_as_decimal_text() {
    assert_eq!(text(0), "0");
    assert_eq!(text(7), "7");
    assert_eq!(text(10), "10");
    assert_eq!(text(109), "109");
    assert_eq!(text(12345), "12345");
    assert_eq!(text(4294967295), "4294967295");
}

fn expected_initial_frame() -> String {
    let mut s = String::new();
    s.push_str("\x1b[2J\x1b[H");
    s.push_str("####################\r\n");
    for _ in 0..6 {
        s.push_str("#                  #\r\n");
    }
    s.push_str("#       ooo    *   #\r\n");
    for _ in 0..6 {
        s.push_str("#                  #\r\n");
    }
    s.push_str("####################\r\n");
    s.push_str("Score: 0   Length: 3\r\n");
    s.push_str("Controls: w/a/s/d to move, r to restart\r\n");
    s
}

#[test]
fn initial_frame_bytes() {
    let g = GameState::new();
    let frame = String::from_utf8(render_game(&g)).unwrap();
    assert_eq!(frame, expected_initial_frame());
}

#[test]
fn frame_after_feeding_shows_score_and_growth() {
    let mut g = GameState::new();
    for _ in 0..5 {
        g.move_snake();
    }
    let frame = String::from_utf8(render_game(&g)).unwrap();
    assert!(frame.contains("Score: 10   Length: 4\r\n"));
    // The grown snake sits at x 12..=15 of row 7; the food moved to (1, 10).
    assert!(frame.contains("#           oooo   #\r\n"));
    assert!(frame.contains("#*                 #\r\n"));
    assert!(!frame.contains("GAME OVER"));
}

#[test]
fn frame_after_death_shows_notice_and_frozen_board() {
    let mut g = GameState::new();
    g.change_direction(Direction::Up);
    for _ in 0..7 {
        g.move_snake();
    }
    assert!(g.game_over);
    let frame = String::from_utf8(render_game(&g)).unwrap();
    assert!(frame.ends_with("GAME OVER! Press any key to restart.\r\n"));
    // The last valid configuration stays visible.
    assert!(frame.contains("#         o        #\r\n"));
}
