//! Turning a game state into the byte frame a terminal shows.

use vstd::prelude::*;
use crate::game::GameState;
use crate::game::Cell;
use crate::game::BOARD_HEIGHT;
use crate::game::BOARD_WIDTH;

verus! {

/// The decimal digits of `n`, most significant first; zero is the single
/// digit `'0'`.
pub open spec fn dec_digits(n: nat) -> Seq<u8>
    decreases n,
{
    if n < 10 {
        seq![(48 + n) as u8]
    } else {
        dec_digits(n / 10) + seq![(48 + n % 10) as u8]
    }
}

/// The decimal text of `n`, most significant digit first.
pub fn number_text(n: u32) -> (r: Vec<u8>)
    ensures
        r@ == dec_digits(n as nat),
{
    let mut out: Vec<u8> = Vec::new();
    if n == 0 {
        out.push(48);
        proof {
            assert(out@ =~= dec_digits(0));
        }
        return out;
    }
    let mut digits: Vec<u8> = Vec::new();
    let mut num: u32 = n;
    while num > 0
        invariant
            num > 0 ==> dec_digits(n as nat) == dec_digits(num as nat) + digits@.reverse(),
            num == 0 ==> dec_digits(n as nat) == digits@.reverse(),
            num <= n,
            n > 0,
        decreases num,
    {
        let d: u8 = (num % 10) as u8 + 48;
        proof {
            let ghost pre = digits@;
            assert(pre.push(d).reverse() =~= seq![d] + pre.reverse());
            if num >= 10 {
                assert(dec_digits(num as nat) == dec_digits((num / 10) as nat) + seq![d]);
                assert(dec_digits((num / 10) as nat) + seq![d] + pre.reverse()
                    =~= dec_digits((num / 10) as nat) + (seq![d] + pre.reverse()));
            } else {
                assert(dec_digits(num as nat) == seq![d]);
                assert(seq![d] + pre.reverse() =~= pre.push(d).reverse());
            }
        }
        digits.push(d);
        num = num / 10;
    }
    let mut i: usize = digits.len();
    while i > 0
        invariant
            i <= digits@.len(),
            out@ == digits@.reverse().take(digits@.len() - i),
        decreases i,
    {
        i = i - 1;
        proof {
            let ghost rev = digits@.reverse();
            let ghost k = digits@.len() - i - 1;
            assert(rev[k] == digits@[i as int]);
            assert(rev.take(k + 1) =~= rev.take(k).push(rev[k]));
        }
        out.push(digits[i]);
    }
    proof {
        assert(digits@.reverse().take(digits@.len() as int) =~= digits@.reverse());
    }
    out
}

/// The byte a board cell renders as.
pub open spec fn cell_char(c: Cell) -> u8 {
    match c {
        Cell::Empty => 32,
        Cell::Wall => 35,
        Cell::SnakeBody => 111,
        Cell::Food => 42,
    }
}

/// ANSI clear-screen-and-home control sequence.
pub open spec fn clear_seq() -> Seq<u8> {
    seq![27u8, 91, 50, 74, 27, 91, 72]
}

/// Carriage return and line feed.
pub open spec fn crlf() -> Seq<u8> {
    seq![13u8, 10]
}

/// The text `"Score: "`.
pub open spec fn score_label() -> Seq<u8> {
    seq![83u8, 99, 111, 114, 101, 58, 32]
}

/// The text `"   Length: "`.
pub open spec fn length_label() -> Seq<u8> {
    seq![32u8, 32, 32, 76, 101, 110, 103, 116, 104, 58, 32]
}

/// The characters of one board row, left to right.
pub open spec fn row_chars(s: GameState, y: int) -> Seq<u8> {
    Seq::new(BOARD_WIDTH as nat, |x: int| cell_char(s.board@[y]@[x]))
}

/// The first `y` board rows, each terminated by CRLF.
pub open spec fn rows_bytes(s: GameState, y: int) -> Seq<u8>
    decreases y,
{
    if y <= 0 {
        Seq::empty()
    } else {
        rows_bytes(s, y - 1) + row_chars(s, y - 1) + crlf()
    }
}

/// The text `"Controls: w/a/s/d to move, r to restart\r\n"`.
pub open spec fn controls_line() -> Seq<u8> {
    seq![
        67u8, 111, 110, 116, 114, 111, 108, 115, 58, 32, 119, 47, 97, 47, 115, 47, 100, 32,
        116, 111, 32, 109, 111, 118, 101, 44, 32, 114, 32, 116, 111, 32, 114, 101, 115, 116,
        97, 114, 116, 13, 10,
    ]
}

/// The text `"GAME OVER! Press any key to restart.\r\n"`.
pub open spec fn game_over_line() -> Seq<u8> {
    seq![
        71u8, 65, 77, 69, 32, 79, 86, 69, 82, 33, 32, 80, 114, 101, 115, 115, 32, 97, 110,
        121, 32, 107, 101, 121, 32, 116, 111, 32, 114, 101, 115, 116, 97, 114, 116, 46, 13, 10,
    ]
}

/// The whole frame for one state: clear sequence, the board rows, the
/// score and length status line, the controls hint, and, on a finished
/// game, the game-over notice.
pub open spec fn frame_bytes(s: GameState) -> Seq<u8> {
    clear_seq() + rows_bytes(s, BOARD_HEIGHT as int) + score_label() + dec_digits(s.score as nat)
        + length_label() + dec_digits(s.snake_body@.len()) + crlf() + controls_line()
        + (if s.game_over { game_over_line() } else { Seq::<u8>::empty() })
}

/// Appends the clear-and-home control sequence.
fn push_clear(out: &mut Vec<u8>)
    ensures
        final(out)@ == old(out)@ + clear_seq(),
{
    out.push(27);
    out.push(91);
    out.push(50);
    out.push(74);
    out.push(27);
    out.push(91);
    out.push(72);
    proof {
        assert(out@ =~= old(out)@ + clear_seq());
    }
}

/// Appends a carriage return and a line feed.
fn push_crlf(out: &mut Vec<u8>)
    ensures
        final(out)@ == old(out)@ + crlf(),
{
    out.push(13);
    out.push(10);
    proof {
        assert(out@ =~= old(out)@ + crlf());
    }
}

/// Appends the text `"Score: "`.
fn push_score_label(out: &mut Vec<u8>)
    ensures
        final(out)@ == old(out)@ + score_label(),
{
    out.push(83);
    out.push(99);
    out.push(111);
    out.push(114);
    out.push(101);
    out.push(58);
    out.push(32);
    proof {
        assert(out@ =~= old(out)@ + score_label());
    }
}

/// Appends the text `"   Length: "`.
fn push_length_label(out: &mut Vec<u8>)
    ensures
        final(out)@ == old(out)@ + length_label(),
{
    out.push(32);
    out.push(32);
    out.push(32);
    out.push(76);
    out.push(101);
    out.push(110);
    out.push(103);
    out.push(116);
    out.push(104);
    out.push(58);
    out.push(32);
    proof {
        assert(out@ =~= old(out)@ + length_label());
    }
}

/// Appends the static control-hint line.
fn push_controls(out: &mut Vec<u8>)
    ensures
        final(out)@ == old(out)@ + controls_line(),
{
    out.push(67);
    out.push(111);
    out.push(110);
    out.push(116);
    out.push(114);
    out.push(111);
    out.push(108);
    out.push(115);
    out.push(58);
    out.push(32);
    out.push(119);
    out.push(47);
    out.push(97);
    out.push(47);
    out.push(115);
    out.push(47);
    out.push(100);
    out.push(32);
    out.push(116);
    out.push(111);
    out.push(32);
    out.push(109);
    out.push(111);
    out.push(118);
    out.push(101);
    out.push(44);
    out.push(32);
    out.push(114);
    out.push(32);
    out.push(116);
    out.push(111);
    out.push(32);
    out.push(114);
    out.push(101);
    out.push(115);
    out.push(116);
    out.push(97);
    out.push(114);
    out.push(116);
    out.push(13);
    out.push(10);
    proof {
        assert(out@ =~= old(out)@ + controls_line());
    }
}

/// Appends the game-over notice line.
fn push_game_over(out: &mut Vec<u8>)
    ensures
        final(out)@ == old(out)@ + game_over_line(),
{
    out.push(71);
    out.push(65);
    out.push(77);
    out.push(69);
    out.push(32);
    out.push(79);
    out.push(86);
    out.push(69);
    out.push(82);
    out.push(33);
    out.push(32);
    out.push(80);
    out.push(114);
    out.push(101);
    out.push(115);
    out.push(115);
    out.push(32);
    out.push(97);
    out.push(110);
    out.push(121);
    out.push(32);
    out.push(107);
    out.push(101);
    out.push(121);
    out.push(32);
    out.push(116);
    out.push(111);
    out.push(32);
    out.push(114);
    out.push(101);
    out.push(115);
    out.push(116);
    out.push(97);
    out.push(114);
    out.push(116);
    out.push(46);
    out.push(13);
    out.push(10);
    proof {
        assert(out@ =~= old(out)@ + game_over_line());
    }
}

/// Serializes one complete frame for the given well-formed state: the
/// clear sequence, every board row, the score and length line, the
/// control hints, and the game-over notice when the game has ended.
/// Performs no mutation of the game.
pub fn render_game(game: &GameState) -> (r: Vec<u8>)
    requires
        game.wf(),
    ensures
        r@ == frame_bytes(*game),
{
    let mut out: Vec<u8> = Vec::new();
    push_clear(&mut out);
    let mut y: usize = 0;
    while y < BOARD_HEIGHT
        invariant
            game.wf(),
            y <= BOARD_HEIGHT,
            out@ == clear_seq() + rows_bytes(*game, y as int),
        decreases BOARD_HEIGHT - y,
    {
        let ghost row_start = out@;
        let mut x: usize = 0;
        while x < BOARD_WIDTH
            invariant
                game.wf(),
                y < BOARD_HEIGHT,
                x <= BOARD_WIDTH,
                row_start == clear_seq() + rows_bytes(*game, y as int),
                out@ == row_start + row_chars(*game, y as int).take(x as int),
            decreases BOARD_WIDTH - x,
        {
            let c = game.board[y][x];
            let ch: u8 = match c {
                Cell::Empty => 32,
                Cell::Wall => 35,
                Cell::SnakeBody => 111,
                Cell::Food => 42,
            };
            out.push(ch);
            proof {
                let rc = row_chars(*game, y as int);
                assert(rc[x as int] == cell_char(game.board@[y as int]@[x as int]));
                assert(rc.take(x as int).push(ch) =~= rc.take(x + 1));
                assert(out@ =~= row_start + rc.take(x + 1));
            }
            x = x + 1;
        }
        proof {
            assert(row_chars(*game, y as int).take(BOARD_WIDTH as int)
                =~= row_chars(*game, y as int));
        }
        push_crlf(&mut out);
        proof {
            assert(rows_bytes(*game, y + 1)
                == rows_bytes(*game, y as int) + row_chars(*game, y as int) + crlf());
            assert(out@ =~= clear_seq() + rows_bytes(*game, y + 1));
        }
        y = y + 1;
    }
    let ghost grid_done = clear_seq() + rows_bytes(*game, BOARD_HEIGHT as int);
    push_score_label(&mut out);
    let mut score_text = number_text(game.score);
    out.append(&mut score_text);
    proof {
        assert(out@ =~= grid_done + score_label() + dec_digits(game.score as nat));
    }
    push_length_label(&mut out);
    proof {
        assert(game.snake_body@.len() < 0x1_0000_0000);
    }
    let mut length_text = number_text(game.snake_body.len() as u32);
    out.append(&mut length_text);
    push_crlf(&mut out);
    push_controls(&mut out);
    proof {
        assert(out@ =~= grid_done + score_label() + dec_digits(game.score as nat)
            + length_label() + dec_digits(game.snake_body@.len()) + crlf() + controls_line());
    }
    if game.game_over {
        push_game_over(&mut out);
    }
    proof {
        assert(out@ =~= frame_bytes(*game));
    }
    out
}

} // verus!
