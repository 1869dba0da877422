//! The snake simulation: board model, movement, collision, feeding,
//! scoring, and reset.
//!
//! The board is a derived view: it is rebuilt from the snake and the food
//! after every mutation and holds no independent truth. The well-formedness
//! predicate [`GameState::wf`] ties the stored grid to that derived view and
//! carries the reachable-state invariants: every snake segment and the food
//! lie strictly inside the wall ring, the segments are pairwise distinct,
//! and the score is ten points for every segment grown past the initial
//! three.

use vstd::prelude::*;

verus! {

/// Width of the board in cells, wall columns included.
pub const BOARD_WIDTH: usize = 20;

/// Height of the board in cells, wall rows included.
pub const BOARD_HEIGHT: usize = 15;

/// Points awarded for each piece of food eaten.
pub const FOOD_REWARD: u32 = 10;

/// One cell of the rendered board.
#[derive(Clone, Copy, PartialEq, Eq, Structural, Debug)]
pub enum Cell {
    Empty,
    Wall,
    SnakeBody,
    Food,
}

/// A cell coordinate: `x` grows rightward, `y` grows downward, both 0-based.
#[derive(Clone, Copy, PartialEq, Eq, Structural, Debug)]
pub struct Position {
    pub x: usize,
    pub y: usize,
}

/// The heading applied to the snake's head on the next tick.
#[derive(Clone, Copy, PartialEq, Eq, Structural, Debug)]
pub enum Direction {
    Up,
    Down,
    Left,
    Right,
}

/// What one input byte asks of the simulation.
#[derive(Clone, Copy, PartialEq, Eq, Structural, Debug)]
pub enum Command {
    Turn(Direction),
    Reset,
}

/// True of positions strictly inside the wall ring.
pub open spec fn interior(p: Position) -> bool {
    &&& 1 <= p.x < BOARD_WIDTH - 1
    &&& 1 <= p.y < BOARD_HEIGHT - 1
}

/// True of positions on (or beyond) the outer wall ring.
pub open spec fn hits_wall(p: Position) -> bool {
    ||| p.x == 0
    ||| p.x >= BOARD_WIDTH - 1
    ||| p.y == 0
    ||| p.y >= BOARD_HEIGHT - 1
}

/// The direction opposite to `d`; a turn to it is rejected.
pub open spec fn opposite(d: Direction) -> Direction {
    match d {
        Direction::Up => Direction::Down,
        Direction::Down => Direction::Up,
        Direction::Left => Direction::Right,
        Direction::Right => Direction::Left,
    }
}

/// One step from `p` in direction `d`, saturating at zero so the result
/// stays representable; the wall ring makes a saturated step fatal anyway.
pub open spec fn step_pos(p: Position, d: Direction) -> Position {
    match d {
        Direction::Up => Position { x: p.x, y: if p.y == 0 { 0usize } else { (p.y - 1) as usize } },
        Direction::Down => Position { x: p.x, y: (p.y + 1) as usize },
        Direction::Left => Position { x: if p.x == 0 { 0usize } else { (p.x - 1) as usize }, y: p.y },
        Direction::Right => Position { x: (p.x + 1) as usize, y: p.y },
    }
}

/// True when moving the head to `p` ends the game: `p` lies on the wall
/// ring or on a current snake segment.
pub open spec fn collides(snake: Seq<Position>, p: Position) -> bool {
    hits_wall(p) || snake.contains(p)
}

/// The first candidate for a relocated food: a fixed modular offset from
/// the previous food position, always an interior cell.
pub open spec fn food_candidate(f: Position) -> Position {
    Position {
        x: (((f.x + 3) % (BOARD_WIDTH - 2)) + 1) as usize,
        y: (((f.y + 2) % (BOARD_HEIGHT - 2)) + 1) as usize,
    }
}

/// Where relocated food lands: the candidate, or, when the candidate sits
/// on a snake segment, the candidate nudged one column (accepted without
/// further retry even if the nudge still collides).
pub open spec fn place_food_spec(snake: Seq<Position>, f: Position) -> Position {
    let c = food_candidate(f);
    if snake.contains(c) {
        Position { x: (((c.x + 1) % (BOARD_WIDTH - 2)) + 1) as usize, y: c.y }
    } else {
        c
    }
}

/// The derived board cell at `(x, y)`: food, else snake, else wall ring,
/// else empty.
pub open spec fn derived_cell(snake: Seq<Position>, food: Position, x: int, y: int) -> Cell {
    let p = Position { x: x as usize, y: y as usize };
    if p == food {
        Cell::Food
    } else if snake.contains(p) {
        Cell::SnakeBody
    } else if x == 0 || x == BOARD_WIDTH - 1 || y == 0 || y == BOARD_HEIGHT - 1 {
        Cell::Wall
    } else {
        Cell::Empty
    }
}

/// The snake of a freshly constructed or reset game: length 3, centered,
/// head first.
pub open spec fn initial_snake() -> Seq<Position> {
    seq![
        Position { x: 10, y: 7 },
        Position { x: 9, y: 7 },
        Position { x: 8, y: 7 },
    ]
}

/// The whole game: the derived board grid, the snake from head to tail,
/// its heading, the food, the score, and the terminal flag.
#[derive(Clone, PartialEq, Eq, Debug)]
pub struct GameState {
    pub board: Vec<Vec<Cell>>,
    pub snake_body: Vec<Position>,
    pub snake_direction: Direction,
    pub food_position: Position,
    pub score: u32,
    pub game_over: bool,
}

/// The state every freshly constructed or reset game is in. Together with
/// [`GameState::wf`], which derives the board from snake and food, this
/// pins the whole observable state.
pub open spec fn is_initial(s: GameState) -> bool {
    &&& s.snake_body@ == initial_snake()
    &&& s.snake_direction == Direction::Right
    &&& s.food_position == (Position { x: 15, y: 7 })
    &&& s.score == 0
    &&& !s.game_over
}

impl GameState {
    /// The stored grid is exactly the view derived from snake and food.
    pub open spec fn board_derived(self) -> bool {
        &&& self.board@.len() == BOARD_HEIGHT
        &&& forall|y: int| #![auto] 0 <= y < BOARD_HEIGHT ==> self.board@[y]@.len() == BOARD_WIDTH
        &&& forall|y: int, x: int| #![auto]
              0 <= y < BOARD_HEIGHT && 0 <= x < BOARD_WIDTH
                  ==> self.board@[y]@[x] == derived_cell(self.snake_body@, self.food_position, x, y)
    }

    /// The snake is at least its initial length, every segment is an
    /// interior cell, and no two segments coincide.
    pub open spec fn snake_ok(self) -> bool {
        &&& self.snake_body@.len() >= 3
        &&& forall|i: int| #![auto] 0 <= i < self.snake_body@.len() ==> interior(self.snake_body@[i])
        &&& forall|i: int, j: int| #![auto]
              0 <= i < j < self.snake_body@.len() ==> self.snake_body@[i] != self.snake_body@[j]
    }

    /// Well-formedness: holds of every reachable state and is preserved by
    /// every operation.
    pub open spec fn wf(self) -> bool {
        &&& self.snake_ok()
        &&& interior(self.food_position)
        &&& self.score == FOOD_REWARD * (self.snake_body@.len() - 3)
        &&& self.board_derived()
    }

    /// The cell the head moves onto on the next tick.
    pub open spec fn next_head(self) -> Position {
        step_pos(self.snake_body@[0], self.snake_direction)
    }
}

/// True iff `p` is one of the snake's segments.
pub fn snake_contains(snake: &Vec<Position>, p: Position) -> (r: bool)
    ensures
        r == snake@.contains(p),
{
    let mut i: usize = 0;
    while i < snake.len()
        invariant
            i <= snake@.len(),
            forall|j: int| 0 <= j < i ==> snake@[j] != p,
        decreases snake@.len() - i,
    {
        if snake[i] == p {
            proof {
                assert(snake@[i as int] == p);
            }
            return true;
        }
        i = i + 1;
    }
    false
}

/// One row of the derived board view.
fn build_row(snake: &Vec<Position>, food: Position, y: usize) -> (row: Vec<Cell>)
    requires
        y < BOARD_HEIGHT,
    ensures
        row@.len() == BOARD_WIDTH,
        forall|x: int| #![auto] 0 <= x < BOARD_WIDTH ==> row@[x] == derived_cell(snake@, food, x, y as int),
{
    let mut row: Vec<Cell> = Vec::new();
    let mut x: usize = 0;
    while x < BOARD_WIDTH
        invariant
            x <= BOARD_WIDTH,
            y < BOARD_HEIGHT,
            row@.len() == x,
            forall|xx: int| #![auto] 0 <= xx < x ==> row@[xx] == derived_cell(snake@, food, xx, y as int),
        decreases BOARD_WIDTH - x,
    {
        let p = Position { x, y };
        let c = if p == food {
            Cell::Food
        } else if snake_contains(snake, p) {
            Cell::SnakeBody
        } else if x == 0 || x == BOARD_WIDTH - 1 || y == 0 || y == BOARD_HEIGHT - 1 {
            Cell::Wall
        } else {
            Cell::Empty
        };
        row.push(c);
        x = x + 1;
    }
    row
}

/// The whole derived board view for a given snake and food.
fn build_board(snake: &Vec<Position>, food: Position) -> (b: Vec<Vec<Cell>>)
    ensures
        b@.len() == BOARD_HEIGHT,
        forall|y: int| #![auto] 0 <= y < BOARD_HEIGHT ==> b@[y]@.len() == BOARD_WIDTH,
        forall|y: int, x: int| #![auto]
            0 <= y < BOARD_HEIGHT && 0 <= x < BOARD_WIDTH
                ==> b@[y]@[x] == derived_cell(snake@, food, x, y),
{
    let mut b: Vec<Vec<Cell>> = Vec::new();
    let mut y: usize = 0;
    while y < BOARD_HEIGHT
        invariant
            y <= BOARD_HEIGHT,
            b@.len() == y,
            forall|yy: int| #![auto] 0 <= yy < y ==> b@[yy]@.len() == BOARD_WIDTH,
            forall|yy: int, x: int| #![auto]
                0 <= yy < y && 0 <= x < BOARD_WIDTH
                    ==> b@[yy]@[x] == derived_cell(snake@, food, x, yy),
        decreases BOARD_HEIGHT - y,
    {
        let row = build_row(snake, food, y);
        b.push(row);
        y = y + 1;
    }
    b
}

impl GameState {
    /// A freshly constructed game: snake of length 3 centered on the board,
    /// heading right, food at a fixed interior cell, score zero.
    pub fn new() -> (s: GameState)
        ensures
            is_initial(s),
            s.wf(),
    {
        let mut body: Vec<Position> = Vec::new();
        body.push(Position { x: 10, y: 7 });
        body.push(Position { x: 9, y: 7 });
        body.push(Position { x: 8, y: 7 });
        proof {
            assert(body@ =~= initial_snake());
        }
        let mut s = GameState {
            board: Vec::new(),
            snake_body: body,
            snake_direction: Direction::Right,
            food_position: Position { x: 15, y: 7 },
            score: 0,
            game_over: false,
        };
        s.update_board();
        s
    }

    /// Rebuilds the stored grid from the current snake and food; touches
    /// nothing else.
    pub fn update_board(&mut self)
        ensures
            final(self).board_derived(),
            final(self).snake_body == old(self).snake_body,
            final(self).snake_direction == old(self).snake_direction,
            final(self).food_position == old(self).food_position,
            final(self).score == old(self).score,
            final(self).game_over == old(self).game_over,
    {
        let b = build_board(&self.snake_body, self.food_position);
        self.board = b;
    }

    /// True when moving the head to `pos` would end the game: `pos` lies
    /// on the wall ring or on a current snake segment.
    pub fn check_collision(&self, pos: Position) -> (r: bool)
        ensures
            r == collides(self.snake_body@, pos),
    {
        if pos.x == 0 || pos.x >= BOARD_WIDTH - 1 || pos.y == 0 || pos.y >= BOARD_HEIGHT - 1 {
            return true;
        }
        snake_contains(&self.snake_body, pos)
    }

    /// Sets the heading to `new_direction`, unless that would reverse the
    /// snake onto itself, in which case nothing changes.
    pub fn change_direction(&mut self, new_direction: Direction)
        ensures
            new_direction == opposite(old(self).snake_direction) ==> *final(self) == *old(self),
            new_direction != opposite(old(self).snake_direction)
                ==> *final(self) == (GameState { snake_direction: new_direction, ..*old(self) }),
            old(self).wf() ==> final(self).wf(),
    {
        let opp = match self.snake_direction {
            Direction::Up => Direction::Down,
            Direction::Down => Direction::Up,
            Direction::Left => Direction::Right,
            Direction::Right => Direction::Left,
        };
        if new_direction != opp {
            self.snake_direction = new_direction;
        }
    }

    /// Reinitializes every field to the freshly constructed state; total,
    /// whatever state the game was in.
    pub fn reset(&mut self)
        ensures
            is_initial(*final(self)),
            final(self).wf(),
    {
        let mut body: Vec<Position> = Vec::new();
        body.push(Position { x: 10, y: 7 });
        body.push(Position { x: 9, y: 7 });
        body.push(Position { x: 8, y: 7 });
        proof {
            assert(body@ =~= initial_snake());
        }
        self.snake_body = body;
        self.snake_direction = Direction::Right;
        self.score = 0;
        self.game_over = false;
        self.food_position = Position { x: 15, y: 7 };
        self.update_board();
    }

    /// Advances the game by exactly one tick. A finished game is frozen:
    /// nothing changes. Otherwise the head moves one cell along the
    /// heading; a move onto the wall ring or onto the snake only sets
    /// `game_over`, leaving the last valid configuration visible. A move
    /// onto the food grows the snake by one segment at the head, adds the
    /// reward to the score, and relocates the food; any other move shifts
    /// the body one cell toward the tail. The board view is rebuilt after
    /// every committed move. Growth needs no capacity cap: the segments
    /// are distinct interior cells, so [`lemma_snake_len_bound`] bounds
    /// the length (and with it the score) by the interior area.
    pub fn move_snake(&mut self)
        requires
            old(self).wf(),
        ensures
            final(self).wf(),
            old(self).game_over ==> *final(self) == *old(self),
            (!old(self).game_over && collides(old(self).snake_body@, old(self).next_head()))
                ==> *final(self) == (GameState { game_over: true, ..*old(self) }),
            (!old(self).game_over && !collides(old(self).snake_body@, old(self).next_head())
                && old(self).next_head() == old(self).food_position) ==> {
                &&& final(self).snake_body@ == seq![old(self).next_head()] + old(self).snake_body@
                &&& final(self).snake_body@.len() == old(self).snake_body@.len() + 1
                &&& final(self).score == old(self).score + FOOD_REWARD
                &&& final(self).food_position == place_food_spec(
                        seq![old(self).next_head()] + old(self).snake_body@,
                        old(self).food_position,
                    )
                &&& final(self).snake_direction == old(self).snake_direction
                &&& !final(self).game_over
            },
            (!old(self).game_over && !collides(old(self).snake_body@, old(self).next_head())
                && old(self).next_head() != old(self).food_position) ==> {
                &&& final(self).snake_body@ == seq![old(self).next_head()]
                        + old(self).snake_body@.drop_last()
                &&& final(self).score == old(self).score
                &&& final(self).food_position == old(self).food_position
                &&& final(self).snake_direction == old(self).snake_direction
                &&& !final(self).game_over
            },
    {
        if self.game_over {
            return;
        }
        proof {
            assert(interior(self.snake_body@[0]));
        }
        let head = self.snake_body[0];
        let new_head = match self.snake_direction {
            Direction::Up => Position { x: head.x, y: if head.y == 0 { 0 } else { head.y - 1 } },
            Direction::Down => Position { x: head.x, y: head.y + 1 },
            Direction::Left => Position { x: if head.x == 0 { 0 } else { head.x - 1 }, y: head.y },
            Direction::Right => Position { x: head.x + 1, y: head.y },
        };
        proof {
            assert(new_head == old(self).next_head());
        }
        if self.check_collision(new_head) {
            self.game_over = true;
            return;
        }
        let ghost pre = *self;
        let eating = new_head == self.food_position;
        if eating {
            proof {
                lemma_snake_len_bound(self.snake_body@);
            }
            self.score = self.score + FOOD_REWARD;
            self.snake_body.insert(0, new_head);
            proof {
                assert(self.snake_body@ =~= seq![new_head] + pre.snake_body@);
            }
            self.place_new_food();
        } else {
            let len: usize = self.snake_body.len();
            let mut i: usize = len - 1;
            while i >= 1
                invariant
                    1 <= len,
                    i < len,
                    len == self.snake_body@.len(),
                    len == pre.snake_body@.len(),
                    self.snake_direction == pre.snake_direction,
                    self.food_position == pre.food_position,
                    self.score == pre.score,
                    self.game_over == pre.game_over,
                    self.board == pre.board,
                    forall|j: int| #![auto] 0 <= j <= i ==> self.snake_body@[j] == pre.snake_body@[j],
                    forall|j: int| #![auto] i < j < len ==> self.snake_body@[j] == pre.snake_body@[j - 1],
                decreases i,
            {
                let prev = self.snake_body[i - 1];
                self.snake_body[i] = prev;
                i = i - 1;
            }
            self.snake_body[0] = new_head;
            proof {
                assert(self.snake_body@ =~= seq![new_head] + pre.snake_body@.drop_last());
            }
        }
        proof {
            let s2 = self.snake_body@;
            assert(!hits_wall(new_head));
            assert(interior(new_head));
            assert(!pre.snake_body@.contains(new_head));
            assert forall|a: int| #![auto] 0 <= a < s2.len() implies interior(s2[a]) by {
                if a > 0 {
                    assert(s2[a] == pre.snake_body@[a - 1]);
                }
            }
            assert forall|a: int, b: int| #![auto] 0 <= a < b < s2.len() implies s2[a] != s2[b] by {
                assert(s2[b] == pre.snake_body@[b - 1]);
                if a > 0 {
                    assert(s2[a] == pre.snake_body@[a - 1]);
                }
            }
        }
        self.update_board();
    }

    /// Relocates the food by the fixed modular offset, nudging it one
    /// column when the first candidate lands on the snake. Touches only
    /// the food position; the result is always interior.
    pub fn place_new_food(&mut self)
        requires
            interior(old(self).food_position),
        ensures
            *final(self) == (GameState {
                food_position: place_food_spec(old(self).snake_body@, old(self).food_position),
                ..*old(self)
            }),
            interior(final(self).food_position),
    {
        let f = self.food_position;
        let candidate = Position {
            x: (f.x + 3) % (BOARD_WIDTH - 2) + 1,
            y: (f.y + 2) % (BOARD_HEIGHT - 2) + 1,
        };
        if snake_contains(&self.snake_body, candidate) {
            self.food_position = Position {
                x: (candidate.x + 1) % (BOARD_WIDTH - 2) + 1,
                y: candidate.y,
            };
        } else {
            self.food_position = candidate;
        }
    }
}

/// The command a received input byte stands for: `'w'`, `'a'`, `'s'`,
/// `'d'` steer, `'r'` resets, anything else is ignored.
pub open spec fn key_command(key: u8) -> Option<Command> {
    if key == 119 {
        Some(Command::Turn(Direction::Up))
    } else if key == 97 {
        Some(Command::Turn(Direction::Left))
    } else if key == 115 {
        Some(Command::Turn(Direction::Down))
    } else if key == 100 {
        Some(Command::Turn(Direction::Right))
    } else if key == 114 {
        Some(Command::Reset)
    } else {
        None
    }
}

/// Translates one received input byte to a command, ignoring unrecognized
/// bytes.
pub fn parse_key(key: u8) -> (c: Option<Command>)
    ensures
        c == key_command(key),
{
    match key {
        119 => Some(Command::Turn(Direction::Up)),
        97 => Some(Command::Turn(Direction::Left)),
        115 => Some(Command::Turn(Direction::Down)),
        100 => Some(Command::Turn(Direction::Right)),
        114 => Some(Command::Reset),
        _ => None,
    }
}

/// Pairwise-distinct interior positions fit in the interior: the snake can
/// never outgrow the cells the walls enclose.
pub proof fn lemma_snake_len_bound(s: Seq<Position>)
    requires
        forall|i: int| #![auto] 0 <= i < s.len() ==> interior(s[i]),
        forall|i: int, j: int| #![auto] 0 <= i < j < s.len() ==> s[i] != s[j],
    ensures
        s.len() <= (BOARD_WIDTH - 2) * (BOARD_HEIGHT - 2),
        s.len() <= 234,
{
    let w: int = (BOARD_WIDTH - 2) as int;
    let h: int = (BOARD_HEIGHT - 2) as int;
    let area: int = w * h;
    assert(area == 234) by (nonlinear_arith)
        requires w == 18, h == 13, area == w * h;
    assert(area == (BOARD_WIDTH - 2) * (BOARD_HEIGHT - 2)) by (nonlinear_arith)
        requires w == 18, h == 13, area == w * h, BOARD_WIDTH == 20, BOARD_HEIGHT == 15;
    let f = |p: Position| (p.y - 1) * 18 + (p.x - 1);
    let t = s.map_values(f);
    assert forall|i: int, j: int| 0 <= i < t.len() && 0 <= j < t.len() && i != j
        implies t[i] != t[j] by {
        let p = s[i];
        let q = s[j];
        assert(p != q);
        assert(interior(p) && interior(q));
    }
    assert(t.no_duplicates());
    t.unique_seq_to_set();
    assert forall|e: int| t.to_set().contains(e)
        implies vstd::set_lib::set_int_range(0, 234).contains(e) by {
        let i = choose|i: int| 0 <= i < t.len() && t[i] == e;
        let p = s[i];
        assert(interior(p));
        assert(e == (p.y - 1) * 18 + (p.x - 1));
    }
    assert(t.to_set().subset_of(vstd::set_lib::set_int_range(0, 234)));
    vstd::set_lib::lemma_int_range(0, 234);
    vstd::set_lib::lemma_len_subset(t.to_set(), vstd::set_lib::set_int_range(0, 234));
}

} // verus!
