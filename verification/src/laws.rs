//! The global guarantees of the simulation, stated and proved once.
//!
//! Each law quantifies over well-formed states. Every operation of
//! [`GameState`] that yields a state ensures [`GameState::wf`], and the
//! constructor establishes it, so these laws hold of every reachable
//! state.

use vstd::prelude::*;
use crate::game::GameState;
use crate::game::Position;
use crate::game::BOARD_HEIGHT;
use crate::game::BOARD_WIDTH;
use crate::game::interior;
use crate::game::food_candidate;
use crate::game::place_food_spec;
use crate::game::is_initial;

verus! {

/// Wall containment: in a well-formed state no snake segment and no food
/// position lies on the outer wall ring.
pub proof fn lemma_wall_containment(s: GameState)
    requires
        s.wf(),
    ensures
        forall|i: int| 0 <= i < s.snake_body@.len()
            ==> (#[trigger] s.snake_body@[i]).x != 0 && s.snake_body@[i].x != BOARD_WIDTH - 1
                && s.snake_body@[i].y != 0 && s.snake_body@[i].y != BOARD_HEIGHT - 1,
        s.food_position.x != 0 && s.food_position.x != BOARD_WIDTH - 1
            && s.food_position.y != 0 && s.food_position.y != BOARD_HEIGHT - 1,
{
    assert forall|i: int| 0 <= i < s.snake_body@.len()
        implies (#[trigger] s.snake_body@[i]).x != 0 && s.snake_body@[i].x != BOARD_WIDTH - 1
            && s.snake_body@[i].y != 0 && s.snake_body@[i].y != BOARD_HEIGHT - 1 by {
        assert(interior(s.snake_body@[i]));
    }
}

/// No self-overlap: in a well-formed state the occupied snake segments
/// are pairwise distinct.
pub proof fn lemma_no_self_overlap(s: GameState)
    requires
        s.wf(),
    ensures
        forall|i: int, j: int| #![auto]
            0 <= i < j < s.snake_body@.len() ==> s.snake_body@[i] != s.snake_body@[j],
{
}

/// Growth leaves the food off the snake whenever the first relocation
/// candidate is free; only the documented single-nudge edge case can
/// still collide.
pub proof fn lemma_fresh_food_off_snake(snake: Seq<Position>, f: Position)
    requires
        !snake.contains(food_candidate(f)),
    ensures
        !snake.contains(place_food_spec(snake, f)),
{
}

/// Reset totality: any two games in the initial well-formed state agree
/// on every observable, the derived board view included. With
/// `GameState::reset` and `GameState::new` both ensuring that state, a
/// reset game is indistinguishable from a freshly constructed one.
pub proof fn lemma_initial_state_determined(a: GameState, b: GameState)
    requires
        is_initial(a),
        is_initial(b),
        a.wf(),
        b.wf(),
    ensures
        a.snake_body@ == b.snake_body@,
        a.snake_direction == b.snake_direction,
        a.food_position == b.food_position,
        a.score == b.score,
        a.game_over == b.game_over,
        a.board@.len() == b.board@.len(),
        forall|y: int| #![auto] 0 <= y < a.board@.len() ==> a.board@[y]@.len() == b.board@[y]@.len(),
        forall|y: int, x: int| #![auto]
            0 <= y < BOARD_HEIGHT && 0 <= x < BOARD_WIDTH ==> a.board@[y]@[x] == b.board@[y]@[x],
{
    assert forall|y: int, x: int| #![auto]
        0 <= y < BOARD_HEIGHT && 0 <= x < BOARD_WIDTH implies a.board@[y]@[x] == b.board@[y]@[x] by {
        assert(a.board@[y]@[x] == crate::game::derived_cell(a.snake_body@, a.food_position, x, y));
        assert(b.board@[y]@[x] == crate::game::derived_cell(b.snake_body@, b.food_position, x, y));
    }
}

} // verus!
