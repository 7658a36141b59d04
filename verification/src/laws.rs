//! What holds of the simulation whatever state it is in.
//!
//! Each law is stated over the model [`GameState`], which the handlers of
//! [`Game`](crate::game::Game) are proved to follow.

use vstd::prelude::*;
use crate::food::{away_from, food_at, lemma_uneaten_food_was_there};
use crate::game::{DirectionKeys, GameState};
use crate::grid::{Position, SnakeMoveDirection};
use crate::snake::{body_behind_head_at, start_body, SnakeSegment};

verus! {

/// A new game is well formed.
pub proof fn lemma_new_game_is_well_formed()
    ensures
        GameState::initial().wf(),
{
}

/// Every handler keeps the state well formed: the snake always has a head,
/// and while the run is on all of it lies in the arena.
pub proof fn lemma_handlers_keep_the_state_well_formed(
    state: GameState,
    keys: DirectionKeys,
    delta: u64,
    cell: Position,
)
    requires
        state.wf(),
    ensures
        state.latched(keys).wf(),
        state.moved(delta).wf(),
        state.eaten().wf(),
        state.restarted().wf(),
        state.grown().wf(),
        state.food_spawned(delta, cell).wf(),
        state.updated(keys, delta, cell).wf(),
{
    lemma_step_keeps_the_state_well_formed(state, delta);
    lemma_uneaten_food_was_there(state.foods, state.head_position());
    let moved = state.latched(keys).moved(delta);
    lemma_step_keeps_the_state_well_formed(state.latched(keys), delta);
    lemma_uneaten_food_was_there(moved.foods, moved.head_position());
}

/// The movement handler keeps a well-formed state well formed.
proof fn lemma_step_keeps_the_state_well_formed(state: GameState, delta: u64)
    requires
        state.wf(),
    ensures
        state.moved(delta).wf(),
{
    if state.snake_timer.fires(delta as nat) && state.on_the_move() {
        lemma_follow_the_leader(state, delta);
    }
}

/// Follow the leader: in a step the head moves by exactly the unit vector of
/// its direction, and every other segment goes where the segment before it
/// was. The cell that the tail leaves is remembered.
pub proof fn lemma_follow_the_leader(state: GameState, delta: u64)
    requires
        state.wf(),
        state.on_the_move(),
        state.snake_timer.fires(delta as nat),
    ensures
        state.moved(delta).body.len() == state.body.len(),
        state.moved(delta).body[0].position.x == state.body[0].position.x
            + state.head.direction.dx(),
        state.moved(delta).body[0].position.y == state.body[0].position.y
            + state.head.direction.dy(),
        forall|i: int|
            1 <= i < state.body.len() ==> #[trigger] state.moved(delta).body[i]
                == state.body[i - 1],
        state.moved(delta).last_tail == Some(state.body.last().position),
        state.moved(delta).head == state.head,
        state.moved(delta).foods == state.foods,
{
    assert(state.body[0].position.in_arena());
}

/// The movement handler neither adds nor removes a segment, whether the
/// snake steps or not.
pub proof fn lemma_step_keeps_the_length(state: GameState, delta: u64)
    ensures
        state.moved(delta).body.len() == state.body.len(),
{
}

/// Growth that is due adds exactly one segment, behind the tail, on the cell
/// that the tail left in the last step.
pub proof fn lemma_growth_adds_one_segment(state: GameState, cell: Position)
    requires
        state.growth,
        state.last_tail == Some(cell),
    ensures
        state.grown().body.len() == state.body.len() + 1,
        state.grown().body == state.body.push(SnakeSegment { position: cell }),
        !state.grown().growth,
{
}

/// When no growth is due, the growth handler changes nothing.
pub proof fn lemma_no_growth_unless_due(state: GameState)
    requires
        !state.growth,
    ensures
        state.grown() == state,
{
}

/// The end of a run puts the starting snake in place: two segments, the head
/// at (3, 3) and not told where to go. All food is gone and no signal is
/// left.
pub proof fn lemma_restart_gives_the_starting_snake(state: GameState)
    requires
        state.game_over,
    ensures
        state.restarted().body == start_body(),
        state.restarted().body.len() == 2,
        state.restarted().head.direction == SnakeMoveDirection::Init,
        state.restarted().foods.len() == 0,
        !state.restarted().game_over,
        !state.restarted().growth,
{
}

/// The length of the snake after one frame: two if the run ends in the
/// frame; one more than before if it does not, the snake has eaten, and a
/// cell is remembered for the tail; the same otherwise.
pub proof fn lemma_length_after_a_frame(
    state: GameState,
    keys: DirectionKeys,
    delta: u64,
    cell: Position,
)
    requires
        state.wf(),
    ensures
        ({
            let fed = state.latched(keys).moved(delta).eaten();
            let after = state.updated(keys, delta, cell);
            &&& fed.game_over ==> after.body.len() == 2
            &&& !fed.game_over && fed.growth && fed.last_tail is Some ==> after.body.len()
                == state.body.len() + 1
            &&& !fed.game_over && (!fed.growth || fed.last_tail is None) ==> after.body.len()
                == state.body.len()
        }),
{
}

/// A step that takes the head out of the arena ends the run, and the restart
/// that follows puts the starting snake in place.
pub proof fn lemma_leaving_the_arena_ends_the_run(state: GameState, delta: u64)
    requires
        state.wf(),
        state.on_the_move(),
        state.snake_timer.fires(delta as nat),
        !state.target().in_arena(),
    ensures
        state.moved(delta).game_over,
        state.moved(delta).restarted().body == start_body(),
        state.moved(delta).restarted().head.direction == SnakeMoveDirection::Init,
{
}

/// A head in the leftmost column that goes left leaves the arena: the run
/// ends, and the frame in which that happens ends with the starting snake.
pub proof fn lemma_going_left_from_the_left_column_ends_the_run(
    state: GameState,
    keys: DirectionKeys,
    delta: u64,
    cell: Position,
)
    requires
        state.wf(),
        !state.game_over,
        state.head_position().x == 0,
        state.latched(keys).head.direction == SnakeMoveDirection::Left,
        state.snake_timer.fires(delta as nat),
    ensures
        state.latched(keys).moved(delta).game_over,
        state.latched(keys).moved(delta).body[0].position.x == -1,
        state.updated(keys, delta, cell).body == start_body(),
        state.updated(keys, delta, cell).head.direction == SnakeMoveDirection::Init,
        !state.updated(keys, delta, cell).game_over,
{
    let latched = state.latched(keys);
    assert(latched.body[0].position.in_arena());
    lemma_follow_the_leader(latched, delta);
    lemma_leaving_the_arena_ends_the_run(latched, delta);
}

/// A step that takes the head to a cell where a segment behind the head is
/// before the step ends the run.
pub proof fn lemma_running_into_the_body_ends_the_run(state: GameState, delta: u64, i: int)
    requires
        state.wf(),
        state.on_the_move(),
        state.snake_timer.fires(delta as nat),
        1 <= i < state.body.len(),
        state.target() == state.body[i].position,
    ensures
        state.moved(delta).game_over,
{
    assert(body_behind_head_at(state.body, state.target()));
}

/// A step ends the run only if the head leaves the arena or runs into the
/// body.
pub proof fn lemma_run_goes_on_otherwise(state: GameState, delta: u64)
    requires
        state.wf(),
        !state.game_over,
        state.target().in_arena(),
        !body_behind_head_at(state.body, state.target()),
    ensures
        !state.moved(delta).game_over,
{
}

/// Eating removes the food on the head's cell and no other, and makes growth
/// due exactly if there was food to eat. The snake itself is as before.
pub proof fn lemma_eating_takes_the_food_under_the_head(state: GameState)
    ensures
        !food_at(state.eaten().foods, state.head_position()),
        forall|i: int|
            0 <= i < state.foods.len() && (#[trigger] state.foods[i]).position
                != state.head_position() ==> state.eaten().foods.contains(state.foods[i]),
        forall|i: int|
            0 <= i < state.eaten().foods.len() ==> state.foods.contains(
                #[trigger] state.eaten().foods[i],
            ),
        state.eaten().growth == (state.growth || food_at(state.foods, state.head_position())),
        state.eaten().body == state.body,
        state.eaten().head == state.head,
{
    let cell = state.head_position();
    let keep = away_from(cell);
    lemma_uneaten_food_was_there(state.foods, cell);
    assert forall|i: int|
        0 <= i < state.foods.len() && (#[trigger] state.foods[i]).position
            != cell implies state.eaten().foods.contains(state.foods[i]) by {
        assert(keep(state.foods[i]));
        state.foods.lemma_filter_contains(keep, i);
    }
}

/// Where no food lies on the head's cell, eating changes nothing. A head
/// that has left the arena is such a case: food only lies in the arena.
pub proof fn lemma_no_meal_without_food(state: GameState)
    requires
        state.wf(),
        !food_at(state.foods, state.head_position()) || !state.head_position().in_arena(),
    ensures
        state.eaten() == state,
{
    lemma_uneaten_food_was_there(state.foods, state.head_position());
}

/// A meal makes the snake longer by the cell it leaves: when the head eats,
/// then steps, and then grows, the body is the new head followed by the
/// whole body of before. One segment has been added, on the cell where the
/// tail was before the step.
pub proof fn lemma_meal_before_a_step(state: GameState, delta: u64)
    requires
        state.wf(),
        state.on_the_move(),
        state.snake_timer.fires(delta as nat),
        food_at(state.foods, state.head_position()),
    ensures
        state.eaten().moved(delta).grown().body == seq![
            SnakeSegment { position: state.target() },
        ] + state.body,
        state.eaten().moved(delta).grown().body.len() == state.body.len() + 1,
        state.eaten().moved(delta).grown().body.last() == state.body.last(),
        !food_at(state.eaten().moved(delta).grown().foods, state.head_position()),
{
    lemma_eating_takes_the_food_under_the_head(state);
    let stepped = state.eaten().moved(delta);
    assert(stepped.body == seq![SnakeSegment { position: state.target() }]
        + state.body.drop_last());
    assert(stepped.grown().body =~= seq![SnakeSegment { position: state.target() }]
        + state.body);
}

/// The same for a head that steps onto food: when the snake steps, eats on
/// the cell it has reached, and grows, the body is the new head followed by
/// the whole body of before.
pub proof fn lemma_meal_after_a_step(state: GameState, delta: u64)
    requires
        state.wf(),
        state.on_the_move(),
        state.snake_timer.fires(delta as nat),
        food_at(state.foods, state.target()),
    ensures
        state.moved(delta).eaten().grown().body == seq![
            SnakeSegment { position: state.target() },
        ] + state.body,
        state.moved(delta).eaten().grown().body.len() == state.body.len() + 1,
        state.moved(delta).eaten().grown().body.last() == state.body.last(),
        !food_at(state.moved(delta).eaten().grown().foods, state.target()),
{
    let stepped = state.moved(delta);
    assert(stepped.head_position() == state.target());
    lemma_eating_takes_the_food_under_the_head(stepped);
    assert(stepped.eaten().grown().body =~= seq![SnakeSegment { position: state.target() }]
        + state.body);
}

/// An idle snake stays put: while the head has not been told where to go,
/// no number of polls of the movement handler, whatever time they bring,
/// changes anything but the timer.
pub proof fn lemma_idle_snake_stays_put(state: GameState, deltas: Seq<u64>)
    requires
        state.head.direction == SnakeMoveDirection::Init,
    ensures
        state.moved_all(deltas) == (GameState {
            snake_timer: state.snake_timer.after_all(deltas),
            ..state
        }),
        state.moved_all(deltas).body == state.body,
    decreases deltas.len(),
{
    if deltas.len() > 0 {
        lemma_idle_snake_stays_put(state, deltas.drop_last());
    }
}

} // verus!
