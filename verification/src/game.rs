//! The simulation state and the handlers that change it.
//!
//! [`GameState`] is the model: plain data, with one function for what each
//! handler does to it. [`Game`] holds the same data at run time; each of its
//! handlers is proved to compute the function of the same purpose.

use vstd::prelude::*;
use crate::events::{GameOverEvent, GrowthEvent};
use crate::food::{
    away_from, food_at, foods_in_arena, lemma_uneaten_food_was_there, uneaten, Food,
};
use crate::grid::{Position, SnakeMoveDirection};
use crate::snake::{
    advanced, body_behind_head_at, body_in_arena, spawn_head, spawn_segment, start_body,
    LastTailPosition, SnakeHead, SnakeSegment, SnakeSegments,
};
use crate::timer::{FoodSpawnTimer, SnakeTimer, TimerState, FOOD_SPAWN_NANOS, SNAKE_TICK_NANOS};

verus! {

/// Which of the four direction keys are held down.
#[derive(Clone, Copy, PartialEq, Eq, Debug, Structural)]
pub struct DirectionKeys {
    pub left: bool,
    pub right: bool,
    pub up: bool,
    pub down: bool,
}

impl DirectionKeys {
    /// The direction that the keys ask for, if any is held down. Of several
    /// keys the first of left, right, up, down counts.
    pub open spec fn requested(self) -> Option<SnakeMoveDirection> {
        if self.left {
            Some(SnakeMoveDirection::Left)
        } else if self.right {
            Some(SnakeMoveDirection::Right)
        } else if self.up {
            Some(SnakeMoveDirection::Up)
        } else if self.down {
            Some(SnakeMoveDirection::Down)
        } else {
            None
        }
    }

    /// No key held down.
    pub fn none() -> (keys: DirectionKeys)
        ensures
            keys.requested() is None,
            !keys.left && !keys.right && !keys.up && !keys.down,
    {
        DirectionKeys { left: false, right: false, up: false, down: false }
    }

    /// The direction that the keys ask for, if any is held down.
    pub fn direction(&self) -> (wanted: Option<SnakeMoveDirection>)
        ensures
            wanted == self.requested(),
    {
        if self.left {
            Some(SnakeMoveDirection::Left)
        } else if self.right {
            Some(SnakeMoveDirection::Right)
        } else if self.up {
            Some(SnakeMoveDirection::Up)
        } else if self.down {
            Some(SnakeMoveDirection::Down)
        } else {
            None
        }
    }
}

/// The simulation as plain data.
pub struct GameState {
    /// The head: the way the snake is going.
    pub head: SnakeHead,
    /// The segments in body order, the head's first.
    pub body: Seq<SnakeSegment>,
    /// The food on the arena, oldest first.
    pub foods: Seq<Food>,
    /// Where the tail was before the last step.
    pub last_tail: Option<Position>,
    /// Whether the snake has eaten and not yet grown.
    pub growth: bool,
    /// Whether the run has ended and not yet restarted.
    pub game_over: bool,
    /// The timer of the snake's steps.
    pub snake_timer: TimerState,
    /// The timer of the food spawner.
    pub food_timer: TimerState,
}

impl GameState {
    /// The state of a new game: the starting snake, idle, on an empty arena.
    pub open spec fn initial() -> GameState {
        GameState {
            head: SnakeHead { direction: SnakeMoveDirection::Init },
            body: start_body(),
            foods: Seq::empty(),
            last_tail: None,
            growth: false,
            game_over: false,
            snake_timer: TimerState::fresh(SNAKE_TICK_NANOS as nat),
            food_timer: TimerState::fresh(FOOD_SPAWN_NANOS as nat),
        }
    }

    /// What holds of the state at all times: the snake has a head; while the
    /// run is on, all of it lies in the arena; the cell remembered for the
    /// tail lies in the arena; and so does all food.
    pub open spec fn wf(self) -> bool {
        &&& self.body.len() >= 1
        &&& !self.game_over ==> body_in_arena(self.body)
        &&& self.last_tail matches Some(cell) ==> cell.in_arena()
        &&& foods_in_arena(self.foods)
    }

    /// The cell of the head.
    pub open spec fn head_position(self) -> Position {
        self.body[0].position
    }

    /// The cell that the next step takes the head to.
    pub open spec fn target(self) -> Position {
        self.head_position().neighbor(self.head.direction)
    }

    /// Whether the snake steps when its timer fires: it has been told where
    /// to go, and the run has not ended.
    pub open spec fn on_the_move(self) -> bool {
        self.head.direction != SnakeMoveDirection::Init && !self.game_over
    }

    /// The state after the direction keys have been read: a key that is held
    /// down sets the direction, none leaves it as it is.
    pub open spec fn latched(self, keys: DirectionKeys) -> GameState {
        match keys.requested() {
            Some(direction) => GameState { head: SnakeHead { direction }, ..self },
            None => self,
        }
    }

    /// The state after one step of the snake. The head goes to its target and
    /// the other segments follow; the cell that the tail leaves is
    /// remembered; the run ends if the target lies outside the arena or on a
    /// segment that was behind the head before the step.
    pub open spec fn stepped(self) -> GameState {
        GameState {
            body: advanced(self.body, self.target()),
            last_tail: Some(self.body.last().position),
            game_over: self.game_over || !self.target().in_arena() || body_behind_head_at(
                self.body,
                self.target(),
            ),
            ..self
        }
    }

    /// The state after the movement handler has been given `delta` more
    /// nanoseconds: the timer is polled, and where it fires a snake on the
    /// move takes one step.
    pub open spec fn moved(self, delta: u64) -> GameState {
        let polled = GameState { snake_timer: self.snake_timer.after(delta as nat), ..self };
        if self.snake_timer.fires(delta as nat) && self.on_the_move() {
            polled.stepped()
        } else {
            polled
        }
    }

    /// The state after the movement handler has been given each entry of
    /// `deltas`, in order.
    pub open spec fn moved_all(self, deltas: Seq<u64>) -> GameState
        decreases deltas.len(),
    {
        if deltas.len() == 0 {
            self
        } else {
            self.moved_all(deltas.drop_last()).moved(deltas.last())
        }
    }

    /// The state after the head has eaten: all food on the head's cell is
    /// gone, and if there was any the snake is to grow.
    pub open spec fn eaten(self) -> GameState {
        GameState {
            foods: self.foods.filter(away_from(self.head_position())),
            growth: self.growth || food_at(self.foods, self.head_position()),
            ..self
        }
    }

    /// The state after the end of a run has been handled: if the run has
    /// ended, the snake and all food are gone, a new snake stands at the
    /// start, idle, and growth that was due is dropped.
    pub open spec fn restarted(self) -> GameState {
        if self.game_over {
            GameState {
                head: SnakeHead { direction: SnakeMoveDirection::Init },
                body: start_body(),
                foods: Seq::empty(),
                growth: false,
                game_over: false,
                ..self
            }
        } else {
            self
        }
    }

    /// The state after growth has been handled: if the snake is to grow, it
    /// gains one segment at the end, on the cell remembered for the tail.
    /// Before the first step no cell is remembered, and nothing is gained.
    pub open spec fn grown(self) -> GameState {
        if self.growth {
            match self.last_tail {
                Some(cell) => GameState {
                    body: self.body.push(SnakeSegment { position: cell }),
                    growth: false,
                    ..self
                },
                None => GameState { growth: false, ..self },
            }
        } else {
            self
        }
    }

    /// The state after the food spawner has been given `delta` more
    /// nanoseconds: the timer is polled, and where it fires one piece of food
    /// appears on `cell`. Food only spawns in the arena: a cell outside of it
    /// is passed over.
    pub open spec fn food_spawned(self, delta: u64, cell: Position) -> GameState {
        let polled = GameState { food_timer: self.food_timer.after(delta as nat), ..self };
        if self.food_timer.fires(delta as nat) && cell.in_arena() {
            GameState { foods: self.foods.push(Food { position: cell }), ..polled }
        } else {
            polled
        }
    }

    /// The state after one frame: the keys are read, the snake moves, eats,
    /// a run that has ended restarts, the snake grows, and food spawns, in
    /// this order.
    pub open spec fn updated(
        self,
        keys: DirectionKeys,
        delta: u64,
        food_cell: Position,
    ) -> GameState {
        self.latched(keys).moved(delta).eaten().restarted().grown().food_spawned(delta, food_cell)
    }
}

/// The simulation: the snake, the food, the two signals and the two timers.
#[derive(Debug)]
pub struct Game {
    head: SnakeHead,
    segments: SnakeSegments,
    foods: Vec<Food>,
    last_tail_position: LastTailPosition,
    growth: Option<GrowthEvent>,
    game_over: Option<GameOverEvent>,
    snake_timer: SnakeTimer,
    food_spawn_timer: FoodSpawnTimer,
}

impl View for Game {
    type V = GameState;

    closed spec fn view(&self) -> GameState {
        GameState {
            head: self.head,
            body: self.segments.0@,
            foods: self.foods@,
            last_tail: self.last_tail_position.0,
            growth: self.growth is Some,
            game_over: self.game_over is Some,
            snake_timer: self.snake_timer.0@,
            food_timer: self.food_spawn_timer.0@,
        }
    }
}

impl Game {
    #[verifier::type_invariant]
    spec fn well_formed(self) -> bool {
        self@.wf()
    }

    /// A new game: the starting snake, idle, on an empty arena, with both
    /// timers fresh.
    pub fn new() -> (game: Game)
        ensures
            game@ == GameState::initial(),
            game@.wf(),
    {
        let (head, first) = spawn_head(Position { x: 3, y: 3 });
        let second = spawn_segment(Position { x: 3, y: 2 });
        let mut body: Vec<SnakeSegment> = Vec::new();
        body.push(first);
        body.push(second);
        assert(body@ == start_body());
        Game {
            head,
            segments: SnakeSegments(body),
            foods: Vec::new(),
            last_tail_position: LastTailPosition(None),
            growth: None,
            game_over: None,
            snake_timer: SnakeTimer::new(),
            food_spawn_timer: FoodSpawnTimer::new(),
        }
    }

    /// A new game whose snake has the given segments, head first: `None`
    /// unless there is at least one segment and all of them lie in the arena.
    pub fn with_segments(segments: SnakeSegments) -> (made: Option<Game>)
        ensures
            made is Some <==> segments.0@.len() >= 1 && body_in_arena(segments.0@),
            made matches Some(game) ==> game@ == (GameState {
                body: segments.0@,
                ..GameState::initial()
            }) && game@.wf(),
    {
        if segments.0.len() == 0 {
            return None;
        }
        let mut i: usize = 0;
        while i < segments.0.len()
            invariant
                i <= segments.0@.len(),
                forall|j: int| 0 <= j < i ==> (#[trigger] segments.0@[j]).position.in_arena(),
            decreases segments.0.len() - i,
        {
            if !segments.0[i].position.is_in_arena() {
                return None;
            }
            i += 1;
        }
        Some(
            Game {
                head: SnakeHead { direction: SnakeMoveDirection::Init },
                segments,
                foods: Vec::new(),
                last_tail_position: LastTailPosition(None),
                growth: None,
                game_over: None,
                snake_timer: SnakeTimer::new(),
                food_spawn_timer: FoodSpawnTimer::new(),
            },
        )
    }

    /// The head.
    pub fn head(&self) -> (head: SnakeHead)
        ensures
            head == self@.head,
    {
        self.head
    }

    /// The segments in body order, the head's first.
    pub fn segments(&self) -> (segments: &SnakeSegments)
        ensures
            segments.0@ == self@.body,
            segments.0@.len() >= 1,
    {
        proof {
            use_type_invariant(self);
        }
        &self.segments
    }

    /// The food on the arena, oldest first.
    pub fn foods(&self) -> (foods: &Vec<Food>)
        ensures
            foods@ == self@.foods,
    {
        &self.foods
    }

    /// Where the tail was before the last step.
    pub fn last_tail_position(&self) -> (last: LastTailPosition)
        ensures
            last.0 == self@.last_tail,
    {
        self.last_tail_position
    }

    /// The growth that is due, if the snake has eaten and not yet grown.
    pub fn growth_event(&self) -> (event: Option<GrowthEvent>)
        ensures
            event is Some == self@.growth,
    {
        self.growth
    }

    /// The end of the run, if it has ended and not yet restarted.
    pub fn game_over_event(&self) -> (event: Option<GameOverEvent>)
        ensures
            event is Some == self@.game_over,
    {
        self.game_over
    }

    /// The timer of the snake's steps.
    pub fn snake_timer(&self) -> (timer: SnakeTimer)
        ensures
            timer.0@ == self@.snake_timer,
    {
        self.snake_timer
    }

    /// The timer of the food spawner.
    pub fn food_spawn_timer(&self) -> (timer: FoodSpawnTimer)
        ensures
            timer.0@ == self@.food_timer,
    {
        self.food_spawn_timer
    }

    /// Puts the starting snake in place of the present one: a head at
    /// (3, 3) that has not been told where to go, and one segment at (3, 2).
    pub fn spawn_snake(&mut self)
        ensures
            final(self)@ == (GameState {
                head: SnakeHead { direction: SnakeMoveDirection::Init },
                body: start_body(),
                ..old(self)@
            }),
            final(self)@.wf(),
    {
        proof {
            use_type_invariant(&*self);
        }
        let (head, first) = spawn_head(Position { x: 3, y: 3 });
        let second = spawn_segment(Position { x: 3, y: 2 });
        let mut body: Vec<SnakeSegment> = Vec::new();
        body.push(first);
        body.push(second);
        assert(body@ == start_body());
        self.head = head;
        self.segments = SnakeSegments(body);
    }

    /// Reads the direction keys: a key that is held down sets the direction
    /// of the head, none leaves it as it is.
    pub fn snake_movement_input(&mut self, keys: DirectionKeys)
        ensures
            final(self)@ == old(self)@.latched(keys),
            final(self)@.wf(),
    {
        proof {
            use_type_invariant(&*self);
        }
        match keys.direction() {
            Some(direction) => {
                self.head = SnakeHead { direction };
            },
            None => {},
        }
    }

    /// Gives the snake `delta` more nanoseconds. Where that makes its timer
    /// fire, a snake that has been told where to go takes one step: the head
    /// moves one cell, every other segment goes where the one before it was,
    /// and the cell that the tail leaves is remembered. The run ends if the
    /// head leaves the arena or arrives on a cell where one of the other
    /// segments was before the step. A snake whose run has ended stays put
    /// until the restart.
    pub fn snake_movement(&mut self, delta: u64)
        ensures
            final(self)@ == old(self)@.moved(delta),
            final(self)@.wf(),
    {
        proof {
            use_type_invariant(&*self);
        }
        let mut timer = self.snake_timer;
        let fired = timer.0.tick(delta);
        self.snake_timer = timer;
        if !fired {
            return;
        }
        if self.head.direction == SnakeMoveDirection::Init || self.game_over.is_some() {
            return;
        }
        let tail = self.segments.0[self.segments.0.len() - 1].position;
        let target = self.segments.0[0].position.step(self.head.direction);
        let collided = !target.is_in_arena() || self.segments.runs_into(target);
        let moved = self.segments.advanced_to(target);
        if collided {
            self.game_over = Some(GameOverEvent);
        }
        self.segments = moved;
        self.last_tail_position = LastTailPosition(Some(tail));
    }

    /// Lets the head eat: every piece of food on the head's cell is removed,
    /// and if there was one, growth becomes due.
    pub fn snake_eating(&mut self)
        ensures
            final(self)@ == old(self)@.eaten(),
            final(self)@.wf(),
    {
        proof {
            use_type_invariant(&*self);
        }
        let cell = self.segments.0[0].position;
        let (left, found) = uneaten(&self.foods, cell);
        proof {
            lemma_uneaten_food_was_there(self.foods@, cell);
        }
        self.foods = left;
        if found {
            self.growth = Some(GrowthEvent);
        }
    }

    /// Handles the end of a run: if the run has ended, the snake and all
    /// food are removed, the starting snake is put in place, and growth that
    /// was due is dropped with the snake it was due to.
    pub fn game_over(&mut self)
        ensures
            final(self)@ == old(self)@.restarted(),
            final(self)@.wf(),
    {
        proof {
            use_type_invariant(&*self);
        }
        if self.game_over.is_some() {
            self.foods = Vec::new();
            self.growth = None;
            self.spawn_snake();
            self.game_over = None;
        }
    }

    /// Handles growth: if growth is due, the snake gains one segment behind
    /// its tail, on the cell that the tail left in the last step. Before the
    /// first step there is no such cell, and the snake gains nothing.
    pub fn snake_growth(&mut self)
        ensures
            final(self)@ == old(self)@.grown(),
            final(self)@.wf(),
    {
        proof {
            use_type_invariant(&*self);
        }
        if self.growth.is_some() {
            self.growth = None;
            match self.last_tail_position.0 {
                Some(cell) => {
                    // The body is rebuilt, not pushed to: it is never
                    // without its head, not even for a moment.
                    self.segments = self.segments.extended_by(spawn_segment(cell));
                },
                None => {},
            }
        }
    }

    /// Gives the food spawner `delta` more nanoseconds. Where that makes its
    /// timer fire, one piece of food appears on `cell`, whether or not there
    /// is food already. Food only spawns in the arena: a cell outside of it
    /// is passed over.
    pub fn food_spawner(&mut self, delta: u64, cell: Position)
        ensures
            final(self)@ == old(self)@.food_spawned(delta, cell),
            final(self)@.wf(),
    {
        proof {
            use_type_invariant(&*self);
        }
        let mut timer = self.food_spawn_timer;
        let fired = timer.0.tick(delta);
        self.food_spawn_timer = timer;
        if fired && cell.is_in_arena() {
            let mut foods: Vec<Food> = Vec::new();
            std::mem::swap(&mut foods, &mut self.foods);
            foods.push(Food { position: cell });
            self.foods = foods;
        }
    }

    /// Runs one frame: reads the keys, moves the snake, lets it eat,
    /// restarts a run that has ended, lets the snake grow, and spawns food.
    /// `delta` is the time since the last frame in nanoseconds, `food_cell`
    /// the cell for the food if any spawns in this frame.
    pub fn update(&mut self, keys: DirectionKeys, delta: u64, food_cell: Position)
        ensures
            final(self)@ == old(self)@.updated(keys, delta, food_cell),
            final(self)@.wf(),
    {
        self.snake_movement_input(keys);
        self.snake_movement(delta);
        self.snake_eating();
        self.game_over();
        self.snake_growth();
        self.food_spawner(delta, food_cell);
    }
}

} // verus!
