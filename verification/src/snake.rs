//! The snake: its head, its segments in body order, and how a step moves them.

use vstd::prelude::*;
use crate::grid::{Position, SnakeMoveDirection};

verus! {

/// The head of the snake: the way it is going.
#[derive(Clone, Copy, PartialEq, Eq, Debug, Structural)]
pub struct SnakeHead {
    pub direction: SnakeMoveDirection,
}

/// One cell-sized piece of the snake.
#[derive(Clone, Copy, PartialEq, Eq, Debug, Structural)]
pub struct SnakeSegment {
    pub position: Position,
}

/// The segments of the snake in body order: the head first, the tail last.
#[derive(Debug)]
pub struct SnakeSegments(pub Vec<SnakeSegment>);

impl Default for SnakeSegments {
    fn default() -> (segments: SnakeSegments)
        ensures
            segments.0@ == Seq::<SnakeSegment>::empty(),
    {
        SnakeSegments(Vec::new())
    }
}

/// Where the tail was before the last step, if the snake has stepped. A
/// segment that the snake gains is put there.
#[derive(Clone, Copy, PartialEq, Eq, Debug, Structural)]
pub struct LastTailPosition(pub Option<Position>);

impl Default for LastTailPosition {
    fn default() -> (last: LastTailPosition)
        ensures
            last.0 is None,
    {
        LastTailPosition(None)
    }
}

/// Cell of the head of a new snake.
pub open spec fn start_head() -> Position {
    Position { x: 3, y: 3 }
}

/// Cell of the one segment that follows the head of a new snake.
pub open spec fn start_tail() -> Position {
    Position { x: 3, y: 2 }
}

/// The body of a new snake: the head and one segment below it.
pub open spec fn start_body() -> Seq<SnakeSegment> {
    seq![SnakeSegment { position: start_head() }, SnakeSegment { position: start_tail() }]
}

/// The body after a step that takes the head to `target`: the head is at
/// `target`, and every other segment is where the one before it was. A body
/// without segments stays without.
pub open spec fn advanced(body: Seq<SnakeSegment>, target: Position) -> Seq<SnakeSegment> {
    if body.len() == 0 {
        body
    } else {
        seq![SnakeSegment { position: target }] + body.drop_last()
    }
}

/// Whether a segment behind the head is at `cell`.
pub open spec fn body_behind_head_at(body: Seq<SnakeSegment>, cell: Position) -> bool {
    exists|i: int| 1 <= i < body.len() && (#[trigger] body[i]).position == cell
}

/// Whether every segment lies in the arena.
pub open spec fn body_in_arena(body: Seq<SnakeSegment>) -> bool {
    forall|i: int| 0 <= i < body.len() ==> (#[trigger] body[i]).position.in_arena()
}

impl SnakeSegments {
    /// Whether a segment behind the head is at `cell`.
    pub fn runs_into(&self, cell: Position) -> (hit: bool)
        ensures
            hit == body_behind_head_at(self.0@, cell),
    {
        let mut hit = false;
        let mut i: usize = 1;
        while i < self.0.len()
            invariant
                1 <= i,
                hit == (exists|j: int|
                    1 <= j < i && j < self.0@.len() && (#[trigger] self.0@[j]).position == cell),
            decreases self.0.len() - i,
        {
            if self.0[i].position == cell {
                hit = true;
            }
            i += 1;
        }
        hit
    }

    /// The segments after a step that takes the head to `target`. The body
    /// is read as it stands before the step: each segment goes where the one
    /// before it was, not where that one goes.
    pub fn advanced_to(&self, target: Position) -> (moved: SnakeSegments)
        ensures
            moved.0@ == advanced(self.0@, target),
    {
        let mut body: Vec<SnakeSegment> = Vec::new();
        if self.0.len() == 0 {
            return SnakeSegments(body);
        }
        body.push(SnakeSegment { position: target });
        let followers = self.0.len() - 1;
        let mut i: usize = 0;
        while i < followers
            invariant
                followers == self.0@.len() - 1,
                i <= followers,
                body@ == seq![SnakeSegment { position: target }] + self.0@.take(i as int),
            decreases followers - i,
        {
            body.push(self.0[i]);
            assert(self.0@.take(i + 1) == self.0@.take(i as int).push(self.0@[i as int]));
            i += 1;
        }
        assert(self.0@.take(i as int) == self.0@.drop_last());
        SnakeSegments(body)
    }

    /// The segments with `segment` added behind the tail.
    pub fn extended_by(&self, segment: SnakeSegment) -> (longer: SnakeSegments)
        ensures
            longer.0@ == self.0@.push(segment),
    {
        let mut body: Vec<SnakeSegment> = Vec::new();
        let mut i: usize = 0;
        while i < self.0.len()
            invariant
                i <= self.0@.len(),
                body@ == self.0@.take(i as int),
            decreases self.0.len() - i,
        {
            body.push(self.0[i]);
            assert(self.0@.take(i + 1) == self.0@.take(i as int).push(self.0@[i as int]));
            i += 1;
        }
        assert(self.0@.take(i as int) == self.0@);
        body.push(segment);
        SnakeSegments(body)
    }
}

/// A head at `position` that has not been told where to go, with the segment
/// that stands for it in the body.
pub fn spawn_head(position: Position) -> (spawned: (SnakeHead, SnakeSegment))
    ensures
        spawned.0.direction == SnakeMoveDirection::Init,
        spawned.1.position == position,
{
    (SnakeHead { direction: SnakeMoveDirection::Init }, SnakeSegment { position })
}

/// A segment at `position`.
pub fn spawn_segment(position: Position) -> (segment: SnakeSegment)
    ensures
        segment.position == position,
{
    SnakeSegment { position }
}

} // verus!
