//! The two signals that one handler raises and another takes up.

use vstd::prelude::*;

verus! {

/// The snake has eaten and is to gain a segment.
#[derive(Clone, Copy, PartialEq, Eq, Debug, Structural)]
pub struct GrowthEvent;

/// The snake has left the arena or run into itself: the run is over.
#[derive(Clone, Copy, PartialEq, Eq, Debug, Structural)]
pub struct GameOverEvent;

} // verus!
