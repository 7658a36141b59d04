//! Fixed-interval timers that throttle the simulation.
//!
//! A [`Timer`] adds up the time it is handed. A poll that brings the sum to
//! the interval or beyond fires, once, and takes one interval off the sum: what
//! is left over counts towards the next fire. All times are whole nanoseconds.

use vstd::prelude::*;

verus! {

/// Nanoseconds between two steps of the snake.
pub const SNAKE_TICK_NANOS: u64 = 200_000_000;

/// Nanoseconds between two spawns of food.
pub const FOOD_SPAWN_NANOS: u64 = 1_000_000_000;

/// What a [`Timer`] stands for: its interval and the time added up so far.
pub struct TimerState {
    pub interval: nat,
    pub elapsed: nat,
}

impl TimerState {
    /// A timer of the given interval that has seen no time yet.
    pub open spec fn fresh(interval: nat) -> TimerState {
        TimerState { interval, elapsed: 0 }
    }

    /// The sum after `delta` more nanoseconds, before a fire is taken off.
    /// The sum stops at `u64::MAX`.
    pub open spec fn accumulated(self, delta: nat) -> nat {
        if self.elapsed + delta > u64::MAX {
            u64::MAX as nat
        } else {
            self.elapsed + delta
        }
    }

    /// Whether a poll with `delta` fires.
    pub open spec fn fires(self, delta: nat) -> bool {
        self.accumulated(delta) >= self.interval
    }

    /// The timer after a poll with `delta`: a fire costs exactly one interval.
    pub open spec fn after(self, delta: nat) -> TimerState {
        if self.fires(delta) {
            TimerState {
                interval: self.interval,
                elapsed: (self.accumulated(delta) - self.interval) as nat,
            }
        } else {
            TimerState { interval: self.interval, elapsed: self.accumulated(delta) }
        }
    }

    /// The timer after one poll for each entry of `deltas`, in order.
    pub open spec fn after_all(self, deltas: Seq<u64>) -> TimerState
        decreases deltas.len(),
    {
        if deltas.len() == 0 {
            self
        } else {
            self.after_all(deltas.drop_last()).after(deltas.last() as nat)
        }
    }

    /// How many of the polls with `deltas` fire.
    pub open spec fn fires_in(self, deltas: Seq<u64>) -> nat
        decreases deltas.len(),
    {
        if deltas.len() == 0 {
            0
        } else {
            let before = self.after_all(deltas.drop_last());
            let earlier = self.fires_in(deltas.drop_last());
            if before.fires(deltas.last() as nat) {
                earlier + 1
            } else {
                earlier
            }
        }
    }
}

/// The sum of the entries of `deltas`.
pub open spec fn total(deltas: Seq<u64>) -> nat
    decreases deltas.len(),
{
    if deltas.len() == 0 {
        0
    } else {
        total(deltas.drop_last()) + deltas.last() as nat
    }
}

/// No time is lost: as long as the sum does not pass `u64::MAX`, the time a
/// timer holds after a run of polls, together with one interval for each fire,
/// is the time it held before together with all the time it was handed.
pub proof fn lemma_time_is_conserved(timer: TimerState, deltas: Seq<u64>)
    requires
        timer.elapsed + total(deltas) <= u64::MAX,
    ensures
        timer.after_all(deltas).interval == timer.interval,
        timer.after_all(deltas).elapsed + timer.fires_in(deltas) * timer.interval
            == timer.elapsed + total(deltas),
    decreases deltas.len(),
{
    if deltas.len() > 0 {
        let earlier = deltas.drop_last();
        lemma_time_is_conserved(timer, earlier);
        let fired = timer.fires_in(earlier);
        assert((fired + 1) * timer.interval == fired * timer.interval + timer.interval)
            by (nonlinear_arith);
    } else {
        assert(0 * timer.interval == 0);
    }
}

/// A poll fires at most once: a run of polls fires no more often than it has
/// polls.
pub proof fn lemma_at_most_one_fire_per_poll(timer: TimerState, deltas: Seq<u64>)
    ensures
        timer.fires_in(deltas) <= deltas.len(),
    decreases deltas.len(),
{
    if deltas.len() > 0 {
        lemma_at_most_one_fire_per_poll(timer, deltas.drop_last());
    }
}

/// Polls that together stay short of the interval never fire, and the timer
/// holds all of their time.
pub proof fn lemma_short_of_interval_never_fires(timer: TimerState, deltas: Seq<u64>)
    requires
        timer.elapsed + total(deltas) < timer.interval,
    ensures
        timer.fires_in(deltas) == 0,
        timer.elapsed + total(deltas) <= u64::MAX ==> timer.after_all(deltas).elapsed
            == timer.elapsed + total(deltas),
        timer.after_all(deltas).elapsed <= timer.elapsed + total(deltas),
        timer.after_all(deltas).interval == timer.interval,
    decreases deltas.len(),
{
    if deltas.len() > 0 {
        lemma_short_of_interval_never_fires(timer, deltas.drop_last());
    }
}

/// Polls of a fresh timer that together come to exactly one interval fire
/// exactly once, and leave nothing over.
pub proof fn lemma_exact_interval_fires_once(interval: u64, deltas: Seq<u64>)
    requires
        interval > 0,
        total(deltas) == interval,
    ensures
        TimerState::fresh(interval as nat).fires_in(deltas) == 1,
        TimerState::fresh(interval as nat).after_all(deltas).elapsed == 0,
{
    let timer = TimerState::fresh(interval as nat);
    lemma_time_is_conserved(timer, deltas);
    let fired = timer.fires_in(deltas);
    // The last poll either fires or leaves less than an interval, so the
    // interval that was handed in cannot all be left over.
    assert(fired >= 1) by {
        lemma_time_is_conserved(timer, deltas.drop_last());
        assert(0 * interval == 0);
    }
    assert(fired >= 2 ==> fired * interval >= 2 * interval) by (nonlinear_arith);
    assert(1 * interval == interval);
}

/// A poll that fires keeps what the sum holds beyond one interval.
pub proof fn lemma_fire_keeps_the_rest(timer: TimerState, delta: u64)
    requires
        timer.fires(delta as nat),
        timer.elapsed + delta <= u64::MAX,
    ensures
        timer.after(delta as nat).elapsed == timer.elapsed + delta - timer.interval,
{
}

/// A repeating fixed-interval timer.
#[derive(Clone, Copy, Debug)]
pub struct Timer {
    interval: u64,
    elapsed: u64,
}

impl View for Timer {
    type V = TimerState;

    closed spec fn view(&self) -> TimerState {
        TimerState { interval: self.interval as nat, elapsed: self.elapsed as nat }
    }
}

impl Timer {
    /// A timer that fires every `interval` nanoseconds and has seen no time
    /// yet. With an interval of zero every poll fires.
    pub fn new(interval: u64) -> (timer: Timer)
        ensures
            timer@ == TimerState::fresh(interval as nat),
    {
        Timer { interval, elapsed: 0 }
    }

    /// The interval, in nanoseconds.
    pub fn interval(&self) -> (interval: u64)
        ensures
            interval == self@.interval,
    {
        self.interval
    }

    /// The time added up since the last fire, in nanoseconds.
    pub fn elapsed(&self) -> (elapsed: u64)
        ensures
            elapsed == self@.elapsed,
    {
        self.elapsed
    }

    /// Polls the timer with the `delta` nanoseconds that have passed since
    /// the last poll, and says whether it fires.
    ///
    /// It fires when the time added up reaches the interval. A fire takes one
    /// interval off the sum, however much time has been added up: a poll
    /// fires at most once, and what is owed beyond that is paid by the polls
    /// that follow.
    pub fn tick(&mut self, delta: u64) -> (fired: bool)
        ensures
            fired == old(self)@.fires(delta as nat),
            final(self)@ == old(self)@.after(delta as nat),
    {
        let sum = self.elapsed.saturating_add(delta);
        if sum >= self.interval {
            self.elapsed = sum - self.interval;
            true
        } else {
            self.elapsed = sum;
            false
        }
    }
}

/// The timer of the snake's steps.
#[derive(Clone, Copy, Debug)]
pub struct SnakeTimer(pub Timer);

impl SnakeTimer {
    /// A fresh timer that fires every [`SNAKE_TICK_NANOS`].
    pub fn new() -> (timer: SnakeTimer)
        ensures
            timer.0@ == TimerState::fresh(SNAKE_TICK_NANOS as nat),
    {
        SnakeTimer(Timer::new(SNAKE_TICK_NANOS))
    }
}

/// The timer of the food spawner.
#[derive(Clone, Copy, Debug)]
pub struct FoodSpawnTimer(pub Timer);

impl FoodSpawnTimer {
    /// A fresh timer that fires every [`FOOD_SPAWN_NANOS`].
    pub fn new() -> (timer: FoodSpawnTimer)
        ensures
            timer.0@ == TimerState::fresh(FOOD_SPAWN_NANOS as nat),
    {
        FoodSpawnTimer(Timer::new(FOOD_SPAWN_NANOS))
    }
}

} // verus!
