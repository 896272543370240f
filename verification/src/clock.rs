//! The game clock: idle until the game starts, running while it is played, and
//! frozen for good once it has ended.
//!
//! The clock never reads the time itself. Every operation that depends on the
//! time takes the current reading as an argument: a count of milliseconds on a
//! monotonic clock whose origin the caller fixes.

use vstd::prelude::*;

verus! {

/// A clock in one of its three states.
#[derive(Clone, Copy, Debug, PartialEq, Eq, Structural)]
pub enum GameClock {
    /// The clock has not been started: nothing has elapsed.
    NotStarted,
    /// The clock has been running since the reading `since`.
    Running { since: u64 },
    /// The clock was frozen when `elapsed` milliseconds had passed.
    Frozen { elapsed: u64 },
}

impl GameClock {
    /// The time shown at the reading `now`: nothing before the start, the time
    /// since the start while running (nothing if `now` lies before the start),
    /// and the captured time once frozen.
    pub open spec fn elapsed_at(self, now: u64) -> u64 {
        match self {
            GameClock::NotStarted => 0,
            GameClock::Running { since } => if now >= since {
                (now - since) as u64
            } else {
                0
            },
            GameClock::Frozen { elapsed } => elapsed,
        }
    }

    /// The clock after `start` at the reading `now`.
    pub open spec fn started_at(self, now: u64) -> GameClock {
        match self {
            GameClock::NotStarted => GameClock::Running { since: now },
            _ => self,
        }
    }

    /// The clock after `freeze` at the reading `now`.
    pub open spec fn frozen_at(self, now: u64) -> GameClock {
        match self {
            GameClock::Frozen { .. } => self,
            _ => GameClock::Frozen { elapsed: self.elapsed_at(now) },
        }
    }

    /// A clock that has not been started.
    pub fn new() -> (clock: GameClock)
        ensures
            clock == GameClock::NotStarted,
    {
        GameClock::NotStarted
    }

    /// Starts a clock that has not been started; a running or frozen clock is
    /// left as it is.
    pub fn start(&mut self, now: u64)
        ensures
            *final(self) == old(self).started_at(now),
    {
        if let GameClock::NotStarted = *self {
            *self = GameClock::Running { since: now };
        }
    }

    /// The time elapsed at the reading `now`.
    pub fn elapsed(&self, now: u64) -> (shown: u64)
        ensures
            shown == self.elapsed_at(now),
    {
        match *self {
            GameClock::NotStarted => 0,
            GameClock::Running { since } => if now >= since {
                now - since
            } else {
                0
            },
            GameClock::Frozen { elapsed } => elapsed,
        }
    }

    /// Captures the time elapsed at the reading `now` and stops the clock for
    /// good. A clock that is already frozen keeps the time captured first.
    pub fn freeze(&mut self, now: u64)
        ensures
            *final(self) == old(self).frozen_at(now),
    {
        match *self {
            GameClock::Frozen { .. } => {},
            _ => {
                let captured: u64 = self.elapsed(now);
                *self = GameClock::Frozen { elapsed: captured };
            },
        }
    }

    /// Whether the clock is running.
    pub fn is_running(&self) -> (running: bool)
        ensures
            running == (*self is Running),
    {
        match *self {
            GameClock::Running { .. } => true,
            _ => false,
        }
    }

    /// Whether the clock is frozen.
    pub fn is_frozen(&self) -> (frozen: bool)
        ensures
            frozen == (*self is Frozen),
    {
        match *self {
            GameClock::Frozen { .. } => true,
            _ => false,
        }
    }

    /// While the clock runs, the elapsed time never goes back as the readings
    /// advance; in every state a later reading shows at least as much as an
    /// earlier one.
    pub proof fn lemma_elapsed_never_decreases(self, earlier: u64, later: u64)
        requires
            earlier <= later,
        ensures
            self.elapsed_at(earlier) <= self.elapsed_at(later),
    {
    }

    /// A frozen clock shows the captured time at every reading, and neither
    /// `start` nor `freeze` changes it.
    pub proof fn lemma_frozen_is_constant(self, now: u64, other: u64)
        requires
            self is Frozen,
        ensures
            self.elapsed_at(now) == self.elapsed_at(other),
            self.started_at(now) == self,
            self.frozen_at(now) == self,
    {
    }

    /// Freezing captures exactly what the clock showed at that reading, and
    /// the frozen clock shows it at every later query.
    pub proof fn lemma_freeze_captures_elapsed(self, now: u64, later: u64)
        ensures
            self.frozen_at(now) is Frozen,
            self.frozen_at(now).elapsed_at(later) == self.elapsed_at(now),
            self.frozen_at(now).frozen_at(later) == self.frozen_at(now),
    {
    }

    /// Starting is idempotent: a second `start` changes nothing.
    pub proof fn lemma_start_is_idempotent(self, now: u64, again: u64)
        ensures
            self.started_at(now).started_at(again) == self.started_at(now),
    {
    }
}

} // verus!
