//! Time as a session sees it: a clock that is told the time, the timer of the
//! time spent writing, and the moment of the last keystroke.
//!
//! All times are milliseconds on one clock, which the caller reads and hands
//! in. The clock never runs backwards, so no moment that is recorded lies
//! ahead of it, and every difference taken here is a length of time.

use vstd::prelude::*;

verus! {

/// What a `Timeline` holds.
pub struct TimelineState {
    /// The latest time that was handed in.
    pub clock: u64,
    /// The writing time of the runs of the timer that have ended.
    pub banked: u64,
    /// When the timer was started, while it is running.
    pub running_since: Option<u64>,
    /// When the last keystroke was marked, until it is forgotten.
    pub last_keystroke_at: Option<u64>,
}

impl TimelineState {
    /// The state of a new timeline: the clock at 0, the timer stopped at 0,
    /// no keystroke.
    pub open spec fn initial() -> TimelineState {
        TimelineState { clock: 0, banked: 0, running_since: None, last_keystroke_at: None }
    }

    /// No recorded moment lies ahead of the clock, and the time spent
    /// writing is no longer than the time that has passed.
    pub open spec fn ordered(self) -> bool {
        &&& match self.running_since {
            Some(since) => self.banked <= since <= self.clock,
            None => self.banked <= self.clock,
        }
        &&& match self.last_keystroke_at {
            Some(at) => at <= self.clock,
            None => true,
        }
    }

    pub open spec fn timer_running(self) -> bool {
        self.running_since is Some
    }

    /// The time spent writing, in milliseconds: the runs of the timer that
    /// have ended, and the one that is on.
    pub open spec fn elapsed_active_millis(self) -> int {
        match self.running_since {
            Some(since) => self.banked + (self.clock - since),
            None => self.banked as int,
        }
    }

    /// The time spent writing, in whole seconds.
    pub open spec fn elapsed_active_seconds(self) -> int {
        self.elapsed_active_millis() / 1000
    }

    /// The time since the last keystroke, in milliseconds, if one is marked.
    pub open spec fn idle_millis(self) -> Option<u64> {
        match self.last_keystroke_at {
            Some(at) => Some((self.clock - at) as u64),
            None => None,
        }
    }

    /// The state once the time `now` was handed in. An earlier time than the
    /// clock shows leaves the clock where it is.
    pub open spec fn at_time(self, now: u64) -> TimelineState {
        TimelineState { clock: if now > self.clock { now } else { self.clock }, ..self }
    }

    /// The state with the timer running: started at the clock, unless it was
    /// running already.
    pub open spec fn with_timer_started(self) -> TimelineState {
        if self.running_since is Some {
            self
        } else {
            TimelineState { running_since: Some(self.clock), ..self }
        }
    }

    /// The state with the timer stopped. The time spent writing stays.
    pub open spec fn with_timer_stopped(self) -> TimelineState {
        TimelineState {
            banked: self.elapsed_active_millis() as u64,
            running_since: None,
            ..self
        }
    }

    /// The state with the timer stopped and back at 0.
    pub open spec fn with_timer_reset(self) -> TimelineState {
        TimelineState { banked: 0, running_since: None, ..self }
    }

    /// The state with a keystroke marked at the clock.
    pub open spec fn with_keystroke(self) -> TimelineState {
        TimelineState { last_keystroke_at: Some(self.clock), ..self }
    }

    /// The state with no keystroke marked.
    pub open spec fn without_keystroke(self) -> TimelineState {
        TimelineState { last_keystroke_at: None, ..self }
    }
}

/// The clock of a session, with its timer and its last keystroke.
pub struct Timeline {
    clock: u64,
    banked: u64,
    running_since: Option<u64>,
    last_keystroke_at: Option<u64>,
}

impl View for Timeline {
    type V = TimelineState;

    closed spec fn view(&self) -> TimelineState {
        TimelineState {
            clock: self.clock,
            banked: self.banked,
            running_since: self.running_since,
            last_keystroke_at: self.last_keystroke_at,
        }
    }
}

impl Timeline {
    #[verifier::type_invariant]
    closed spec fn well_formed(&self) -> bool {
        self@.ordered()
    }

    pub fn new() -> (timeline: Timeline)
        ensures
            timeline@ == TimelineState::initial(),
    {
        Timeline { clock: 0, banked: 0, running_since: None, last_keystroke_at: None }
    }

    /// Hands in the time `now`.
    pub fn advance(&mut self, now: u64)
        ensures
            final(self)@ == old(self)@.at_time(now),
            final(self)@.ordered(),
    {
        proof {
            use_type_invariant(&*self);
        }
        if now > self.clock {
            self.clock = now;
        }
    }

    /// Starts the timer, unless it is running.
    pub fn start_timer(&mut self)
        ensures
            final(self)@ == old(self)@.with_timer_started(),
            final(self)@.ordered(),
    {
        proof {
            use_type_invariant(&*self);
        }
        if self.running_since.is_none() {
            self.running_since = Some(self.clock);
        }
    }

    /// Stops the timer and keeps the time spent writing.
    pub fn stop_timer(&mut self)
        ensures
            final(self)@ == old(self)@.with_timer_stopped(),
            final(self)@.ordered(),
    {
        proof {
            use_type_invariant(&*self);
        }
        let elapsed = self.elapsed_active_millis();
        self.running_since = None;
        self.banked = elapsed;
    }

    /// Stops the timer and sets the time spent writing back to 0.
    pub fn reset_timer(&mut self)
        ensures
            final(self)@ == old(self)@.with_timer_reset(),
            final(self)@.ordered(),
    {
        proof {
            use_type_invariant(&*self);
        }
        self.running_since = None;
        self.banked = 0;
    }

    /// Marks a keystroke at the clock.
    pub fn mark_keystroke(&mut self)
        ensures
            final(self)@ == old(self)@.with_keystroke(),
            final(self)@.ordered(),
    {
        proof {
            use_type_invariant(&*self);
        }
        self.last_keystroke_at = Some(self.clock);
    }

    /// Forgets the last keystroke.
    pub fn forget_keystroke(&mut self)
        ensures
            final(self)@ == old(self)@.without_keystroke(),
            final(self)@.ordered(),
    {
        proof {
            use_type_invariant(&*self);
        }
        self.last_keystroke_at = None;
    }

    pub fn timer_running(&self) -> (r: bool)
        ensures
            r == self@.timer_running(),
    {
        self.running_since.is_some()
    }

    /// The time spent writing, in milliseconds.
    pub fn elapsed_active_millis(&self) -> (r: u64)
        ensures
            r == self@.elapsed_active_millis(),
            self@.ordered(),
    {
        proof {
            use_type_invariant(self);
        }
        match self.running_since {
            Some(since) => self.banked + (self.clock - since),
            None => self.banked,
        }
    }

    /// The time spent writing, in whole seconds.
    pub fn elapsed_active_seconds(&self) -> (r: u64)
        ensures
            r == self@.elapsed_active_seconds(),
            self@.ordered(),
    {
        self.elapsed_active_millis() / 1000
    }

    /// The time since the last keystroke, in milliseconds, if one is marked.
    pub fn idle_millis(&self) -> (r: Option<u64>)
        ensures
            r == self@.idle_millis(),
            self@.ordered(),
    {
        proof {
            use_type_invariant(self);
        }
        match self.last_keystroke_at {
            Some(at) => Some(self.clock - at),
            None => None,
        }
    }
}

} // verus!
