//! The writing session and its two modes.
//!
//! A `Session` is driven by three kinds of events: the clock moves on, a key
//! is pressed, and the idle check runs. Each is a total function on the state;
//! none can fail. What a session is, is said by its view, a `SessionState`,
//! and each transition is stated as a function on that view.

use vstd::prelude::*;
use crate::goals::{achieved_goals, goals_achieved};
use crate::idle::{exceeds_timeout, timed_out};
use crate::timeline::{Timeline, TimelineState};

verus! {

/// Which of the two texts the keys go to.
#[derive(Clone, Copy, PartialEq, Eq, Debug, Structural)]
pub enum Mode {
    /// The title is being edited. This is where a session starts.
    TitleEntry,
    /// The body is being written.
    Writing,
}

/// A key event. Keys that the session has no use for are `Other`.
#[derive(Clone, Copy, PartialEq, Eq, Debug, Structural)]
pub enum Key {
    Enter,
    Char(char),
    Backspace,
    Escape,
    Other,
}

/// A goal or a timeout as it is configured, where 0 stands for none.
pub open spec fn normalized(limit: Option<u64>) -> Option<u64> {
    match limit {
        Some(n) => if n == 0 {
            None
        } else {
            Some(n)
        },
        None => None,
    }
}

/// The state of a session.
pub struct SessionState {
    pub title: Seq<char>,
    pub body: Seq<char>,
    pub mode: Mode,
    pub backspace_enabled: bool,
    pub strict_mode: bool,
    /// Seconds of writing to reach, if any.
    pub time_goal: Option<u64>,
    /// Words to reach, if any.
    pub word_goal: Option<u64>,
    /// Seconds of silence after which the body is lost, if any.
    pub keystroke_timeout: Option<u64>,
    /// The clock, the writing timer and the last keystroke.
    pub time: TimelineState,
}

impl SessionState {
    /// The state of a new session: in title entry, with an empty body, the
    /// timer stopped. A goal or timeout of 0 counts as none.
    pub open spec fn initial(
        title: Seq<char>,
        time_goal: Option<u64>,
        word_goal: Option<u64>,
        backspace_enabled: bool,
        strict_mode: bool,
        keystroke_timeout: Option<u64>,
    ) -> SessionState {
        SessionState {
            title,
            body: Seq::empty(),
            mode: Mode::TitleEntry,
            backspace_enabled,
            strict_mode,
            time_goal: normalized(time_goal),
            word_goal: normalized(word_goal),
            keystroke_timeout: normalized(keystroke_timeout),
            time: TimelineState::initial(),
        }
    }

    /// What holds of every session: the timer runs and a keystroke is
    /// remembered only while writing, a goal or timeout that is set is not 0,
    /// and no time recorded lies ahead of the clock.
    pub open spec fn consistent(self) -> bool {
        &&& self.time.running_since is Some ==> self.mode == Mode::Writing
        &&& self.time.last_keystroke_at is Some ==> self.mode == Mode::Writing
        &&& self.time_goal != Some(0u64)
        &&& self.word_goal != Some(0u64)
        &&& self.keystroke_timeout != Some(0u64)
        &&& self.time.ordered()
    }

    pub open spec fn timer_running(self) -> bool {
        self.time.timer_running()
    }

    /// The time spent writing, in whole seconds.
    pub open spec fn elapsed_active_seconds(self) -> int {
        self.time.elapsed_active_seconds()
    }

    /// Whether the body holds any text.
    pub open spec fn has_text(self) -> bool {
        self.body.len() > 0
    }

    /// Whether the body and the time spent on it reach the goals that are
    /// set.
    pub open spec fn achieved_goals(self) -> bool {
        goals_achieved(self.body, self.elapsed_active_seconds(), self.word_goal, self.time_goal)
    }

    /// Whether Escape may leave the writing mode: always without strict mode,
    /// and with it once the goals are achieved.
    pub open spec fn may_stop_writing(self) -> bool {
        self.achieved_goals() || !self.strict_mode
    }

    /// The state once the time `now` was handed in.
    pub open spec fn at_time(self, now: u64) -> SessionState {
        SessionState { time: self.time.at_time(now), ..self }
    }

    /// The state after `key` was pressed.
    pub open spec fn after_key(self, key: Key) -> SessionState {
        match self.mode {
            Mode::TitleEntry => match key {
                Key::Enter => SessionState { mode: Mode::Writing, ..self },
                Key::Char(c) => SessionState { title: self.title.push(c), ..self },
                Key::Backspace => if self.title.len() > 0 {
                    SessionState { title: self.title.drop_last(), ..self }
                } else {
                    self
                },
                Key::Escape => self,
                Key::Other => self,
            },
            Mode::Writing => match key {
                Key::Enter => SessionState { body: self.body.push('\n'), ..self },
                Key::Char(c) => SessionState {
                    body: self.body.push(c),
                    time: self.time.with_keystroke().with_timer_started(),
                    ..self
                },
                Key::Backspace => if self.backspace_enabled && self.body.len() > 0 {
                    SessionState { body: self.body.drop_last(), ..self }
                } else {
                    self
                },
                Key::Escape => if self.may_stop_writing() {
                    SessionState {
                        mode: Mode::TitleEntry,
                        time: self.time.with_timer_stopped().without_keystroke(),
                        ..self
                    }
                } else {
                    self
                },
                Key::Other => self,
            },
        }
    }

    /// Whether `key` ends the session: Escape does, in title entry.
    pub open spec fn ends_on(self, key: Key) -> bool {
        self.mode == Mode::TitleEntry && key == Key::Escape
    }

    /// Whether the silence since the last keystroke has outlasted the
    /// timeout.
    pub open spec fn timed_out(self) -> bool {
        self.mode == Mode::Writing && exceeds_timeout(
            self.time.idle_millis(),
            self.keystroke_timeout,
        )
    }

    /// The state after the idle check. A session that has timed out loses its
    /// body and the time spent on it, with the timer stopped and the last
    /// keystroke forgotten; it stays in writing mode.
    pub open spec fn after_idle_check(self) -> SessionState {
        if self.timed_out() {
            SessionState {
                body: Seq::empty(),
                time: self.time.with_timer_reset().without_keystroke(),
                ..self
            }
        } else {
            self
        }
    }

    /// The state after one turn of the event loop at the time `now`: the key,
    /// if one came, and then the idle check. A key that ends the session ends
    /// the turn.
    pub open spec fn after_turn(self, now: u64, key: Option<Key>) -> SessionState {
        let current = self.at_time(now);
        match key {
            Some(k) => if current.ends_on(k) {
                current
            } else {
                current.after_key(k).after_idle_check()
            },
            None => current.after_idle_check(),
        }
    }
}

/// A writing session.
pub struct Session {
    title: String,
    text: String,
    mode: Mode,
    backspace_enabled: bool,
    strict_mode: bool,
    time_goal: Option<u64>,
    word_goal: Option<u64>,
    keystroke_timeout: Option<u64>,
    time: Timeline,
}

impl View for Session {
    type V = SessionState;

    closed spec fn view(&self) -> SessionState {
        SessionState {
            title: self.title@,
            body: self.text@,
            mode: self.mode,
            backspace_enabled: self.backspace_enabled,
            strict_mode: self.strict_mode,
            time_goal: self.time_goal,
            word_goal: self.word_goal,
            keystroke_timeout: self.keystroke_timeout,
            time: self.time@,
        }
    }
}

fn normalize(limit: Option<u64>) -> (r: Option<u64>)
    ensures
        r == normalized(limit),
{
    match limit {
        Some(n) => if n == 0 {
            None
        } else {
            Some(n)
        },
        None => None,
    }
}

impl Session {
    /// A new session: in title entry, with an empty body, the timer stopped
    /// and the clock at 0. A goal or timeout of 0 counts as none.
    pub fn new(
        title: String,
        time_goal: Option<u64>,
        word_goal: Option<u64>,
        backspace_active: bool,
        strict_mode: bool,
        keystroke_timeout: Option<u64>,
    ) -> (session: Session)
        ensures
            session@ == SessionState::initial(
                title@,
                time_goal,
                word_goal,
                backspace_active,
                strict_mode,
                keystroke_timeout,
            ),
            session@.consistent(),
    {
        Session {
            title,
            text: String::new(),
            mode: Mode::TitleEntry,
            backspace_enabled: backspace_active,
            strict_mode,
            time_goal: normalize(time_goal),
            word_goal: normalize(word_goal),
            keystroke_timeout: normalize(keystroke_timeout),
            time: Timeline::new(),
        }
    }

    pub fn title(&self) -> (r: &str)
        ensures
            r@ == self@.title,
    {
        self.title.as_str()
    }

    pub fn text(&self) -> (r: &str)
        ensures
            r@ == self@.body,
    {
        self.text.as_str()
    }

    pub fn mode(&self) -> (r: Mode)
        ensures
            r == self@.mode,
    {
        self.mode
    }

    pub fn backspace_enabled(&self) -> (r: bool)
        ensures
            r == self@.backspace_enabled,
    {
        self.backspace_enabled
    }

    pub fn strict_mode(&self) -> (r: bool)
        ensures
            r == self@.strict_mode,
    {
        self.strict_mode
    }

    pub fn word_goal(&self) -> (r: Option<u64>)
        ensures
            r == self@.word_goal,
    {
        self.word_goal
    }

    pub fn time_goal(&self) -> (r: Option<u64>)
        ensures
            r == self@.time_goal,
    {
        self.time_goal
    }

    pub fn keystroke_timeout(&self) -> (r: Option<u64>)
        ensures
            r == self@.keystroke_timeout,
    {
        self.keystroke_timeout
    }

    pub fn timer_running(&self) -> (r: bool)
        ensures
            r == self@.timer_running(),
    {
        self.time.timer_running()
    }

    /// The time spent writing, in whole seconds.
    pub fn elapsed_active_seconds(&self) -> (r: u64)
        ensures
            r == self@.elapsed_active_seconds(),
    {
        self.time.elapsed_active_seconds()
    }

    /// The time since the last character was typed into the body, in
    /// milliseconds, if one was typed since writing began.
    pub fn idle_millis(&self) -> (r: Option<u64>)
        ensures
            r == self@.time.idle_millis(),
    {
        self.time.idle_millis()
    }

    /// Whether the body holds any text.
    pub fn has_text(&self) -> (r: bool)
        ensures
            r == self@.has_text(),
    {
        !self.text.as_str().is_empty()
    }

    /// Whether the body and the time spent on it reach the goals that are
    /// set.
    pub fn achieved_goals(&self) -> (r: bool)
        ensures
            r == self@.achieved_goals(),
    {
        achieved_goals(
            self.text.as_str(),
            self.time.elapsed_active_seconds(),
            self.word_goal,
            self.time_goal,
        )
    }

    /// Tells the session the time, in milliseconds on a clock that does not
    /// run backwards.
    pub fn advance_clock(&mut self, now: u64)
        ensures
            final(self)@ == old(self)@.at_time(now),
            old(self)@.consistent() ==> final(self)@.consistent(),
    {
        self.time.advance(now);
    }

    /// Handles one key, and says whether it ends the session.
    pub fn handle_key(&mut self, key: Key) -> (ends: bool)
        ensures
            final(self)@ == old(self)@.after_key(key),
            ends == old(self)@.ends_on(key),
            old(self)@.consistent() ==> final(self)@.consistent(),
    {
        match self.mode {
            Mode::TitleEntry => match key {
                Key::Enter => {
                    self.mode = Mode::Writing;
                    false
                },
                Key::Char(c) => {
                    self.title.push(c);
                    false
                },
                Key::Backspace => {
                    self.title.pop();
                    false
                },
                Key::Escape => true,
                Key::Other => false,
            },
            Mode::Writing => {
                match key {
                    Key::Enter => {
                        self.text.push('\n');
                    },
                    Key::Char(c) => {
                        self.time.mark_keystroke();
                        self.time.start_timer();
                        self.text.push(c);
                    },
                    Key::Backspace => {
                        if self.backspace_enabled {
                            self.text.pop();
                        }
                    },
                    Key::Escape => {
                        if self.achieved_goals() || !self.strict_mode {
                            self.time.stop_timer();
                            self.time.forget_keystroke();
                            self.mode = Mode::TitleEntry;
                        }
                    },
                    Key::Other => {},
                }
                false
            },
        }
    }

    /// Runs the idle check, and says whether it wiped the body.
    pub fn check_idle(&mut self) -> (wiped: bool)
        ensures
            final(self)@ == old(self)@.after_idle_check(),
            wiped == old(self)@.timed_out(),
            old(self)@.consistent() ==> final(self)@.consistent(),
    {
        let writing = match self.mode {
            Mode::Writing => true,
            Mode::TitleEntry => false,
        };
        if writing && timed_out(self.time.idle_millis(), self.keystroke_timeout) {
            self.time.forget_keystroke();
            self.time.reset_timer();
            self.text.clear();
            true
        } else {
            false
        }
    }

    /// One turn of the event loop at the time `now`: handles the key, if one
    /// came, and then runs the idle check. Says whether the session ends.
    pub fn tick(&mut self, now: u64, key: Option<Key>) -> (ends: bool)
        ensures
            final(self)@ == old(self)@.after_turn(now, key),
            ends == (key matches Some(k) && old(self)@.at_time(now).ends_on(k)),
            old(self)@.consistent() ==> final(self)@.consistent(),
    {
        self.advance_clock(now);
        match key {
            Some(k) => {
                if self.handle_key(k) {
                    return true;
                }
            },
            None => {},
        }
        self.check_idle();
        false
    }
}

/// A session without goals has achieved its goals, whatever its state, and
/// Escape may always leave the writing mode.
pub proof fn lemma_session_without_goals(state: SessionState)
    requires
        state.word_goal is None,
        state.time_goal is None,
    ensures
        state.achieved_goals(),
        state.may_stop_writing(),
{
}

/// A new session is consistent, and every event leaves a consistent session
/// consistent: the timer runs and a keystroke is remembered only while
/// writing, and no goal or timeout is 0.
pub proof fn lemma_events_keep_consistency(state: SessionState, now: u64, key: Key)
    requires
        state.consistent(),
    ensures
        state.at_time(now).consistent(),
        state.after_key(key).consistent(),
        state.after_idle_check().consistent(),
        state.after_turn(now, Some(key)).consistent(),
        state.after_turn(now, None).consistent(),
{
}

/// Every new session is consistent.
pub proof fn lemma_new_session_is_consistent(
    title: Seq<char>,
    time_goal: Option<u64>,
    word_goal: Option<u64>,
    backspace_enabled: bool,
    strict_mode: bool,
    keystroke_timeout: Option<u64>,
)
    ensures
        SessionState::initial(
            title,
            time_goal,
            word_goal,
            backspace_enabled,
            strict_mode,
            keystroke_timeout,
        ).consistent(),
{
}

/// In strict mode, Escape changes nothing while the goals are not achieved.
pub proof fn lemma_strict_mode_holds(state: SessionState)
    requires
        state.mode == Mode::Writing,
        state.strict_mode,
        !state.achieved_goals(),
    ensures
        state.after_key(Key::Escape) == state,
        !state.ends_on(Key::Escape),
{
}

/// Without strict mode, or with the goals achieved, Escape leaves the writing
/// mode: the timer stops, the time spent writing and both texts stay.
pub proof fn lemma_escape_leaves_writing(state: SessionState)
    requires
        state.consistent(),
        state.mode == Mode::Writing,
        !state.strict_mode || state.achieved_goals(),
    ensures
        state.after_key(Key::Escape).mode == Mode::TitleEntry,
        !state.after_key(Key::Escape).timer_running(),
        state.after_key(Key::Escape).time.last_keystroke_at is None,
        state.after_key(Key::Escape).time.elapsed_active_millis()
            == state.time.elapsed_active_millis(),
        state.after_key(Key::Escape).body == state.body,
        state.after_key(Key::Escape).title == state.title,
{
}

/// With backspace disabled, Backspace changes nothing while writing.
pub proof fn lemma_backspace_disabled(state: SessionState)
    requires
        state.mode == Mode::Writing,
        !state.backspace_enabled,
    ensures
        state.after_key(Key::Backspace) == state,
{
}

/// A session that has timed out is wiped by the idle check: the body is
/// empty, the time spent writing is 0, the timer is stopped and no keystroke
/// is remembered. It stays in writing mode and keeps its title.
pub proof fn lemma_idle_reset(state: SessionState)
    requires
        state.timed_out(),
    ensures
        state.after_idle_check().body.len() == 0,
        state.after_idle_check().elapsed_active_seconds() == 0,
        !state.after_idle_check().timer_running(),
        state.after_idle_check().time.last_keystroke_at is None,
        state.after_idle_check().mode == Mode::Writing,
        state.after_idle_check().title == state.title,
        !state.after_idle_check().timed_out(),
{
}

/// A key changes the title only in title entry and the body only while
/// writing, and either text only at its end: by one character more, or one
/// less.
pub proof fn lemma_texts_change_at_their_end(state: SessionState, key: Key)
    ensures
        state.mode == Mode::Writing ==> state.after_key(key).title == state.title,
        state.mode == Mode::TitleEntry ==> state.after_key(key).body == state.body,
        ({
            let body = state.after_key(key).body;
            ||| body == state.body
            ||| body.len() > 0 && body.drop_last() == state.body
            ||| state.body.len() > 0 && body == state.body.drop_last()
        }),
        ({
            let title = state.after_key(key).title;
            ||| title == state.title
            ||| title.len() > 0 && title.drop_last() == state.title
            ||| state.title.len() > 0 && title == state.title.drop_last()
        }),
{
    let after = state.after_key(key);
    if after.body.len() == state.body.len() + 1 {
        assert(after.body.drop_last() == state.body);
    }
    if after.title.len() == state.title.len() + 1 {
        assert(after.title.drop_last() == state.title);
    }
}

} // verus!
