//! What a session shows: the instruction line, the two text boxes with their
//! highlights, the cursor, and the progress towards the goals.
//!
//! Nothing here draws. `Session::render` gives the texts and choices of one
//! frame as plain values, for a viewport of a given size.

use vstd::prelude::*;
use vstd::string::StringExecFns;
use crate::goals::{format_progress, goal_status, progress_label, status_at, GoalStatus};
use crate::idle::{urgency, urgency_at, Urgency};
use crate::session::{Mode, Session, SessionState};
use crate::text::{count_words, word_count};
use crate::wrap::{
    cursor_column, cursor_row, filled, get_paragraph_text, get_text_position, visible_text,
};

verus! {

/// How a text is set off on the screen.
#[derive(Clone, Copy, PartialEq, Eq, Debug, Structural)]
pub enum Highlight {
    /// In use, and nothing to report.
    Active,
    /// A goal that is reached.
    Done,
    /// Needs attention.
    Warning,
    /// About to be lost.
    Danger,
    /// Not in use.
    Passive,
}

/// An instruction to the writer, to be looked up in the message catalogue.
#[derive(Clone, Copy, PartialEq, Eq, Debug, Structural)]
pub enum Message {
    /// Escape leaves and saves what was written.
    ExitSave,
    /// Escape leaves; there is nothing to save.
    ExitNoSave,
    /// Enter starts the writing.
    StartWriting,
    /// The goals are not reached: Escape is not taken.
    KeepWriting,
    /// Escape stops the writing.
    StopWriting,
}

/// The columns of the text inside a frame of `width` columns.
pub open spec fn text_columns(width: u16) -> nat {
    if width > 6 {
        (width - 6) as nat
    } else {
        0
    }
}

/// The rows of the text inside a text box of `height` rows.
pub open spec fn text_rows(height: u16) -> nat {
    if height > 2 {
        (height - 2) as nat
    } else {
        0
    }
}

impl SessionState {
    /// The words written, and the goal where one is set.
    pub open spec fn word_count_string(self) -> Seq<char> {
        progress_label(word_count(self.body), self.word_goal, Seq::empty())
    }

    /// The seconds spent writing, and the goal where one is set.
    pub open spec fn time_string(self) -> Seq<char> {
        progress_label(self.elapsed_active_seconds() as nat, self.time_goal, seq![' ', 's'])
    }

    pub open spec fn word_goal_status(self) -> GoalStatus {
        status_at(word_count(self.body) as int, self.word_goal)
    }

    pub open spec fn time_goal_status(self) -> GoalStatus {
        status_at(self.elapsed_active_seconds(), self.time_goal)
    }

    /// The highlight of the word count: a word goal that is not reached
    /// needs attention.
    pub open spec fn word_count_color(self) -> Highlight {
        match self.word_goal_status() {
            GoalStatus::Done => Highlight::Done,
            GoalStatus::Active => Highlight::Warning,
            GoalStatus::Inactive => Highlight::Passive,
        }
    }

    /// The highlight of the time spent writing.
    pub open spec fn time_color(self) -> Highlight {
        match self.time_goal_status() {
            GoalStatus::Done => Highlight::Done,
            GoalStatus::Active => Highlight::Active,
            GoalStatus::Inactive => Highlight::Passive,
        }
    }

    /// How close the silence since the last keystroke has come to the
    /// timeout.
    pub open spec fn urgency(self) -> Urgency {
        urgency_at(self.time.idle_millis(), self.keystroke_timeout)
    }

    /// The highlights of the title box and of the text box. The box that the
    /// keys go to is active, and the text box shows the urgency.
    pub open spec fn widget_colors(self) -> (Highlight, Highlight) {
        match self.mode {
            Mode::TitleEntry => (Highlight::Active, Highlight::Passive),
            Mode::Writing => (
                Highlight::Passive,
                match self.urgency() {
                    Urgency::Danger => Highlight::Danger,
                    Urgency::Warning => Highlight::Warning,
                    Urgency::Calm => Highlight::Active,
                },
            ),
        }
    }

    /// The instructions that fit the state.
    pub open spec fn instruction(self) -> Seq<Message> {
        match self.mode {
            Mode::TitleEntry => seq![
                if self.has_text() {
                    Message::ExitSave
                } else {
                    Message::ExitNoSave
                },
                Message::StartWriting,
            ],
            Mode::Writing => seq![
                if self.strict_mode && !self.achieved_goals() {
                    Message::KeepWriting
                } else {
                    Message::StopWriting
                },
            ],
        }
    }

    /// The text that a text box of `rows` rows and `cols` columns shows of
    /// the body.
    pub open spec fn paragraph_text(self, rows: nat, cols: nat) -> Seq<char> {
        visible_text(filled(self.body, cols), self.body, rows)
    }

    /// The cursor in the box that the keys go to: the column, counted from 0,
    /// and the row, counted from 1, where `shown` is the text in the text
    /// box. Each is reduced to 16 bits.
    pub open spec fn cursor(self, shown: Seq<char>) -> (nat, nat) {
        match self.mode {
            Mode::TitleEntry => (self.title.len() % 0x1_0000, 1),
            Mode::Writing => (cursor_column(shown) % 0x1_0000, cursor_row(shown) % 0x1_0000),
        }
    }

    /// What is kept of the session when it ends: nothing where the body is
    /// empty; else the title on a line of its own, where there is one, the
    /// body, and an empty line.
    pub open spec fn saved_text(self) -> Option<Seq<char>> {
        if self.body.len() == 0 {
            None
        } else if self.title.len() == 0 {
            Some(self.body + seq!['\n', '\n'])
        } else {
            Some(self.title + seq!['\n'] + self.body + seq!['\n', '\n'])
        }
    }
}

/// One frame of a session.
pub struct Screen {
    pub instruction: Vec<Message>,
    pub title: String,
    pub title_color: Highlight,
    pub text: String,
    pub text_color: Highlight,
    /// The box that holds the cursor.
    pub cursor_in: Mode,
    /// The column of the cursor in its box, counted from 0.
    pub cursor_column: u16,
    /// The row of the cursor in its box, counted from 1.
    pub cursor_row: u16,
    pub word_count: String,
    pub word_count_color: Highlight,
    pub time: String,
    pub time_color: Highlight,
}

impl Screen {
    /// Whether this is the frame that `state` shows in a frame of `width`
    /// columns whose text box has `height` rows.
    pub open spec fn shows(self, state: SessionState, width: u16, height: u16) -> bool {
        &&& self.instruction@ == state.instruction()
        &&& self.title@ == state.title
        &&& self.title_color == state.widget_colors().0
        &&& self.text@ == state.paragraph_text(text_rows(height), text_columns(width))
        &&& self.text_color == state.widget_colors().1
        &&& self.cursor_in == state.mode
        &&& self.cursor_column == state.cursor(self.text@).0
        &&& self.cursor_row == state.cursor(self.text@).1
        &&& self.word_count@ == state.word_count_string()
        &&& self.word_count_color == state.word_count_color()
        &&& self.time@ == state.time_string()
        &&& self.time_color == state.time_color()
    }
}

impl Message {
    /// The key of the message in the catalogue.
    pub open spec fn key_text(self) -> Seq<char> {
        match self {
            Message::ExitSave => "exit-save"@,
            Message::ExitNoSave => "exit-no-save"@,
            Message::StartWriting => "start-writing"@,
            Message::KeepWriting => "keep-writing"@,
            Message::StopWriting => "stop-writing"@,
        }
    }

    /// The key of the message in the catalogue.
    pub fn key(&self) -> (key: &'static str)
        ensures
            key@ == self.key_text(),
    {
        match self {
            Message::ExitSave => "exit-save",
            Message::ExitNoSave => "exit-no-save",
            Message::StartWriting => "start-writing",
            Message::KeepWriting => "keep-writing",
            Message::StopWriting => "stop-writing",
        }
    }
}

impl Session {
    /// The words written.
    pub fn word_count(&self) -> (n: usize)
        ensures
            n == word_count(self@.body),
    {
        count_words(self.text())
    }

    /// The words written, and the goal where one is set: `12/500`, or `12`.
    pub fn get_word_count_string(&self) -> (label: String)
        ensures
            label@ == self@.word_count_string(),
    {
        proof {
            reveal_strlit("");
            assert(""@ == Seq::<char>::empty());
        }
        format_progress(self.word_count() as u64, self.word_goal(), "")
    }

    /// The seconds spent writing, and the goal where one is set:
    /// `30 s/600 s`, or `30 s`.
    pub fn get_time_string(&self) -> (label: String)
        ensures
            label@ == self@.time_string(),
    {
        proof {
            reveal_strlit(" s");
            assert(" s"@ == seq![' ', 's']);
        }
        format_progress(self.elapsed_active_seconds(), self.time_goal(), " s")
    }

    pub fn word_goal_status(&self) -> (r: GoalStatus)
        ensures
            r == self@.word_goal_status(),
    {
        goal_status(self.word_count() as u64, self.word_goal())
    }

    pub fn time_goal_status(&self) -> (r: GoalStatus)
        ensures
            r == self@.time_goal_status(),
    {
        goal_status(self.elapsed_active_seconds(), self.time_goal())
    }

    /// The highlight of the time spent writing.
    pub fn get_time_color(&self) -> (r: Highlight)
        ensures
            r == self@.time_color(),
    {
        match self.time_goal_status() {
            GoalStatus::Done => Highlight::Done,
            GoalStatus::Active => Highlight::Active,
            GoalStatus::Inactive => Highlight::Passive,
        }
    }

    /// The highlight of the word count.
    pub fn get_word_count_color(&self) -> (r: Highlight)
        ensures
            r == self@.word_count_color(),
    {
        match self.word_goal_status() {
            GoalStatus::Done => Highlight::Done,
            GoalStatus::Active => Highlight::Warning,
            GoalStatus::Inactive => Highlight::Passive,
        }
    }

    /// How close the silence since the last keystroke has come to the
    /// timeout.
    pub fn urgency(&self) -> (r: Urgency)
        ensures
            r == self@.urgency(),
    {
        urgency(self.idle_millis(), self.keystroke_timeout())
    }

    /// The highlights of the title box and of the text box.
    pub fn get_widget_colors(&self) -> (r: (Highlight, Highlight))
        ensures
            r == self@.widget_colors(),
    {
        match self.mode() {
            Mode::TitleEntry => (Highlight::Active, Highlight::Passive),
            Mode::Writing => {
                let text = match self.urgency() {
                    Urgency::Danger => Highlight::Danger,
                    Urgency::Warning => Highlight::Warning,
                    Urgency::Calm => Highlight::Active,
                };
                (Highlight::Passive, text)
            },
        }
    }

    /// The instructions that fit the state.
    pub fn get_instruction(&self) -> (r: Vec<Message>)
        ensures
            r@ == self@.instruction(),
    {
        let mut r: Vec<Message> = Vec::new();
        match self.mode() {
            Mode::TitleEntry => {
                if self.has_text() {
                    r.push(Message::ExitSave);
                } else {
                    r.push(Message::ExitNoSave);
                }
                r.push(Message::StartWriting);
            },
            Mode::Writing => {
                if self.strict_mode() && !self.achieved_goals() {
                    r.push(Message::KeepWriting);
                } else {
                    r.push(Message::StopWriting);
                }
            },
        }
        r
    }

    /// The text that a text box of `paragraph_rows` rows and `paragraph_cols`
    /// columns shows of the body.
    pub fn get_paragraph_text(&self, paragraph_rows: usize, paragraph_cols: usize) -> (shown:
        String)
        ensures
            shown@ == self@.paragraph_text(paragraph_rows as nat, paragraph_cols as nat),
    {
        get_paragraph_text(self.text(), paragraph_rows, paragraph_cols)
    }

    /// What is kept of the session when it ends.
    pub fn saved_text(&self) -> (r: Option<String>)
        ensures
            match r {
                Some(saved) => self@.saved_text() == Some(saved@),
                None => self@.saved_text() is None,
            },
    {
        if !self.has_text() {
            return None;
        }
        let mut saved = String::new();
        let title = self.title();
        if !title.is_empty() {
            saved.append(title);
            saved.push('\n');
        }
        saved.append(self.text());
        saved.push('\n');
        saved.push('\n');
        proof {
            let b = self@.body;
            let t = self@.title;
            if t.len() == 0 {
                assert(saved@ == b + seq!['\n', '\n']);
            } else {
                assert(saved@ == t + seq!['\n'] + b + seq!['\n', '\n']);
            }
        }
        Some(saved)
    }

    /// The frame that the session shows in a frame of `width` columns whose
    /// text box has `height` rows.
    pub fn render(&self, width: u16, height: u16) -> (screen: Screen)
        ensures
            screen.shows(self@, width, height),
    {
        let cols: usize = if width > 6 { (width - 6) as usize } else { 0 };
        let rows: usize = if height > 2 { (height - 2) as usize } else { 0 };
        let text = self.get_paragraph_text(rows, cols);
        let colors = self.get_widget_colors();
        let mode = self.mode();
        let (cursor_column, cursor_row) = match mode {
            Mode::TitleEntry => ((self.title().unicode_len() % 0x1_0000) as u16, 1u16),
            Mode::Writing => get_text_position(text.as_str()),
        };
        Screen {
            instruction: self.get_instruction(),
            title: self.title().to_owned(),
            title_color: colors.0,
            text,
            text_color: colors.1,
            cursor_in: mode,
            cursor_column,
            cursor_row,
            word_count: self.get_word_count_string(),
            word_count_color: self.get_word_count_color(),
            time: self.get_time_string(),
            time_color: self.get_time_color(),
        }
    }
}

} // verus!
