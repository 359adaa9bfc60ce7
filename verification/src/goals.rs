//! Goals: how far the writing has come, and whether it has come far enough.
//!
//! A goal is a number to reach, of words or of seconds spent writing. A goal
//! that is not set counts as reached.

use vstd::prelude::*;
use vstd::string::StringExecFns;
use crate::text::{count_words, decimal, push_decimal, word_count};

verus! {

/// How a goal stands.
#[derive(Clone, Copy, PartialEq, Eq, Debug, Structural)]
pub enum GoalStatus {
    /// No goal is set.
    Inactive,
    /// A goal is set and not reached yet.
    Active,
    /// The goal is reached.
    Done,
}

/// Whether `progress` reaches `goal`.
pub open spec fn goal_met(progress: int, goal: Option<u64>) -> bool {
    match goal {
        Some(g) => progress >= g,
        None => true,
    }
}

/// How `goal` stands at `progress`.
pub open spec fn status_at(progress: int, goal: Option<u64>) -> GoalStatus {
    match goal {
        Some(g) => if progress >= g { GoalStatus::Done } else { GoalStatus::Active },
        None => GoalStatus::Inactive,
    }
}

/// Whether a body and the seconds spent on it reach both goals.
pub open spec fn goals_achieved(
    body: Seq<char>,
    elapsed_seconds: int,
    word_goal: Option<u64>,
    time_goal: Option<u64>,
) -> bool {
    goal_met(word_count(body) as int, word_goal) && goal_met(elapsed_seconds, time_goal)
}

/// How progress towards a goal is written: the progress and the unit, and
/// behind a slash the goal and the unit, where a goal is set.
pub open spec fn progress_label(progress: nat, goal: Option<u64>, unit: Seq<char>) -> Seq<char> {
    match goal {
        Some(g) => decimal(progress) + unit + seq!['/'] + decimal(g as nat) + unit,
        None => decimal(progress) + unit,
    }
}

/// Whether `progress` reaches `goal`.
pub fn reached(progress: u64, goal: Option<u64>) -> (r: bool)
    ensures
        r == goal_met(progress as int, goal),
{
    match goal {
        Some(g) => progress >= g,
        None => true,
    }
}

/// How `goal` stands at `progress`.
pub fn goal_status(progress: u64, goal: Option<u64>) -> (r: GoalStatus)
    ensures
        r == status_at(progress as int, goal),
{
    match goal {
        Some(g) => if progress >= g {
            GoalStatus::Done
        } else {
            GoalStatus::Active
        },
        None => GoalStatus::Inactive,
    }
}

/// Whether `body`, written in `elapsed_seconds` seconds, reaches both goals.
pub fn achieved_goals(
    body: &str,
    elapsed_seconds: u64,
    word_goal: Option<u64>,
    time_goal: Option<u64>,
) -> (r: bool)
    ensures
        r == goals_achieved(body@, elapsed_seconds as int, word_goal, time_goal),
{
    let words = count_words(body);
    reached(words as u64, word_goal) && reached(elapsed_seconds, time_goal)
}

/// Writes out the progress towards a goal.
pub fn format_progress(progress: u64, goal: Option<u64>, unit: &str) -> (label: String)
    ensures
        label@ == progress_label(progress as nat, goal, unit@),
{
    let mut label = String::new();
    push_decimal(&mut label, progress);
    label.append(unit);
    match goal {
        Some(g) => {
            label.push('/');
            push_decimal(&mut label, g);
            label.append(unit);
        },
        None => {},
    }
    label
}

/// With no goal set, the goals are achieved, whatever was written and however
/// long it took.
pub proof fn lemma_no_goals_always_achieved(body: Seq<char>, elapsed_seconds: int)
    ensures
        goals_achieved(body, elapsed_seconds, None, None),
{
}

} // verus!
