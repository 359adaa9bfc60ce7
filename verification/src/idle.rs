//! The idle timeout: how long the keys have been silent, and what follows.
//!
//! Silence is measured in milliseconds since the last character was typed,
//! the timeout is configured in seconds. Without a timeout, or before the
//! first character, there is no silence to speak of.

use vstd::prelude::*;

verus! {

/// How close the silence has come to the timeout.
#[derive(Clone, Copy, PartialEq, Eq, Debug, Structural)]
pub enum Urgency {
    /// At most half of the timeout has passed, or nothing is being timed.
    Calm,
    /// More than half of the timeout has passed.
    Warning,
    /// More than four fifths of the timeout have passed.
    Danger,
}

/// Whether a silence of `idle_millis` is longer than `timeout` allows.
pub open spec fn exceeds_timeout(idle_millis: Option<u64>, timeout: Option<u64>) -> bool {
    match (idle_millis, timeout) {
        (Some(idle), Some(seconds)) => idle > seconds * 1000,
        _ => false,
    }
}

/// The urgency of a silence of `idle_millis` under `timeout`.
pub open spec fn urgency_at(idle_millis: Option<u64>, timeout: Option<u64>) -> Urgency {
    match (idle_millis, timeout) {
        (Some(idle), Some(seconds)) => if idle * 10 > seconds * 1000 * 8 {
            Urgency::Danger
        } else if idle * 10 > seconds * 1000 * 5 {
            Urgency::Warning
        } else {
            Urgency::Calm
        },
        _ => Urgency::Calm,
    }
}

/// Whether a silence of `idle_millis` is longer than `timeout` allows.
pub fn timed_out(idle_millis: Option<u64>, timeout: Option<u64>) -> (r: bool)
    ensures
        r == exceeds_timeout(idle_millis, timeout),
{
    match (idle_millis, timeout) {
        (Some(idle), Some(seconds)) => idle as u128 > seconds as u128 * 1000,
        _ => false,
    }
}

/// The urgency of a silence of `idle_millis` under `timeout`.
pub fn urgency(idle_millis: Option<u64>, timeout: Option<u64>) -> (r: Urgency)
    ensures
        r == urgency_at(idle_millis, timeout),
{
    match (idle_millis, timeout) {
        (Some(idle), Some(seconds)) => {
            let scaled: u128 = idle as u128 * 10;
            let full: u128 = seconds as u128 * 1000;
            if scaled > full * 8 {
                Urgency::Danger
            } else if scaled > full * 5 {
                Urgency::Warning
            } else {
                Urgency::Calm
            }
        },
        _ => Urgency::Calm,
    }
}

} // verus!
