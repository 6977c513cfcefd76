//! The elapsed-time tracker: a state machine over four events.
//!
//! Timestamps are plain `u64` millisecond readings of a monotonic clock;
//! the caller supplies "now" with each event. Elapsed time is folded into
//! `total_duration` lazily, on Stop and on periodic ticks while running.

use vstd::prelude::*;

use crate::render::rendered;
use crate::render::format_duration;

verus! {

/// The four events the tracker responds to. `Update` is the periodic tick.
#[derive(Debug, Clone)]
pub enum Message {
    Start,
    Stop,
    Reset,
    Update,
}

/// Whether the stopwatch is currently counting.
#[derive(Debug, Clone, Copy, PartialEq, Eq, Structural)]
pub enum TickState {
    Stopped,
    Ticking,
}

/// Accumulated running time plus the reference instant from which elapsed
/// time has not yet been folded in. All times are in milliseconds.
#[derive(Debug, Clone, Copy, PartialEq, Eq, Structural)]
pub struct ElapsedTimeTracker {
    /// Total running time counted so far, in milliseconds.
    pub total_duration: u64,
    /// Monotonic-clock reading of the last point already accounted for.
    pub last_update: u64,
    /// Current mode.
    pub tick_state: TickState,
}

/// The transition function of the tracker, one event at a time:
/// Start begins counting from `now`; Stop folds in the span since
/// `last_update` and stops; Reset clears the total but keeps the mode;
/// a tick folds in the span since `last_update` only while running.
pub open spec fn step(t: ElapsedTimeTracker, m: Message, now: u64) -> ElapsedTimeTracker {
    match m {
        Message::Start => ElapsedTimeTracker {
            total_duration: t.total_duration,
            last_update: now,
            tick_state: TickState::Ticking,
        },
        Message::Stop => ElapsedTimeTracker {
            total_duration: (t.total_duration + (now - t.last_update)) as u64,
            last_update: now,
            tick_state: TickState::Stopped,
        },
        Message::Reset => ElapsedTimeTracker {
            total_duration: 0,
            last_update: now,
            tick_state: t.tick_state,
        },
        Message::Update => match t.tick_state {
            TickState::Ticking => ElapsedTimeTracker {
                total_duration: (t.total_duration + (now - t.last_update)) as u64,
                last_update: now,
                tick_state: TickState::Ticking,
            },
            TickState::Stopped => t,
        },
    }
}

/// True for the events that fold the span since `last_update` into the
/// total, and so need `now` to be at or after `last_update` and the sum
/// to fit in a `u64`.
pub open spec fn folds_elapsed(t: ElapsedTimeTracker, m: Message) -> bool {
    m is Stop || (m is Update && t.tick_state is Ticking)
}

impl ElapsedTimeTracker {
    /// A fresh tracker: stopped, nothing accumulated, referenced to `now`.
    pub fn new(now: u64) -> (t: ElapsedTimeTracker)
        ensures
            t.total_duration == 0,
            t.last_update == now,
            t.tick_state is Stopped,
    {
        ElapsedTimeTracker {
            total_duration: 0,
            last_update: now,
            tick_state: TickState::Stopped,
        }
    }

    /// Apply one event at time `now`; the new state is exactly `step`.
    pub fn update(&mut self, message: Message, now: u64)
        requires
            folds_elapsed(*old(self), message) ==> old(self).last_update <= now
                && old(self).total_duration + (now - old(self).last_update) <= u64::MAX,
        ensures
            *final(self) == step(*old(self), message, now),
    {
        match message {
            Message::Start => {
                self.tick_state = TickState::Ticking;
                self.last_update = now;
            },
            Message::Stop => {
                self.total_duration = self.total_duration + (now - self.last_update);
                self.last_update = now;
                self.tick_state = TickState::Stopped;
            },
            Message::Reset => {
                self.total_duration = 0;
                self.last_update = now;
            },
            Message::Update => {
                match self.tick_state {
                    TickState::Ticking => {
                        self.total_duration = self.total_duration + (now - self.last_update);
                        self.last_update = now;
                    },
                    TickState::Stopped => {},
                }
            },
        }
    }

    /// Whether the stopwatch is counting; decides the toggle button's label.
    pub fn is_running(&self) -> (b: bool)
        ensures
            b == (self.tick_state is Ticking),
    {
        matches!(self.tick_state, TickState::Ticking)
    }

    /// The accumulated total rendered as `HH:MM:SS.CC`.
    pub fn display(&self) -> (s: String)
        ensures
            s@ == rendered(self.total_duration as nat),
    {
        format_duration(self.total_duration)
    }
}

} // verus!
