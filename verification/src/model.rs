//! The session as a mathematical state machine: its states, the two events
//! that move it (the start and the tick), and what each event answers.
//!
//! Times are natural numbers of milliseconds and never run out here; the
//! executable session in [`crate::session`] is held to this model.

use vstd::prelude::*;
use crate::config::ConfigError;
use crate::config::SessionConfig;
use crate::sampler::rate_milli;

verus! {

/// What the session is doing.
#[derive(Clone, Copy, Debug, PartialEq, Eq, Structural)]
pub enum Phase {
    /// Created, not yet started.
    Idle,
    /// Work time is running.
    Working,
    /// A break is running.
    OnBreak,
}

/// The two lengths of break.
#[derive(Clone, Copy, Debug, PartialEq, Eq, Structural)]
pub enum BreakKind {
    Short,
    Long,
}

/// What a tick did.
#[derive(Clone, Copy, Debug, PartialEq, Eq, Structural)]
pub enum TickEffect {
    /// Work time advanced and no break is due.
    Worked,
    /// Work time advanced over the end of a work interval: a break of the
    /// given kind has begun, and the writer is to be notified.
    BreakStarted(BreakKind),
    /// The break went on and is not over.
    Resting,
    /// The break ran out: the session is back at work.
    BreakEnded,
}

/// Why an event left the session as it was.
#[derive(Clone, Copy, Debug, PartialEq, Eq, Structural)]
pub enum SessionError {
    /// The configuration is not usable; the session cannot start.
    Config(ConfigError),
    /// The watched file could not be read.
    Io,
    /// A tick came before the session was started.
    NotStarted,
    /// A start came after the session was started.
    AlreadyStarted,
    /// The time worked has reached the largest number of milliseconds that
    /// the session can hold.
    ClockExhausted,
}

/// A state of the session.
pub struct SessionModel {
    /// The parameters the session runs with.
    pub config: SessionConfig,
    pub phase: Phase,
    /// Time worked since the start, in milliseconds.
    pub elapsed_ms: nat,
    /// Time left of the running break, in milliseconds.
    pub break_remaining_ms: nat,
    /// Work intervals completed since the start.
    pub completed_intervals: nat,
    /// Short breaks taken since the last long one.
    pub streak: nat,
    /// Words in the file when the session began.
    pub word_baseline: nat,
    /// Words written since then, at the latest measurement.
    pub word_count: int,
    /// The pace of writing at the latest measurement, in thousandths of a
    /// word per minute.
    pub words_per_minute_milli: int,
}

impl SessionModel {
    /// The state of a new session.
    pub open spec fn idle(config: SessionConfig, baseline: nat) -> SessionModel {
        SessionModel {
            config,
            phase: Phase::Idle,
            elapsed_ms: 0,
            break_remaining_ms: 0,
            completed_intervals: 0,
            streak: 0,
            word_baseline: baseline,
            word_count: 0,
            words_per_minute_milli: 0,
        }
    }

    /// The longer of the two breaks, in milliseconds.
    pub open spec fn longest_break_ms(self) -> int {
        if self.config.short_break_ms() >= self.config.long_break_ms() {
            self.config.short_break_ms()
        } else {
            self.config.long_break_ms()
        }
    }

    /// What holds of every state that a session passes through.
    pub open spec fn wf(self) -> bool {
        &&& self.phase is OnBreak <==> self.break_remaining_ms > 0
        &&& self.word_baseline + self.word_count >= 0
        &&& self.words_per_minute_milli == rate_milli(self.word_count, self.elapsed_ms)
        &&& self.phase is Idle ==> {
            &&& self.elapsed_ms == 0
            &&& self.completed_intervals == 0
            &&& self.streak == 0
            &&& self.word_count == 0
        }
        &&& self.phase !is Idle ==> {
            &&& self.config.valid()
            &&& self.completed_intervals == self.elapsed_ms as int / self.config.pomodoro_ms()
            &&& self.streak < self.config.long_break_streak
            &&& self.break_remaining_ms <= self.longest_break_ms()
        }
    }

    /// The session has left `Idle`.
    pub open spec fn started(self) -> bool {
        self.phase !is Idle
    }

    /// What a start answers. `sampled` is the number of words in the file
    /// read for the start, or `None` if it could not be read.
    pub open spec fn start_outcome(self, sampled: Option<nat>) -> Result<(), SessionError> {
        if self.phase !is Idle {
            Err(SessionError::AlreadyStarted)
        } else {
            match self.config.first_fault() {
                Some(fault) => Err(SessionError::Config(fault)),
                None => match sampled {
                    None => Err(SessionError::Io),
                    Some(_) => Ok(()),
                },
            }
        }
    }

    /// The state after a start: at work, no time worked, and the words in the
    /// file taken as the baseline. A start that is refused changes nothing.
    pub open spec fn start(self, sampled: Option<nat>) -> SessionModel {
        match (self.start_outcome(sampled), sampled) {
            (Ok(_), Some(total)) => SessionModel {
                phase: Phase::Working,
                elapsed_ms: 0,
                word_baseline: total,
                word_count: 0,
                words_per_minute_milli: 0,
                ..self
            },
            _ => self,
        }
    }

    /// The time worked if one more tick is worked.
    pub open spec fn elapsed_after_work(self) -> nat {
        (self.elapsed_ms + self.config.tick_interval_ms) as nat
    }

    /// One more tick of work completes a work interval.
    pub open spec fn completes_interval(self) -> bool {
        self.elapsed_after_work() as int / self.config.pomodoro_ms() > self.completed_intervals
    }

    /// The kind of the break that follows the work interval now running: a
    /// long one if that interval fills the streak, a short one otherwise.
    pub open spec fn next_break(self) -> BreakKind {
        if self.streak + 1 >= self.config.long_break_streak {
            BreakKind::Long
        } else {
            BreakKind::Short
        }
    }

    /// The length of a break, in milliseconds.
    pub open spec fn break_ms(self, kind: BreakKind) -> int {
        match kind {
            BreakKind::Short => self.config.short_break_ms(),
            BreakKind::Long => self.config.long_break_ms(),
        }
    }

    /// What is left of the running break after one more tick; never less
    /// than nothing.
    pub open spec fn break_after_rest(self) -> nat {
        if self.break_remaining_ms > self.config.tick_interval_ms {
            (self.break_remaining_ms - self.config.tick_interval_ms) as nat
        } else {
            0
        }
    }

    /// The state after a tick at work with the file read and found to hold
    /// `total` words.
    pub open spec fn work(self, total: nat) -> SessionModel {
        let elapsed = self.elapsed_after_work();
        let measured = SessionModel {
            elapsed_ms: elapsed,
            word_count: total - self.word_baseline,
            words_per_minute_milli: rate_milli(total - self.word_baseline, elapsed),
            ..self
        };
        if self.completes_interval() {
            SessionModel {
                phase: Phase::OnBreak,
                break_remaining_ms: self.break_ms(self.next_break()) as nat,
                completed_intervals: (elapsed as int / self.config.pomodoro_ms()) as nat,
                streak: if self.next_break() is Long {
                    0
                } else {
                    self.streak + 1
                },
                ..measured
            }
        } else {
            measured
        }
    }

    /// The state after a tick on break.
    pub open spec fn rest(self) -> SessionModel {
        SessionModel {
            phase: if self.break_after_rest() > 0 {
                Phase::OnBreak
            } else {
                Phase::Working
            },
            break_remaining_ms: self.break_after_rest(),
            ..self
        }
    }

    /// The state after a tick. `sampled` is the number of words in the file
    /// as read for this tick, or `None` if it could not be read; it matters
    /// only at work.
    pub open spec fn tick(self, sampled: Option<nat>) -> SessionModel {
        match self.phase {
            Phase::Idle => self,
            Phase::OnBreak => self.rest(),
            Phase::Working => match sampled {
                None => self,
                Some(total) => self.work(total),
            },
        }
    }

    /// What a tick answers.
    pub open spec fn tick_outcome(self, sampled: Option<nat>) -> Result<TickEffect, SessionError> {
        match self.phase {
            Phase::Idle => Err(SessionError::NotStarted),
            Phase::OnBreak => if self.break_after_rest() > 0 {
                Ok(TickEffect::Resting)
            } else {
                Ok(TickEffect::BreakEnded)
            },
            Phase::Working => match sampled {
                None => Err(SessionError::Io),
                Some(_) => if self.completes_interval() {
                    Ok(TickEffect::BreakStarted(self.next_break()))
                } else {
                    Ok(TickEffect::Worked)
                },
            },
        }
    }

    /// The state after the ticks of `samples`, taken in order.
    pub open spec fn run(self, samples: Seq<Option<nat>>) -> SessionModel
        decreases samples.len(),
    {
        if samples.len() == 0 {
            self
        } else {
            self.run(samples.drop_last()).tick(samples.last())
        }
    }

    /// The number of breaks that begin on the ticks of `samples`.
    pub open spec fn breaks_begun(self, samples: Seq<Option<nat>>) -> nat
        decreases samples.len(),
    {
        if samples.len() == 0 {
            0
        } else {
            let earlier = self.breaks_begun(samples.drop_last());
            if self.run(samples.drop_last()).tick_outcome(samples.last()) matches Ok(
                TickEffect::BreakStarted(_),
            ) {
                earlier + 1
            } else {
                earlier
            }
        }
    }
}

impl BreakKind {
    /// The text of [`BreakKind::summary`].
    pub open spec fn summary_text(self) -> Seq<char> {
        match self {
            BreakKind::Short => "Nice work, shake your legs! take a drink!"@,
            BreakKind::Long => "Nice work, it's been a while, take a break man"@,
        }
    }

    /// The summary line of the notification that announces such a break.
    pub fn summary(&self) -> (text: &'static str)
        ensures
            text@ == self.summary_text(),
    {
        match self {
            BreakKind::Short => "Nice work, shake your legs! take a drink!",
            BreakKind::Long => "Nice work, it's been a while, take a break man",
        }
    }
}

impl TickEffect {
    /// The break that the writer is to be told of, if the tick began one.
    pub open spec fn announced(self) -> Option<BreakKind> {
        match self {
            TickEffect::BreakStarted(kind) => Some(kind),
            _ => None,
        }
    }

    /// The break that the writer is to be told of, if the tick began one.
    pub fn notification(&self) -> (kind: Option<BreakKind>)
        ensures
            kind == self.announced(),
    {
        match self {
            TickEffect::BreakStarted(kind) => Some(*kind),
            _ => None,
        }
    }
}

} // verus!
