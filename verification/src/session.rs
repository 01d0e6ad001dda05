//! The executable session. It holds the state in machine integers and moves
//! exactly as the model in [`crate::model`] does, as far as its clock reaches.

use vstd::prelude::*;
use vstd::arithmetic::div_mod::lemma_div_is_ordered;
use crate::config::SessionConfig;
use crate::model::BreakKind;
use crate::model::Phase;
use crate::model::SessionError;
use crate::model::SessionModel;
use crate::model::TickEffect;
use crate::sampler::sample_count;
use crate::sampler::sample_of;
use crate::sampler::Sample;
use crate::words::as_count;
use crate::words::count_reading;
use crate::words::count_words;
use crate::words::counted;
use crate::words::words_in;

verus! {

/// A writing session: its configuration, its phase, its two clocks and the
/// latest measurement of the writer's progress.
#[derive(Debug)]
pub struct SessionState {
    config: SessionConfig,
    phase: Phase,
    elapsed_ms: u64,
    break_remaining_ms: u64,
    completed_intervals: u64,
    streak: u32,
    word_baseline: u64,
    word_count: i128,
    words_per_minute_milli: i128,
}

/// What the session shows of itself after an event.
#[derive(Clone, Copy, Debug, PartialEq, Eq, Structural)]
pub struct Snapshot {
    pub phase: Phase,
    pub elapsed_ms: u64,
    pub break_remaining_ms: u64,
    pub word_count: i128,
    pub words_per_minute_milli: i128,
    pub started: bool,
}

impl View for SessionState {
    type V = SessionModel;

    closed spec fn view(&self) -> SessionModel {
        SessionModel {
            config: self.config,
            phase: self.phase,
            elapsed_ms: self.elapsed_ms as nat,
            break_remaining_ms: self.break_remaining_ms as nat,
            completed_intervals: self.completed_intervals as nat,
            streak: self.streak as nat,
            word_baseline: self.word_baseline as nat,
            word_count: self.word_count as int,
            words_per_minute_milli: self.words_per_minute_milli as int,
        }
    }
}

/// The tick would work the clock past the largest time that a session can
/// hold: the session is at work, the file was read, and the time worked plus
/// one tick does not fit in 64 bits.
pub open spec fn clock_runs_out(state: SessionModel, sampled: Option<nat>) -> bool {
    &&& state.phase is Working
    &&& sampled is Some
    &&& state.elapsed_after_work() > u64::MAX
}

/// What sampling answers in a state: the measurement of a file found to hold
/// `sampled` words, or the error if the file could not be read.
pub open spec fn sampled_by(state: SessionModel, sampled: Option<nat>) -> Result<
    Sample,
    SessionError,
> {
    match sampled {
        Some(total) => Ok(sample_of(total, state.word_baseline, state.elapsed_ms)),
        None => Err(SessionError::Io),
    }
}

/// What a snapshot of a state shows.
pub open spec fn snapshot_of(state: SessionModel) -> Snapshot {
    Snapshot {
        phase: state.phase,
        elapsed_ms: state.elapsed_ms as u64,
        break_remaining_ms: state.break_remaining_ms as u64,
        word_count: state.word_count as i128,
        words_per_minute_milli: state.words_per_minute_milli as i128,
        started: state.started(),
    }
}

impl SessionState {
    #[verifier::type_invariant]
    closed spec fn inv(&self) -> bool {
        self@.wf()
    }

    /// A new session, not yet started, for a file that holds `baseline`
    /// words.
    pub fn with_baseline(config: SessionConfig, baseline: u64) -> (session: SessionState)
        ensures
            session@ == SessionModel::idle(config, baseline as nat),
            session@.wf(),
    {
        SessionState {
            config,
            phase: Phase::Idle,
            elapsed_ms: 0,
            break_remaining_ms: 0,
            completed_intervals: 0,
            streak: 0,
            word_baseline: baseline,
            word_count: 0,
            words_per_minute_milli: 0,
        }
    }

    /// A new session, not yet started, for a file with the given text.
    pub fn new(config: SessionConfig, text: &str) -> (session: SessionState)
        ensures
            session@ == SessionModel::idle(config, words_in(text@)),
            session@.wf(),
    {
        SessionState::with_baseline(config, count_words(text))
    }

    /// Starts the session. `sampled` is the number of words in the file as
    /// read for the start, or `None` if it could not be read.
    ///
    /// The start is refused, and the session left as it was, if it has
    /// started before, if the configuration is not valid, or if the file
    /// could not be read; the reasons are looked for in that order.
    pub fn start_with_count(&mut self, sampled: Option<u64>) -> (outcome: Result<(), SessionError>)
        ensures
            outcome == old(self)@.start_outcome(as_count(sampled)),
            final(self)@ == old(self)@.start(as_count(sampled)),
            final(self)@.wf(),
    {
        proof {
            use_type_invariant(&*self);
        }
        match self.phase {
            Phase::Idle => {},
            _ => {
                return Err(SessionError::AlreadyStarted);
            },
        }
        match self.config.validate() {
            Err(fault) => {
                return Err(SessionError::Config(fault));
            },
            Ok(_) => {},
        }
        match sampled {
            None => Err(SessionError::Io),
            Some(total) => {
                *self = SessionState {
                    config: self.config,
                    phase: Phase::Working,
                    elapsed_ms: 0,
                    break_remaining_ms: self.break_remaining_ms,
                    completed_intervals: self.completed_intervals,
                    streak: self.streak,
                    word_baseline: total,
                    word_count: 0,
                    words_per_minute_milli: 0,
                };
                Ok(())
            },
        }
    }

    /// Starts the session from a reading of the file: counts the words of
    /// the text, if there is one, and goes on as [`SessionState::start_with_count`]
    /// does.
    pub fn start(&mut self, reading: Option<&str>) -> (outcome: Result<(), SessionError>)
        ensures
            outcome == old(self)@.start_outcome(counted(reading)),
            final(self)@ == old(self)@.start(counted(reading)),
            final(self)@.wf(),
    {
        let sampled = count_reading(reading);
        self.start_with_count(sampled)
    }

    /// Moves the session by one tick. `sampled` is the number of words in the
    /// file as read for this tick, or `None` if it could not be read.
    ///
    /// At work the tick adds the tick interval to the time worked, takes a
    /// new measurement, and begins a break if a work interval was completed.
    /// On break it takes the tick interval off the break, and goes back to
    /// work when nothing is left. The session stays as it was, with an error,
    /// if it has not started, if at work the file could not be read, or if
    /// at work the clock cannot hold one more tick.
    pub fn tick_with_count(&mut self, sampled: Option<u64>) -> (outcome: Result<
        TickEffect,
        SessionError,
    >)
        ensures
            final(self)@.wf(),
            clock_runs_out(old(self)@, as_count(sampled)) ==> {
                &&& outcome == Err::<TickEffect, SessionError>(SessionError::ClockExhausted)
                &&& final(self)@ == old(self)@
            },
            !clock_runs_out(old(self)@, as_count(sampled)) ==> {
                &&& outcome == old(self)@.tick_outcome(as_count(sampled))
                &&& final(self)@ == old(self)@.tick(as_count(sampled))
            },
    {
        proof {
            use_type_invariant(&*self);
        }
        match self.phase {
            Phase::Idle => Err(SessionError::NotStarted),
            Phase::OnBreak => Ok(self.rest()),
            Phase::Working => match sampled {
                None => Err(SessionError::Io),
                Some(total) => self.work(total),
            },
        }
    }

    /// Moves the session by one tick from a reading of the file. The text is
    /// looked at only while the session is at work: its words are counted,
    /// and the tick goes on as [`SessionState::tick_with_count`] does.
    pub fn tick(&mut self, reading: Option<&str>) -> (outcome: Result<TickEffect, SessionError>)
        ensures
            final(self)@.wf(),
            clock_runs_out(old(self)@, counted(reading)) ==> {
                &&& outcome == Err::<TickEffect, SessionError>(SessionError::ClockExhausted)
                &&& final(self)@ == old(self)@
            },
            !clock_runs_out(old(self)@, counted(reading)) ==> {
                &&& outcome == old(self)@.tick_outcome(counted(reading))
                &&& final(self)@ == old(self)@.tick(counted(reading))
            },
    {
        let sampled = match self.phase {
            Phase::Working => count_reading(reading),
            _ => None,
        };
        self.tick_with_count(sampled)
    }

    /// Measures the writer's progress from a reading of the file, against
    /// this session's baseline and time worked. Without a text there is
    /// nothing to measure, and the answer is the error. The session is not
    /// changed: a measurement is recorded only by a tick.
    pub fn sample(&self, reading: Option<&str>) -> (outcome: Result<Sample, SessionError>)
        ensures
            outcome == sampled_by(self@, counted(reading)),
            outcome is Ok <==> reading is Some,
    {
        match count_reading(reading) {
            Some(total) => Ok(sample_count(total, self.word_baseline, self.elapsed_ms)),
            None => Err(SessionError::Io),
        }
    }

    /// What the session shows of itself.
    pub fn snapshot(&self) -> (shown: Snapshot)
        ensures
            shown == snapshot_of(self@),
            shown.phase == self@.phase,
            shown.elapsed_ms == self@.elapsed_ms,
            shown.break_remaining_ms == self@.break_remaining_ms,
            shown.word_count == self@.word_count,
            shown.words_per_minute_milli == self@.words_per_minute_milli,
            shown.started == self@.started(),
            self@.wf(),
    {
        proof {
            use_type_invariant(self);
        }
        Snapshot {
            phase: self.phase,
            elapsed_ms: self.elapsed_ms,
            break_remaining_ms: self.break_remaining_ms,
            word_count: self.word_count,
            words_per_minute_milli: self.words_per_minute_milli,
            started: self.started(),
        }
    }

    /// The parameters the session runs with.
    pub fn config(&self) -> (config: SessionConfig)
        ensures
            config == self@.config,
    {
        self.config
    }

    /// What the session is doing.
    pub fn phase(&self) -> (phase: Phase)
        ensures
            phase == self@.phase,
    {
        self.phase
    }

    /// Whether the session has been started.
    pub fn started(&self) -> (started: bool)
        ensures
            started == self@.started(),
    {
        match self.phase {
            Phase::Idle => false,
            _ => true,
        }
    }

    /// Time worked since the start, in milliseconds.
    pub fn elapsed_ms(&self) -> (ms: u64)
        ensures
            ms == self@.elapsed_ms,
    {
        self.elapsed_ms
    }

    /// Time left of the running break, in milliseconds; zero at work.
    pub fn break_remaining_ms(&self) -> (ms: u64)
        ensures
            ms == self@.break_remaining_ms,
            ms > 0 <==> self@.phase is OnBreak,
    {
        proof {
            use_type_invariant(self);
        }
        self.break_remaining_ms
    }

    /// Work intervals completed since the start.
    pub fn completed_intervals(&self) -> (intervals: u64)
        ensures
            intervals == self@.completed_intervals,
    {
        self.completed_intervals
    }

    /// Short breaks taken since the last long one.
    pub fn streak(&self) -> (streak: u32)
        ensures
            streak == self@.streak,
    {
        self.streak
    }

    /// Words in the file when the session began.
    pub fn word_baseline(&self) -> (words: u64)
        ensures
            words == self@.word_baseline,
    {
        self.word_baseline
    }

    /// Words written since the session began, at the latest measurement.
    pub fn word_count(&self) -> (words: i128)
        ensures
            words == self@.word_count,
    {
        self.word_count
    }

    /// The pace of writing at the latest measurement, in thousandths of a
    /// word per minute.
    pub fn words_per_minute_milli(&self) -> (rate: i128)
        ensures
            rate == self@.words_per_minute_milli,
    {
        self.words_per_minute_milli
    }

    /// One tick on break.
    fn rest(&mut self) -> (effect: TickEffect)
        requires
            old(self)@.wf(),
            old(self)@.phase is OnBreak,
        ensures
            final(self)@ == old(self)@.rest(),
            final(self)@.wf(),
            Ok::<TickEffect, SessionError>(effect) == old(self)@.tick_outcome(None),
    {
        let tick: u64 = self.config.tick_interval_ms as u64;
        let left: u64 = if self.break_remaining_ms > tick {
            self.break_remaining_ms - tick
        } else {
            0
        };
        let over: bool = left == 0;
        *self = SessionState {
            config: self.config,
            phase: if over {
                Phase::Working
            } else {
                Phase::OnBreak
            },
            elapsed_ms: self.elapsed_ms,
            break_remaining_ms: left,
            completed_intervals: self.completed_intervals,
            streak: self.streak,
            word_baseline: self.word_baseline,
            word_count: self.word_count,
            words_per_minute_milli: self.words_per_minute_milli,
        };
        if over {
            TickEffect::BreakEnded
        } else {
            TickEffect::Resting
        }
    }

    /// One tick at work, with the file read and found to hold `total` words.
    fn work(&mut self, total: u64) -> (outcome: Result<TickEffect, SessionError>)
        requires
            old(self)@.wf(),
            old(self)@.phase is Working,
        ensures
            final(self)@.wf(),
            clock_runs_out(old(self)@, Some(total as nat)) ==> {
                &&& outcome == Err::<TickEffect, SessionError>(SessionError::ClockExhausted)
                &&& final(self)@ == old(self)@
            },
            !clock_runs_out(old(self)@, Some(total as nat)) ==> {
                &&& outcome == old(self)@.tick_outcome(Some(total as nat))
                &&& final(self)@ == old(self)@.work(total as nat)
            },
    {
        let tick: u64 = self.config.tick_interval_ms as u64;
        if tick > u64::MAX - self.elapsed_ms {
            return Err(SessionError::ClockExhausted);
        }
        let elapsed: u64 = self.elapsed_ms + tick;
        let sample = sample_count(total, self.word_baseline, elapsed);
        let completed: u64 = elapsed / self.config.pomodoro_millis();
        proof {
            lemma_div_is_ordered(
                self.elapsed_ms as int,
                elapsed as int,
                self@.config.pomodoro_ms(),
            );
        }
        if completed > self.completed_intervals {
            let long: bool = self.streak + 1 >= self.config.long_break_streak as u32;
            let kind = if long {
                BreakKind::Long
            } else {
                BreakKind::Short
            };
            *self = SessionState {
                config: self.config,
                phase: Phase::OnBreak,
                elapsed_ms: elapsed,
                break_remaining_ms: if long {
                    self.config.long_break_millis()
                } else {
                    self.config.short_break_millis()
                },
                completed_intervals: completed,
                streak: if long {
                    0
                } else {
                    self.streak + 1
                },
                word_baseline: self.word_baseline,
                word_count: sample.word_count,
                words_per_minute_milli: sample.words_per_minute_milli,
            };
            Ok(TickEffect::BreakStarted(kind))
        } else {
            *self = SessionState {
                config: self.config,
                phase: Phase::Working,
                elapsed_ms: elapsed,
                break_remaining_ms: self.break_remaining_ms,
                completed_intervals: self.completed_intervals,
                streak: self.streak,
                word_baseline: self.word_baseline,
                word_count: sample.word_count,
                words_per_minute_milli: sample.words_per_minute_milli,
            };
            Ok(TickEffect::Worked)
        }
    }
}

} // verus!
