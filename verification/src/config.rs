//! The parameters of a session, and the test that they are usable.

use vstd::prelude::*;
use crate::clock::minutes_as_ms;
use crate::clock::minutes_to_ms;

verus! {

/// Why a configuration cannot be used: the parameter named is zero or
/// negative.
#[derive(Clone, Copy, Debug, PartialEq, Eq, Structural)]
pub enum ConfigError {
    PomodoroDuration,
    ShortBreak,
    LongBreak,
    LongBreakStreak,
    TickInterval,
}

/// The parameters of a session. The fields are plain numbers and any value
/// can be written down; a session accepts a configuration only if every
/// field is positive (see [`SessionConfig::valid`]).
#[derive(Clone, Copy, Debug, PartialEq, Eq, Structural)]
pub struct SessionConfig {
    /// Minutes of work after which a break is due.
    pub pomodoro_duration: i32,
    /// Minutes that a short break lasts.
    pub short_break: i32,
    /// Minutes that a long break lasts.
    pub long_break: i32,
    /// Every how many completed work intervals the break is a long one.
    pub long_break_streak: i32,
    /// Milliseconds between two ticks.
    pub tick_interval_ms: i64,
}

impl SessionConfig {
    /// Every parameter is positive.
    pub open spec fn valid(self) -> bool {
        &&& self.pomodoro_duration > 0
        &&& self.short_break > 0
        &&& self.long_break > 0
        &&& self.long_break_streak > 0
        &&& self.tick_interval_ms > 0
    }

    /// The first parameter, in the order of the fields, that is not positive.
    pub open spec fn first_fault(self) -> Option<ConfigError> {
        if self.pomodoro_duration <= 0 {
            Some(ConfigError::PomodoroDuration)
        } else if self.short_break <= 0 {
            Some(ConfigError::ShortBreak)
        } else if self.long_break <= 0 {
            Some(ConfigError::LongBreak)
        } else if self.long_break_streak <= 0 {
            Some(ConfigError::LongBreakStreak)
        } else if self.tick_interval_ms <= 0 {
            Some(ConfigError::TickInterval)
        } else {
            None
        }
    }

    /// Length of a work interval in milliseconds.
    pub open spec fn pomodoro_ms(self) -> int {
        minutes_as_ms(self.pomodoro_duration as int)
    }

    /// Length of a short break in milliseconds.
    pub open spec fn short_break_ms(self) -> int {
        minutes_as_ms(self.short_break as int)
    }

    /// Length of a long break in milliseconds.
    pub open spec fn long_break_ms(self) -> int {
        minutes_as_ms(self.long_break as int)
    }

    /// The usual rhythm: 15 minutes of work, breaks of 10 minutes, and one of
    /// 20 minutes after every fourth work interval.
    pub open spec fn standard(tick_interval_ms: i64) -> SessionConfig {
        SessionConfig {
            pomodoro_duration: 15,
            short_break: 10,
            long_break: 20,
            long_break_streak: 4,
            tick_interval_ms,
        }
    }

    /// The usual rhythm with the given time between ticks. The interval is
    /// taken as it is; `validate` tells whether it can be used.
    pub fn with_tick_interval(tick_interval_ms: i64) -> (config: SessionConfig)
        ensures
            config == SessionConfig::standard(tick_interval_ms),
            config.valid() <==> tick_interval_ms > 0,
    {
        SessionConfig {
            pomodoro_duration: 15,
            short_break: 10,
            long_break: 20,
            long_break_streak: 4,
            tick_interval_ms,
        }
    }

    /// Accepts the configuration if every parameter is positive, and names
    /// the first one that is not otherwise.
    pub fn validate(&self) -> (outcome: Result<(), ConfigError>)
        ensures
            outcome is Ok <==> self.valid(),
            outcome == (match self.first_fault() {
                Some(fault) => Err::<(), ConfigError>(fault),
                None => Ok::<(), ConfigError>(()),
            }),
    {
        if self.pomodoro_duration <= 0 {
            Err(ConfigError::PomodoroDuration)
        } else if self.short_break <= 0 {
            Err(ConfigError::ShortBreak)
        } else if self.long_break <= 0 {
            Err(ConfigError::LongBreak)
        } else if self.long_break_streak <= 0 {
            Err(ConfigError::LongBreakStreak)
        } else if self.tick_interval_ms <= 0 {
            Err(ConfigError::TickInterval)
        } else {
            Ok(())
        }
    }

    /// Length of a work interval in milliseconds.
    pub(crate) fn pomodoro_millis(&self) -> (ms: u64)
        requires
            self.valid(),
        ensures
            ms == self.pomodoro_ms(),
            ms >= 60_000,
    {
        minutes_to_ms(self.pomodoro_duration as u32)
    }

    /// Length of a short break in milliseconds.
    pub(crate) fn short_break_millis(&self) -> (ms: u64)
        requires
            self.valid(),
        ensures
            ms == self.short_break_ms(),
            ms >= 60_000,
    {
        minutes_to_ms(self.short_break as u32)
    }

    /// Length of a long break in milliseconds.
    pub(crate) fn long_break_millis(&self) -> (ms: u64)
        requires
            self.valid(),
        ensures
            ms == self.long_break_ms(),
            ms >= 60_000,
    {
        minutes_to_ms(self.long_break as u32)
    }
}

impl Default for SessionConfig {
    /// The usual rhythm, ticking once a second.
    fn default() -> (config: SessionConfig)
        ensures
            config == SessionConfig::standard(1_000),
    {
        SessionConfig::with_tick_interval(1_000)
    }
}

impl ConfigError {
    /// A sentence that names the parameter at fault.
    pub fn message(&self) -> (text: &'static str)
        ensures
            text@ == self.message_text(),
    {
        match self {
            ConfigError::PomodoroDuration => "the pomodoro duration must be positive",
            ConfigError::ShortBreak => "the short break must be positive",
            ConfigError::LongBreak => "the long break must be positive",
            ConfigError::LongBreakStreak => "the long break streak must be positive",
            ConfigError::TickInterval => "the tick interval must be positive",
        }
    }

    /// The text of [`ConfigError::message`].
    pub open spec fn message_text(self) -> Seq<char> {
        match self {
            ConfigError::PomodoroDuration => "the pomodoro duration must be positive"@,
            ConfigError::ShortBreak => "the short break must be positive"@,
            ConfigError::LongBreak => "the long break must be positive"@,
            ConfigError::LongBreakStreak => "the long break streak must be positive"@,
            ConfigError::TickInterval => "the tick interval must be positive"@,
        }
    }
}

} // verus!
