//! Units of time. The session counts whole milliseconds; durations that a
//! configuration gives in minutes are converted here, and a count of
//! milliseconds is split into the minutes and seconds that a clock shows.

use vstd::prelude::*;

verus! {

/// Milliseconds in one second.
pub const MS_PER_SECOND: u64 = 1_000;

/// Milliseconds in one minute.
pub const MS_PER_MINUTE: u64 = 60_000;

/// The length in milliseconds of `minutes` minutes.
pub open spec fn minutes_as_ms(minutes: int) -> int {
    minutes * 60_000
}

/// Converts a number of minutes to milliseconds.
pub fn minutes_to_ms(minutes: u32) -> (ms: u64)
    ensures
        ms == minutes_as_ms(minutes as int),
{
    (minutes as u64) * MS_PER_MINUTE
}

/// A duration as a clock shows it: whole minutes, and the whole seconds of the
/// minute that has begun.
#[derive(Clone, Copy, Debug, PartialEq, Eq, Structural)]
pub struct ClockFace {
    pub minutes: u64,
    pub seconds: u64,
}

/// The clock face of a duration of `ms` milliseconds.
pub open spec fn face_of(ms: nat) -> ClockFace {
    ClockFace { minutes: (ms / 60_000) as u64, seconds: ((ms % 60_000) / 1_000) as u64 }
}

/// Splits a duration into whole minutes and the seconds left over. What is
/// left of a second is dropped, not rounded.
pub fn clock_face(ms: u64) -> (face: ClockFace)
    ensures
        face == face_of(ms as nat),
        face.seconds < 60,
        face.minutes * 60_000 + face.seconds * 1_000 <= ms < face.minutes * 60_000
            + face.seconds * 1_000 + 1_000,
{
    ClockFace { minutes: ms / MS_PER_MINUTE, seconds: (ms % MS_PER_MINUTE) / MS_PER_SECOND }
}

} // verus!
