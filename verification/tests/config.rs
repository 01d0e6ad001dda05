use wpm_watcher::clock::clock_face;
use wpm_watcher::clock::minutes_to_ms;
use wpm_watcher::clock::ClockFace;
use wpm_watcher::clock::MS_PER_MINUTE;
use wpm_watcher::clock::MS_PER_SECOND;
use wpm_watcher::config::ConfigError;
use wpm_watcher::config::SessionConfig;

fn usual() -> SessionConfig {
    SessionConfig::with_tick_interval(1_000)
}

#[test]
fn default_config_is_the_usual_rhythm() {
    let config = SessionConfig::default();
    assert_eq!(config.pomodoro_duration, 15);
    assert_eq!(config.short_break, 10);
    assert_eq!(config.long_break, 20);
    assert_eq!(config.long_break_streak, 4);
    assert_eq!(config.tick_interval_ms, 1_000);
    assert_eq!(config, usual());
}

#[test]
fn with_tick_interval_keeps_the_interval_as_given() {
    assert_eq!(SessionConfig::with_tick_interval(250).tick_interval_ms, 250);
    assert_eq!(SessionConfig::with_tick_interval(-5).tick_interval_ms, -5);
    assert_eq!(SessionConfig::with_tick_interval(250).pomodoro_duration, 15);
}

#[test]
fn validate_accepts_positive_parameters() {
    assert_eq!(usual().validate(), Ok(()));
    let smallest = SessionConfig {
        pomodoro_duration: 1,
        short_break: 1,
        long_break: 1,
        long_break_streak: 1,
        tick_interval_ms: 1,
    };
    assert_eq!(smallest.validate(), Ok(()));
    let largest = SessionConfig {
        pomodoro_duration: i32::MAX,
        short_break: i32::MAX,
        long_break: i32::MAX,
        long_break_streak: i32::MAX,
        tick_interval_ms: i64::MAX,
    };
    assert_eq!(largest.validate(), Ok(()));
}

#[test]
fn validate_rejects_zero_pomodoro_duration() {
    let config = SessionConfig { pomodoro_duration: 0, ..usual() };
    assert_eq!(config.validate(), Err(ConfigError::PomodoroDuration));
}

#[test]
fn validate_rejects_negative_pomodoro_duration() {
    let config = SessionConfig { pomodoro_duration: -15, ..usual() };
    assert_eq!(config.validate(), Err(ConfigError::PomodoroDuration));
}

#[test]
fn validate_rejects_non_positive_short_break() {
    let config = SessionConfig { short_break: 0, ..usual() };
    assert_eq!(config.validate(), Err(ConfigError::ShortBreak));
    let config = SessionConfig { short_break: -1, ..usual() };
    assert_eq!(config.validate(), Err(ConfigError::ShortBreak));
}

#[test]
fn validate_rejects_non_positive_long_break() {
    let config = SessionConfig { long_break: 0, ..usual() };
    assert_eq!(config.validate(), Err(ConfigError::LongBreak));
    let config = SessionConfig { long_break: i32::MIN, ..usual() };
    assert_eq!(config.validate(), Err(ConfigError::LongBreak));
}

#[test]
fn validate_rejects_non_positive_streak() {
    let config = SessionConfig { long_break_streak: 0, ..usual() };
    assert_eq!(config.validate(), Err(ConfigError::LongBreakStreak));
    let config = SessionConfig { long_break_streak: -4, ..usual() };
    assert_eq!(config.validate(), Err(ConfigError::LongBreakStreak));
}

#[test]
fn validate_rejects_non_positive_tick_interval() {
    assert_eq!(SessionConfig::with_tick_interval(0).validate(), Err(ConfigError::TickInterval));
    assert_eq!(SessionConfig::with_tick_interval(-1_000).validate(), Err(ConfigError::TickInterval));
    assert_eq!(
        SessionConfig::with_tick_interval(i64::MIN).validate(),
        Err(ConfigError::TickInterval)
    );
}

#[test]
fn validate_names_the_first_fault_in_field_order() {
    let all_wrong = SessionConfig {
        pomodoro_duration: 0,
        short_break: 0,
        long_break: 0,
        long_break_streak: 0,
        tick_interval_ms: 0,
    };
    assert_eq!(all_wrong.validate(), Err(ConfigError::PomodoroDuration));
    let from_short = SessionConfig { pomodoro_duration: 15, ..all_wrong };
    assert_eq!(from_short.validate(), Err(ConfigError::ShortBreak));
    let from_long = SessionConfig { short_break: 10, ..from_short };
    assert_eq!(from_long.validate(), Err(ConfigError::LongBreak));
    let from_streak = SessionConfig { long_break: 20, ..from_long };
    assert_eq!(from_streak.validate(), Err(ConfigError::LongBreakStreak));
    let from_tick = SessionConfig { long_break_streak: 4, ..from_streak };
    assert_eq!(from_tick.validate(), Err(ConfigError::TickInterval));
}

#[test]
fn config_error_messages_name_the_parameter() {
    assert_eq!(ConfigError::PomodoroDuration.message(), "the pomodoro duration must be positive");
    assert_eq!(ConfigError::ShortBreak.message(), "the short break must be positive");
    assert_eq!(ConfigError::LongBreak.message(), "the long break must be positive");
    assert_eq!(ConfigError::LongBreakStreak.message(), "the long break streak must be positive");
    assert_eq!(ConfigError::TickInterval.message(), "the tick interval must be positive");
}

#[test]
fn time_units() {
    assert_eq!(MS_PER_SECOND, 1_000);
    assert_eq!(MS_PER_MINUTE, 60_000);
}

#[test]
fn minutes_to_ms_multiplies_by_sixty_thousand() {
    assert_eq!(minutes_to_ms(0), 0);
    assert_eq!(minutes_to_ms(1), 60_000);
    assert_eq!(minutes_to_ms(15), 900_000);
    assert_eq!(minutes_to_ms(u32::MAX), 257_698_037_700_000);
}

#[test]
fn clock_face_splits_minutes_and_seconds() {
    assert_eq!(clock_face(0), ClockFace { minutes: 0, seconds: 0 });
    assert_eq!(clock_face(999), ClockFace { minutes: 0, seconds: 0 });
    assert_eq!(clock_face(1_000), ClockFace { minutes: 0, seconds: 1 });
    assert_eq!(clock_face(59_999), ClockFace { minutes: 0, seconds: 59 });
    assert_eq!(clock_face(60_000), ClockFace { minutes: 1, seconds: 0 });
    assert_eq!(clock_face(90_500), ClockFace { minutes: 1, seconds: 30 });
    assert_eq!(clock_face(900_000), ClockFace { minutes: 15, seconds: 0 });
}

#[test]
fn clock_face_of_the_longest_time() {
    let face = clock_face(u64::MAX);
    assert_eq!(face.minutes, u64::MAX / 60_000);
    assert_eq!(face.seconds, 51);
    assert!(face.seconds < 60);
}
