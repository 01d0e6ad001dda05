use wpm_watcher::sampler::sample;
use wpm_watcher::sampler::sample_count;
use wpm_watcher::sampler::Sample;
use wpm_watcher::sampler::RATE_SCALE;
use wpm_watcher::words::count_reading;
use wpm_watcher::words::count_words;

#[test]
fn count_words_counts_runs_between_whitespace() {
    assert_eq!(count_words("one two three"), 3);
    assert_eq!(count_words("  leading and trailing  "), 3);
    assert_eq!(count_words("a\nb\tc d"), 4);
}

#[test]
fn count_words_of_nothing_is_zero() {
    assert_eq!(count_words(""), 0);
    assert_eq!(count_words(" \n\t "), 0);
}

#[test]
fn count_words_is_not_the_length_of_the_text() {
    let text = "seven letters";
    assert_eq!(text.len(), 13);
    assert_eq!(count_words(text), 2);
}

#[test]
fn count_words_splits_at_double_dashes() {
    assert_eq!(count_words("well-known"), 1);
    assert_eq!(count_words("well--known"), 2);
}

#[test]
fn count_words_counts_each_cjk_character() {
    assert_eq!(count_words("\u{4e2d}\u{6587}"), 2);
    assert_eq!(count_words("Rust\u{662f}\u{7531} Mozilla"), 4);
}

#[test]
fn count_reading_counts_a_text_and_passes_a_failure_on() {
    assert_eq!(count_reading(Some("one two")), Some(2));
    assert_eq!(count_reading(Some("")), Some(0));
    assert_eq!(count_reading(None), None);
}

#[test]
fn rate_scale_is_thousandths_per_minute_of_a_word_per_millisecond() {
    assert_eq!(RATE_SCALE, 60_000_000);
}

#[test]
fn sample_count_of_ten_words_in_a_minute() {
    let measured = sample_count(10, 0, 60_000);
    assert_eq!(measured, Sample { word_count: 10, words_per_minute_milli: 10_000 });
}

#[test]
fn sample_count_subtracts_the_baseline() {
    let measured = sample_count(130, 100, 120_000);
    assert_eq!(measured.word_count, 30);
    assert_eq!(measured.words_per_minute_milli, 15_000);
}

#[test]
fn sample_count_before_any_time_has_pace_zero() {
    assert_eq!(sample_count(42, 0, 0), Sample { word_count: 42, words_per_minute_milli: 0 });
    assert_eq!(sample_count(0, 42, 0), Sample { word_count: -42, words_per_minute_milli: 0 });
}

#[test]
fn sample_count_of_a_shrunken_file_is_negative() {
    let measured = sample_count(7, 10, 60_000);
    assert_eq!(measured.word_count, -3);
    assert_eq!(measured.words_per_minute_milli, -3_000);
}

#[test]
fn sample_count_rounds_the_pace_down() {
    // 1 word in 7 s is 8571.43 thousandths of a word per minute.
    assert_eq!(sample_count(1, 0, 7_000).words_per_minute_milli, 8_571);
    assert_eq!(sample_count(0, 1, 7_000).words_per_minute_milli, -8_572);
    // An exact quotient is kept on both sides of zero.
    assert_eq!(sample_count(1, 0, 6_000).words_per_minute_milli, 10_000);
    assert_eq!(sample_count(0, 1, 6_000).words_per_minute_milli, -10_000);
}

#[test]
fn sample_count_at_the_ends_of_the_range() {
    let most = sample_count(u64::MAX, 0, 1);
    assert_eq!(most.word_count, u64::MAX as i128);
    assert_eq!(most.words_per_minute_milli, u64::MAX as i128 * 60_000_000);
    let least = sample_count(0, u64::MAX, 1);
    assert_eq!(least.word_count, -(u64::MAX as i128));
    assert_eq!(least.words_per_minute_milli, -(u64::MAX as i128) * 60_000_000);
    let slow = sample_count(1, 0, u64::MAX);
    assert_eq!(slow.words_per_minute_milli, 0);
    let slow_loss = sample_count(0, 1, u64::MAX);
    assert_eq!(slow_loss.words_per_minute_milli, -1);
}

#[test]
fn sample_counts_the_words_of_the_text() {
    let measured = sample("a b c d", 1, 120_000);
    assert_eq!(measured, Sample { word_count: 3, words_per_minute_milli: 1_500 });
}

#[test]
fn sampling_the_same_text_twice_gives_the_same_measurement() {
    let text = "the quick brown fox jumps over the lazy dog";
    let first = sample(text, 4, 90_000);
    let second = sample(text, 4, 90_000);
    assert_eq!(first, second);
    assert_eq!(first.word_count, 5);
    assert_eq!(first.words_per_minute_milli, 3_333);
}
