//! The word-rate sampler: from the number of words in the watched file, the
//! number it held when the session began and the time worked so far, the
//! words written and the pace of writing.

use vstd::prelude::*;
use vstd::arithmetic::div_mod::lemma_fundamental_div_mod_converse;
use crate::words::count_words;
use crate::words::words_in;

verus! {

/// Thousandths of a word per minute that one word per millisecond amounts to.
pub const RATE_SCALE: i128 = 60_000_000;

/// The pace of writing in thousandths of a word per minute: `words` words in
/// `elapsed_ms` milliseconds, rounded down. Before any time has passed the
/// pace is zero.
pub open spec fn rate_milli(words: int, elapsed_ms: nat) -> int {
    if elapsed_ms == 0 {
        0
    } else {
        (words * 60_000_000) / (elapsed_ms as int)
    }
}

/// One measurement of the writer's progress.
#[derive(Clone, Copy, Debug, PartialEq, Eq, Structural)]
pub struct Sample {
    /// Words written since the session began; negative if the file has
    /// shrunk below what it held then.
    pub word_count: i128,
    /// The pace of writing, in thousandths of a word per minute.
    pub words_per_minute_milli: i128,
}

/// The measurement that belongs to a file of `total` words, of which
/// `baseline` were there when the session began, after `elapsed_ms`
/// milliseconds of work.
pub open spec fn sample_of(total: nat, baseline: nat, elapsed_ms: nat) -> Sample {
    Sample {
        word_count: (total - baseline) as i128,
        words_per_minute_milli: rate_milli(total - baseline, elapsed_ms) as i128,
    }
}

/// The quotient of `scaled` by `span`, rounded down also where `scaled` is
/// negative.
fn floor_div(scaled: i128, span: i128) -> (quotient: i128)
    requires
        span > 0,
        scaled > i128::MIN,
    ensures
        quotient == scaled as int / span as int,
{
    if scaled >= 0 {
        scaled / span
    } else {
        let size: i128 = -scaled;
        let whole: i128 = size / span;
        let rest: i128 = size % span;
        assert(size == span * whole + rest && 0 <= rest < span) by (nonlinear_arith)
            requires
                span > 0,
                size >= 0,
                whole == size as int / span as int,
                rest == size as int % span as int,
        ;
        if rest == 0 {
            proof {
                assert(scaled == (-whole) * span + 0) by (nonlinear_arith)
                    requires
                        scaled == -size,
                        size == span * whole + rest,
                        rest == 0,
                ;
                lemma_fundamental_div_mod_converse(scaled as int, span as int, -whole, 0);
            }
            -whole
        } else {
            proof {
                assert(scaled == (-whole - 1) * span + (span - rest)) by (nonlinear_arith)
                    requires
                        scaled == -size,
                        size == span * whole + rest,
                ;
                lemma_fundamental_div_mod_converse(
                    scaled as int,
                    span as int,
                    -whole - 1,
                    span - rest,
                );
            }
            -whole - 1
        }
    }
}

/// The pace at which `words` words were written in `elapsed_ms` milliseconds.
fn words_per_minute_milli(words: i128, elapsed_ms: u64) -> (rate: i128)
    requires
        -0x1_0000_0000_0000_0000 < words < 0x1_0000_0000_0000_0000,
    ensures
        rate == rate_milli(words as int, elapsed_ms as nat),
{
    if elapsed_ms == 0 {
        0
    } else {
        floor_div(words * RATE_SCALE, elapsed_ms as i128)
    }
}

/// Measures progress from the number of words that the file holds now.
pub fn sample_count(total: u64, baseline: u64, elapsed_ms: u64) -> (sample: Sample)
    ensures
        sample == sample_of(total as nat, baseline as nat, elapsed_ms as nat),
        sample.word_count == total - baseline,
        sample.words_per_minute_milli == rate_milli(total - baseline, elapsed_ms as nat),
{
    let word_count: i128 = total as i128 - baseline as i128;
    let rate: i128 = words_per_minute_milli(word_count, elapsed_ms);
    proof {
        lemma_rate_bounds(word_count as int, elapsed_ms as nat);
    }
    Sample { word_count, words_per_minute_milli: rate }
}

/// Measures progress from the text of the file: counts its words, then
/// measures as [`sample_count`] does.
pub fn sample(text: &str, baseline: u64, elapsed_ms: u64) -> (sample: Sample)
    ensures
        sample == sample_of(words_in(text@), baseline as nat, elapsed_ms as nat),
{
    sample_count(count_words(text), baseline, elapsed_ms)
}

/// The pace is the quotient of the words by the minutes, in thousandths and
/// rounded down: kept up for the time worked it gives no more than the words
/// written, and one thousandth more would give more.
pub proof fn lemma_rate_rounds_down(words: int, elapsed_ms: nat)
    requires
        elapsed_ms > 0,
    ensures
        rate_milli(words, elapsed_ms) * elapsed_ms <= words * 60_000_000 < (rate_milli(
            words,
            elapsed_ms,
        ) + 1) * elapsed_ms,
{
    let scaled = words * 60_000_000;
    let span = elapsed_ms as int;
    assert(scaled == span * (scaled / span) + scaled % span && 0 <= scaled % span < span)
        by (nonlinear_arith)
        requires
            span > 0,
    ;
    assert((scaled / span) * span <= scaled < (scaled / span + 1) * span) by (nonlinear_arith)
        requires
            scaled == span * (scaled / span) + scaled % span,
            0 <= scaled % span < span,
    ;
}

/// The pace lies between zero and the number of words scaled, on the side of
/// zero on which the number of words lies.
pub proof fn lemma_rate_bounds(words: int, elapsed_ms: nat)
    ensures
        words >= 0 ==> 0 <= rate_milli(words, elapsed_ms) <= words * 60_000_000,
        words <= 0 ==> words * 60_000_000 <= rate_milli(words, elapsed_ms) <= 0,
{
    if elapsed_ms > 0 {
        lemma_rate_rounds_down(words, elapsed_ms);
        let scaled = words * 60_000_000;
        let span = elapsed_ms as int;
        let rate = rate_milli(words, elapsed_ms);
        assert(scaled >= 0 ==> 0 <= rate <= scaled) by (nonlinear_arith)
            requires
                span > 0,
                rate * span <= scaled < (rate + 1) * span,
        ;
        assert(scaled <= 0 ==> scaled <= rate <= 0) by (nonlinear_arith)
            requires
                span > 0,
                rate * span <= scaled < (rate + 1) * span,
        ;
    }
}

} // verus!
