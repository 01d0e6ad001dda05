//! What holds of every session, proved of the model in [`crate::model`].

use vstd::prelude::*;
use vstd::arithmetic::div_mod::lemma_div_is_ordered;
use vstd::arithmetic::div_mod::lemma_fundamental_div_mod;
use vstd::arithmetic::div_mod::lemma_fundamental_div_mod_converse;
use vstd::arithmetic::div_mod::lemma_mod_pos_bound;
use crate::model::SessionError;
use crate::model::SessionModel;
use crate::model::TickEffect;
use crate::sampler::rate_milli;
use crate::sampler::sample_of;
use crate::sampler::Sample;
use crate::session::sampled_by;
use crate::words::counted;
use crate::words::words_in;

verus! {

/// A start leaves a well-formed session well-formed, whatever it answers.
pub proof fn lemma_start_keeps_well_formed(state: SessionModel, sampled: Option<nat>)
    requires
        state.wf(),
    ensures
        state.start(sampled).wf(),
        state.start_outcome(sampled) is Ok ==> state.start(sampled).phase is Working,
        state.start_outcome(sampled) is Err ==> state.start(sampled) == state,
{
}

/// A tick leaves a well-formed session well-formed, whatever it answers.
pub proof fn lemma_tick_keeps_well_formed(state: SessionModel, sampled: Option<nat>)
    requires
        state.wf(),
    ensures
        state.tick(sampled).wf(),
{
    if state.phase is Working && sampled is Some {
        lemma_div_is_ordered(
            state.elapsed_ms as int,
            state.elapsed_after_work() as int,
            state.config.pomodoro_ms(),
        );
    }
}

/// Every state that a well-formed session passes through on any sequence of
/// ticks is well-formed; in particular, in each of them the session is on
/// break if and only if some of the break is left.
pub proof fn lemma_run_keeps_well_formed(state: SessionModel, samples: Seq<Option<nat>>)
    requires
        state.wf(),
    ensures
        state.run(samples).wf(),
        state.run(samples).phase is OnBreak <==> state.run(samples).break_remaining_ms > 0,
        state.started() ==> state.run(samples).started(),
        state.run(samples).config == state.config,
        state.run(samples).elapsed_ms >= state.elapsed_ms,
    decreases samples.len(),
{
    if samples.len() > 0 {
        lemma_run_keeps_well_formed(state, samples.drop_last());
        lemma_tick_keeps_well_formed(state.run(samples.drop_last()), samples.last());
    }
}

/// The clock of a tick runs on one counter, chosen by the phase. At work,
/// with the file read, the time worked grows by the tick interval and the
/// break counter is not run down: it stays at zero, or is set to the length
/// of the break that begins. On break the time worked stays and the break
/// counter falls, by the tick interval or to zero.
pub proof fn lemma_tick_runs_one_clock(state: SessionModel, sampled: Option<nat>)
    requires
        state.wf(),
    ensures
        state.phase is Working && sampled is Some ==> {
            &&& state.tick(sampled).elapsed_ms == state.elapsed_ms + state.config.tick_interval_ms
            &&& state.tick(sampled).elapsed_ms > state.elapsed_ms
            &&& !state.completes_interval() ==> state.tick(sampled).break_remaining_ms
                == state.break_remaining_ms
            &&& state.completes_interval() ==> state.tick(sampled).break_remaining_ms
                == state.break_ms(state.next_break())
        },
        state.phase is OnBreak ==> {
            &&& state.tick(sampled).elapsed_ms == state.elapsed_ms
            &&& state.tick(sampled).break_remaining_ms < state.break_remaining_ms
            &&& state.tick(sampled).break_remaining_ms == state.break_after_rest()
        },
{
}

/// On a tick that neither fails to read the file nor begins a break, exactly
/// one of the two counters changes: the time worked at work, the time left
/// of the break on break.
pub proof fn lemma_tick_changes_one_counter(state: SessionModel, sampled: Option<nat>)
    requires
        state.wf(),
        state.tick_outcome(sampled) is Ok,
        !(state.tick_outcome(sampled) matches Ok(TickEffect::BreakStarted(_))),
    ensures
        (state.tick(sampled).elapsed_ms != state.elapsed_ms) != (state.tick(
            sampled,
        ).break_remaining_ms != state.break_remaining_ms),
        state.tick(sampled).elapsed_ms != state.elapsed_ms <==> state.phase is Working,
        state.tick(sampled).break_remaining_ms != state.break_remaining_ms <==> state.phase
            is OnBreak,
{
}

/// The same of every tick of a sequence: the tick at any place in it that
/// neither fails to read the file nor begins a break changes exactly one of
/// the two counters.
pub proof fn lemma_run_changes_one_counter_per_tick(
    state: SessionModel,
    samples: Seq<Option<nat>>,
    place: int,
)
    requires
        state.wf(),
        0 <= place < samples.len(),
        state.run(samples.take(place)).tick_outcome(samples[place]) is Ok,
        !(state.run(samples.take(place)).tick_outcome(samples[place]) matches Ok(
            TickEffect::BreakStarted(_),
        )),
    ensures
        state.run(samples.take(place + 1)) == state.run(samples.take(place)).tick(samples[place]),
        (state.run(samples.take(place + 1)).elapsed_ms != state.run(
            samples.take(place),
        ).elapsed_ms) != (state.run(samples.take(place + 1)).break_remaining_ms != state.run(
            samples.take(place),
        ).break_remaining_ms),
{
    let before = samples.take(place);
    let after = samples.take(place + 1);
    assert(after.drop_last() =~= before);
    assert(after.last() == samples[place]);
    lemma_run_keeps_well_formed(state, before);
    lemma_tick_changes_one_counter(state.run(before), samples[place]);
}

/// A measurement depends on nothing but the text, the baseline and the time
/// worked: taking it twice of the same text, with no tick in between and so
/// in the same state, gives the same number of words and the same pace.
pub proof fn lemma_sampling_twice_agrees(
    state: SessionModel,
    first: Option<&str>,
    second: Option<&str>,
)
    requires
        first == second,
    ensures
        sampled_by(state, counted(first)) == sampled_by(state, counted(second)),
        first matches Some(text) ==> sampled_by(state, counted(first)) == Ok::<
            Sample,
            SessionError,
        >(sample_of(words_in(text@), state.word_baseline, state.elapsed_ms)),
{
}

/// What a tick at work records is the measurement of the file at the new
/// time worked, the words written being those above the baseline; a session
/// that has worked no time has pace zero.
pub proof fn lemma_tick_records_measurement(state: SessionModel, total: nat)
    requires
        state.wf(),
        state.phase is Working,
    ensures
        state.tick(Some(total)).word_count == total - state.word_baseline,
        state.tick(Some(total)).words_per_minute_milli == rate_milli(
            total - state.word_baseline,
            state.tick(Some(total)).elapsed_ms,
        ),
        state.tick(Some(total)).word_baseline == state.word_baseline,
        state.elapsed_ms == 0 ==> state.words_per_minute_milli == 0,
{
}

/// A tick at work on which the file cannot be read answers with the error
/// and changes nothing, and the tick after it goes as if the failed one had
/// not been.
pub proof fn lemma_failed_read_changes_nothing(state: SessionModel, next: Option<nat>)
    requires
        state.phase is Working,
    ensures
        state.tick_outcome(None) == Err::<TickEffect, SessionError>(SessionError::Io),
        state.tick(None) == state,
        state.tick(None).tick(next) == state.tick(next),
        state.tick(None).tick_outcome(next) == state.tick_outcome(next),
{
}

/// A break begins exactly on the ticks at work that carry the time worked
/// onto or over a whole number of work intervals.
pub proof fn lemma_break_begins_at_boundary(state: SessionModel)
    requires
        state.wf(),
        state.phase is Working,
    ensures
        state.completes_interval() <==> exists|intervals: int|
            #![trigger intervals * state.config.pomodoro_ms()]
            state.elapsed_ms < intervals * state.config.pomodoro_ms()
                <= state.elapsed_after_work(),
{
    let length = state.config.pomodoro_ms();
    let before = state.elapsed_ms as int;
    let after = state.elapsed_after_work() as int;
    lemma_fundamental_div_mod(before, length);
    lemma_fundamental_div_mod(after, length);
    lemma_mod_pos_bound(before, length);
    lemma_mod_pos_bound(after, length);
    if state.completes_interval() {
        let reached = after / length;
        assert(before < reached * length <= after) by (nonlinear_arith)
            requires
                length > 0,
                before == length * (before / length) + before % length,
                after == length * (after / length) + after % length,
                0 <= before % length < length,
                0 <= after % length < length,
                reached == after / length,
                reached > before / length,
        ;
    }
    if exists|intervals: int|
        #![trigger intervals * state.config.pomodoro_ms()]
        before < intervals * length <= after {
        let intervals = choose|intervals: int|
            #![trigger intervals * state.config.pomodoro_ms()]
            before < intervals * length <= after;
        assert(before / length < intervals <= after / length) by (nonlinear_arith)
            requires
                length > 0,
                before == length * (before / length) + before % length,
                after == length * (after / length) + after % length,
                0 <= before % length < length,
                0 <= after % length < length,
                before < intervals * length <= after,
        ;
    }
}

/// With ticks no longer than a work interval, a tick completes at most one
/// work interval, so that each gets a break of its own.
pub proof fn lemma_one_interval_per_tick(state: SessionModel, total: nat)
    requires
        state.wf(),
        state.phase is Working,
        state.config.tick_interval_ms <= state.config.pomodoro_ms(),
    ensures
        state.completes_interval() ==> state.tick(Some(total)).completed_intervals
            == state.completed_intervals + 1,
        !state.completes_interval() ==> state.tick(Some(total)).completed_intervals
            == state.completed_intervals,
{
    let length = state.config.pomodoro_ms();
    let before = state.elapsed_ms as int;
    let after = state.elapsed_after_work() as int;
    lemma_fundamental_div_mod(before, length);
    lemma_fundamental_div_mod(after, length);
    lemma_mod_pos_bound(before, length);
    lemma_mod_pos_bound(after, length);
    lemma_div_is_ordered(before, after, length);
    assert(after / length <= before / length + 1) by (nonlinear_arith)
        requires
            length > 0,
            before == length * (before / length) + before % length,
            after == length * (after / length) + after % length,
            0 <= before % length < length,
            0 <= after % length < length,
            after <= before + length,
    ;
}

/// The breaks come in a fixed rhythm: the break that begins is a long one
/// exactly when the work interval just completed fills the streak, which
/// then starts anew; after a short one the streak is one longer.
pub proof fn lemma_streak_sets_break(state: SessionModel, total: nat)
    requires
        state.wf(),
        state.phase is Working,
        state.completes_interval(),
    ensures
        state.tick_outcome(Some(total)) == Ok::<TickEffect, SessionError>(
            TickEffect::BreakStarted(state.next_break()),
        ),
        state.next_break() is Long <==> state.streak + 1 == state.config.long_break_streak,
        state.next_break() is Long ==> {
            &&& state.tick(Some(total)).streak == 0
            &&& state.tick(Some(total)).break_remaining_ms == state.config.long_break_ms()
        },
        state.next_break() is Short ==> {
            &&& state.tick(Some(total)).streak == state.streak + 1
            &&& state.tick(Some(total)).break_remaining_ms == state.config.short_break_ms()
        },
        state.tick(Some(total)).phase is OnBreak,
{
}

/// Counting up by one below a bound, and starting anew at the bound, is
/// counting modulo the bound.
proof fn lemma_count_around(count: int, bound: int)
    requires
        count >= 0,
        bound > 0,
    ensures
        (count + 1) % bound == if count % bound + 1 >= bound {
            0
        } else {
            count % bound + 1
        },
{
    lemma_fundamental_div_mod(count, bound);
    lemma_mod_pos_bound(count, bound);
    let whole = count / bound;
    let rest = count % bound;
    if rest + 1 >= bound {
        assert(count + 1 == (whole + 1) * bound + 0) by (nonlinear_arith)
            requires
                count == bound * whole + rest,
                rest + 1 == bound,
        ;
        lemma_fundamental_div_mod_converse(count + 1, bound, whole + 1, 0);
    } else {
        assert(count + 1 == whole * bound + (rest + 1)) by (nonlinear_arith)
            requires
                count == bound * whole + rest,
        ;
        lemma_fundamental_div_mod_converse(count + 1, bound, whole, rest + 1);
    }
}

/// Over any sequence of ticks the streak counts the breaks begun, modulo the
/// number of work intervals from one long break to the next. So the break
/// that begins on the tick after the sequence is a long one exactly when,
/// counted from a streak of zero, it is the next whose number that modulus
/// divides: with a modulus of four the fourth, the eighth and so on, and
/// every break between them is a short one.
pub proof fn lemma_streak_counts_breaks(state: SessionModel, samples: Seq<Option<nat>>)
    requires
        state.wf(),
        state.started(),
    ensures
        state.run(samples).streak == (state.streak + state.breaks_begun(samples)) as int
            % state.config.long_break_streak as int,
        state.run(samples).next_break() is Long <==> (state.streak + state.breaks_begun(samples)
            + 1) as int % state.config.long_break_streak as int == 0,
    decreases samples.len(),
{
    let bound = state.config.long_break_streak as int;
    lemma_run_keeps_well_formed(state, samples);
    if samples.len() == 0 {
        lemma_fundamental_div_mod_converse(state.streak as int, bound, 0, state.streak as int);
    } else {
        let earlier = samples.drop_last();
        lemma_streak_counts_breaks(state, earlier);
        lemma_run_keeps_well_formed(state, earlier);
        lemma_count_around((state.streak + state.breaks_begun(earlier)) as int, bound);
    }
    lemma_count_around((state.streak + state.breaks_begun(samples)) as int, bound);
}

/// With ticks no longer than a work interval, over any sequence of ticks
/// there begin exactly as many breaks as work intervals are completed: none
/// goes without its break, and none gets two.
pub proof fn lemma_one_break_per_interval(state: SessionModel, samples: Seq<Option<nat>>)
    requires
        state.wf(),
        state.started(),
        state.config.tick_interval_ms <= state.config.pomodoro_ms(),
    ensures
        state.run(samples).completed_intervals == state.completed_intervals
            + state.breaks_begun(samples),
        state.run(samples).completed_intervals == state.run(samples).elapsed_ms as int
            / state.config.pomodoro_ms(),
    decreases samples.len(),
{
    lemma_run_keeps_well_formed(state, samples);
    if samples.len() > 0 {
        let earlier = samples.drop_last();
        lemma_one_break_per_interval(state, earlier);
        lemma_run_keeps_well_formed(state, earlier);
        let before = state.run(earlier);
        if before.phase is Working && samples.last() is Some {
            lemma_one_interval_per_tick(before, samples.last()->0);
        }
    }
}

} // verus!
