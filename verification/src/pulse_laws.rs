//! What holds of every pulse, whatever was published before it.

use vstd::prelude::*;

#[allow(unused_imports)]
use crate::bits::{
    has_bit, lemma_bit_within, lemma_combined_words_stay_within, lemma_empty_and_full_words,
    lemma_empty_word_is_neutral, lemma_word_of_bit, lemma_word_of_none, lemma_word_of_within,
    lemma_xor_bit, word_of, wrapping_next,
};
#[allow(unused_imports)]
use crate::pulse::{
    is_live, live_word, request_bits, request_duration, timed_request, OutputBoardView,
    PulseEngineView, ScheduledPulseView, TimedPulseState, TIMED_PULSE_INVERT_BASELINE_BIT,
};

verus! {

/// A packed request gives back the mask, the duration and the inversion flag it was made of.
pub proof fn law_timed_request_round_trips(mask: u32, duration: u32, invert: bool)
    requires
        mask & TIMED_PULSE_INVERT_BASELINE_BIT == 0,
    ensures
        request_duration(timed_request(mask, duration, invert)) == duration,
        request_bits(timed_request(mask, duration, invert)) & !TIMED_PULSE_INVERT_BASELINE_BIT
            == mask,
        (request_bits(timed_request(mask, duration, invert)) & TIMED_PULSE_INVERT_BASELINE_BIT
            != 0) == invert,
{
    let flag: u64 = if invert {
        0x8000_0000u64
    } else {
        0u64
    };
    let request = ((duration as u64) << 32) | (mask as u64) | flag;
    assert((request >> 32) as u32 == duration && (request as u32) & !0x8000_0000u32 == mask && (((
    request as u32) & 0x8000_0000u32 != 0) == (flag == 0x8000_0000u64))) by (bit_vector)
        requires
            request == ((duration as u64) << 32) | (mask as u64) | flag,
            flag == 0x8000_0000u64 || flag == 0u64,
            mask & 0x8000_0000u32 == 0,
    ;
}

/// A newly observed pulse shapes the baseline until its deadline, and from then on the
/// baseline stands alone.
///
/// An inverting pulse flips its bits; any other pulse raises them.
pub proof fn law_timed_pulse_lasts_until_its_deadline(
    state: TimedPulseState,
    now: u64,
    generation: u64,
    mask: u32,
    duration: u32,
    invert: bool,
    baseline: u32,
    later: u64,
)
    requires
        generation != state.observed_generation,
        duration != 0,
        mask & TIMED_PULSE_INVERT_BASELINE_BIT == 0,
    ensures
        ({
            let pulsing = state.observed(now, generation, timed_request(mask, duration, invert));
            pulsing.output(baseline, later) == (if later >= now + duration * 1_000_000 {
                baseline
            } else if invert {
                baseline ^ mask
            } else {
                baseline | mask
            })
        }),
{
    law_timed_request_round_trips(mask, duration, invert);
    lemma_empty_word_is_neutral(baseline);
}

/// Looking again at a request that was already observed does not restart its deadline.
pub proof fn law_timed_request_is_observed_once(
    state: TimedPulseState,
    now: u64,
    later: u64,
    generation: u64,
    request: u64,
    other_request: u64,
)
    ensures
        state.observed(now, generation, request).observed(later, generation, other_request)
            == state.observed(now, generation, request),
{
}

/// Looking again at schedules that were already observed does not restart any deadline.
pub proof fn law_schedules_are_observed_once(
    state: ScheduledPulseView,
    now: u64,
    later: u64,
    durations: Seq<u32>,
    other_durations: Seq<u32>,
    generations: Seq<u64>,
)
    requires
        generations.len() == 32,
    ensures
        state.observed(now, durations, generations).observed(later, other_durations, generations)
            == state.observed(now, durations, generations),
{
    assert(state.observed(now, durations, generations).observed(
        later,
        other_durations,
        generations,
    ) =~= state.observed(now, durations, generations));
}

/// Every output bit follows its own deadline and the baseline, and nothing else.
pub proof fn law_scheduled_bits_are_independent(
    state: ScheduledPulseView,
    baseline: u32,
    now: u64,
    bit: int,
)
    requires
        0 <= bit < 32,
    ensures
        has_bit(state.output(baseline, now), bit) == (has_bit(baseline, bit) != is_live(
            state.deadlines[bit],
            now,
        )),
{
    let live = |index: int| is_live(state.deadlines[index], now);
    lemma_word_of_bit(live, 32, bit);
    lemma_xor_bit(baseline, live_word(state.deadlines, now), bit as u32);
}

/// Dropping expired deadlines changes no output, now or later.
pub proof fn law_expiry_is_final(state: ScheduledPulseView, baseline: u32, now: u64, later: u64)
    requires
        now <= later,
    ensures
        state.expired(now).output(baseline, later) == state.output(baseline, later),
{
    lemma_same_word(
        |bit: int| is_live(state.expired(now).deadlines[bit], later),
        |bit: int| is_live(state.deadlines[bit], later),
        32,
    );
}

/// Words that select the same bits are the same word.
proof fn lemma_same_word(left: spec_fn(int) -> bool, right: spec_fn(int) -> bool, count: nat)
    requires
        forall|bit: int| 0 <= bit < count ==> #[trigger] left(bit) == right(bit),
    ensures
        word_of(left, count) == word_of(right, count),
    decreases count,
{
    if count > 0 {
        assert(left(count - 1) == right(count - 1));
        lemma_same_word(left, right, (count - 1) as nat);
    }
}

/// Whether the service owner has seen every scheduled publication on the board.
pub open spec fn in_step(state: ScheduledPulseView, board: OutputBoardView) -> bool {
    state.observed_generations == board.generations
}

/// Schedules for different bits that arrive before one service cycle are both kept: each bit
/// starts its own deadline, and bits of neither request keep the deadline they had.
pub proof fn law_disjoint_schedules_are_retained(
    state: ScheduledPulseView,
    board: OutputBoardView,
    first: u32,
    first_duration: u32,
    second: u32,
    second_duration: u32,
    now: u64,
    bit: int,
)
    requires
        in_step(state, board),
        first & second == 0,
        first_duration != 0,
        second_duration != 0,
        0 <= bit < 32,
    ensures
        ({
            let published = board.with_schedule(first, 0, first_duration).with_schedule(
                second,
                0,
                second_duration,
            );
            state.observed(now, published.durations, published.generations).deadlines[bit] == (
            if has_bit(first, bit) {
                Some((now + first_duration * 1_000_000) as u128)
            } else if has_bit(second, bit) {
                Some((now + second_duration * 1_000_000) as u128)
            } else {
                state.deadlines[bit]
            })
        }),
{
    lemma_empty_and_full_words(bit);
    let position = bit as u32;
    assert(!((first >> position) & 1 == 1 && (second >> position) & 1 == 1)) by (bit_vector)
        requires
            first & second == 0,
    ;
}

/// A later schedule for a bit replaces the deadline that an earlier one asked for.
pub proof fn law_later_schedule_replaces_the_deadline(
    state: ScheduledPulseView,
    board: OutputBoardView,
    first: u32,
    first_duration: u32,
    second: u32,
    second_duration: u32,
    now: u64,
    bit: int,
)
    requires
        in_step(state, board),
        second_duration != 0,
        has_bit(second, bit),
    ensures
        ({
            let published = board.with_schedule(first, 0, first_duration).with_schedule(
                second,
                0,
                second_duration,
            );
            state.observed(now, published.durations, published.generations).deadlines[bit]
                == Some((now + second_duration * 1_000_000) as u128)
        }),
{
}

/// A cancellation ends the inversion of the selected bits and of no other bit.
pub proof fn law_cancellation_is_selective(
    state: ScheduledPulseView,
    board: OutputBoardView,
    cancel: u32,
    now: u64,
    bit: int,
)
    requires
        in_step(state, board),
        0 <= bit < 32,
    ensures
        ({
            let published = board.with_schedule(0, cancel, 0);
            state.observed(now, published.durations, published.generations).deadlines[bit] == (
            if has_bit(cancel, bit) {
                None
            } else {
                state.deadlines[bit]
            })
        }),
{
    lemma_empty_and_full_words(bit);
}

/// A board on which nothing pulses shows its persistent output, whenever it is looked at.
pub proof fn law_quiet_board_shows_its_output(desired_outputs: u32, now: u64)
    ensures
        ({
            let board = OutputBoardView::quiet(desired_outputs);
            &&& PulseEngineView::idle().effective(board, now) == desired_outputs
            &&& board.desired_outputs == desired_outputs
            &&& board.pulse_generation == 0
            &&& forall|bit: int| 0 <= bit < 32 ==> #[trigger] board.generations[bit] == 0
            &&& forall|bit: int| 0 <= bit < 32 ==> #[trigger] board.durations[bit] == 0
        }),
{
    let board = OutputBoardView::quiet(desired_outputs);
    let seen = PulseEngineView::idle().observed(board, now);
    let live = |bit: int| is_live(seen.scheduled.deadlines[bit], now);
    lemma_empty_word_is_neutral(desired_outputs);
    lemma_word_of_none(live, 32);
}

/// Publishing another persistent output while pulses run changes the baseline and no pulse: the
/// running pulses act on the new baseline as they did on the old one.
pub proof fn law_new_baseline_keeps_running_pulses(
    engine: PulseEngineView,
    board: OutputBoardView,
    desired_outputs: u32,
    now: u64,
    later: u64,
)
    requires
        now <= later,
        board.generations.len() == 32,
    ensures
        ({
            let seen = engine.observed(board, now);
            engine.serviced(board, now).effective(board.with_outputs(desired_outputs), later)
                == seen.scheduled.output(seen.timed.output(desired_outputs, later), later)
        }),
        board.with_outputs(desired_outputs).desired_outputs == desired_outputs,
{
    let replaced = board.with_outputs(desired_outputs);
    law_serviced_pulses_keep_their_effect(engine, replaced, now, later);
}

/// Timed pulses and scheduled ones leave each other and the baseline alone.
pub proof fn law_publications_leave_each_other_alone(
    board: OutputBoardView,
    mask: u32,
    duration: u32,
    invert: bool,
    schedule: u32,
    cancel: u32,
)
    ensures
        ({
            let pulsed = board.with_pulse(mask, duration, invert);
            &&& pulsed.desired_outputs == board.desired_outputs
            &&& pulsed.durations == board.durations
            &&& pulsed.generations == board.generations
            &&& pulsed.pulse_generation == (board.pulse_generation + 1) % 0x1_0000_0000_0000_0000
        }),
        ({
            let scheduled = board.with_schedule(schedule, cancel, duration);
            &&& scheduled.desired_outputs == board.desired_outputs
            &&& scheduled.pulse_request == board.pulse_request
            &&& scheduled.pulse_generation == board.pulse_generation
        }),
{
}

/// Whether the next publication of every kind will be noticed by the service owner.
///
/// Only a publisher that runs a whole generation counter ahead of the service owner breaks this.
pub open spec fn notices_next_publication(engine: PulseEngineView, board: OutputBoardView) -> bool {
    &&& wrapping_next(board.pulse_generation) != engine.timed.observed_generation
    &&& forall|bit: int|
        0 <= bit < 32 ==> wrapping_next(#[trigger] board.generations[bit])
            != engine.scheduled.observed_generations[bit]
}

/// Cancelling every pulse puts the persistent baseline back in effect at once.
pub proof fn law_cancelling_all_pulses_restores_the_baseline(
    engine: PulseEngineView,
    board: OutputBoardView,
    now: u64,
)
    requires
        notices_next_publication(engine, board),
    ensures
        engine.effective(board.with_pulses_cancelled(), now) == board.desired_outputs,
{
    let cancelled = board.with_pulses_cancelled();
    let seen = engine.observed(cancelled, now);
    let desired = board.desired_outputs;
    lemma_empty_word_is_neutral(TIMED_PULSE_INVERT_BASELINE_BIT);
    law_timed_request_round_trips(0, 0, false);
    lemma_empty_word_is_neutral(desired);
    let live = |bit: int| is_live(seen.scheduled.deadlines[bit], now);
    assert forall|bit: int| 0 <= bit < 32 implies !#[trigger] live(bit) by {
        lemma_empty_and_full_words(bit);
        assert(wrapping_next(board.generations[bit])
            != engine.scheduled.observed_generations[bit]);
        assert(cancelled.generations[bit] == wrapping_next(board.generations[bit]));
    }
    lemma_word_of_none(live, 32);
}

/// When every deadline has passed, the output is the persistent baseline again.
pub proof fn law_expired_pulses_restore_the_baseline(
    engine: PulseEngineView,
    board: OutputBoardView,
    now: u64,
    later: u64,
)
    requires
        engine.timed.well_formed(),
        engine.serviced(board, now).timed.pulse_deadline matches Some(deadline) ==> later
            >= deadline,
        forall|bit: int|
            0 <= bit < 32 ==> !is_live(
                #[trigger] engine.serviced(board, now).scheduled.deadlines[bit],
                later,
            ),
        board.generations.len() == 32,
    ensures
        engine.serviced(board, now).effective(board, later) == board.desired_outputs,
{
    let next = engine.serviced(board, now);
    let desired = board.desired_outputs;
    lemma_empty_word_is_neutral(desired);
    let seen = next.observed(board, later);
    let live = |bit: int| is_live(seen.scheduled.deadlines[bit], later);
    assert forall|bit: int| 0 <= bit < 32 implies !#[trigger] live(bit) by {
        assert(!is_live(next.scheduled.deadlines[bit], later));
    }
    lemma_word_of_none(live, 32);
}

/// Between two service cycles without a publication, pulses go on and end as they were first
/// observed.
pub proof fn law_serviced_pulses_keep_their_effect(
    engine: PulseEngineView,
    board: OutputBoardView,
    now: u64,
    later: u64,
)
    requires
        now <= later,
        board.generations.len() == 32,
    ensures
        ({
            let seen = engine.observed(board, now);
            engine.serviced(board, now).effective(board, later) == seen.scheduled.output(
                seen.timed.output(board.desired_outputs, later),
                later,
            )
        }),
{
    let seen = engine.observed(board, now);
    let next = engine.serviced(board, now);
    let baseline = seen.timed.output(board.desired_outputs, later);
    assert(next.observed(board, later).scheduled =~= next.scheduled);
    law_expiry_is_final(seen.scheduled, baseline, now, later);
}

/// A published pulse shapes the persistent baseline from the service cycle that observes it until
/// its deadline, and the baseline is back from that instant on.
///
/// An inverting pulse flips its bits, whatever the baseline; any other pulse raises them.
pub proof fn law_pulse_shapes_and_restores_the_baseline(
    engine: PulseEngineView,
    board: OutputBoardView,
    mask: u32,
    duration: u32,
    invert: bool,
    now: u64,
    later: u64,
)
    requires
        now <= later,
        duration != 0,
        mask & TIMED_PULSE_INVERT_BASELINE_BIT == 0,
        wrapping_next(board.pulse_generation) != engine.timed.observed_generation,
        in_step(engine.scheduled, board),
        board.generations.len() == 32,
        forall|bit: int| 0 <= bit < 32 ==> #[trigger] engine.scheduled.deadlines[bit] is None,
    ensures
        ({
            let published = board.with_pulse(mask, duration, invert);
            engine.serviced(published, now).effective(published, later) == (if later
                >= now + duration * 1_000_000 {
                board.desired_outputs
            } else if invert {
                board.desired_outputs ^ mask
            } else {
                board.desired_outputs | mask
            })
        }),
{
    let published = board.with_pulse(mask, duration, invert);
    law_serviced_pulses_keep_their_effect(engine, published, now, later);
    law_timed_pulse_lasts_until_its_deadline(
        engine.timed,
        now,
        published.pulse_generation,
        mask,
        duration,
        invert,
        board.desired_outputs,
        later,
    );
    let seen = engine.observed(published, now);
    let live = |bit: int| is_live(seen.scheduled.deadlines[bit], later);
    assert forall|bit: int| 0 <= bit < 32 implies !#[trigger] live(bit) by {
        assert(engine.scheduled.deadlines[bit] is None);
    }
    lemma_word_of_none(live, 32);
    lemma_empty_word_is_neutral(seen.timed.output(board.desired_outputs, later));
}

/// A scheduled bit inverts the persistent baseline from the service cycle that observes it until
/// its deadline, and the baseline is back from that instant on; an idle bit that was not scheduled
/// follows the baseline throughout.
pub proof fn law_scheduled_pulse_inverts_and_restores_the_baseline(
    engine: PulseEngineView,
    board: OutputBoardView,
    schedule: u32,
    duration: u32,
    now: u64,
    later: u64,
    bit: int,
)
    requires
        now <= later,
        duration != 0,
        0 <= bit < 32,
        in_step(engine.scheduled, board),
        engine.timed == TimedPulseState::idle(board.pulse_generation),
        has_bit(schedule, bit) || engine.scheduled.deadlines[bit] is None,
    ensures
        ({
            let published = board.with_schedule(schedule, 0, duration);
            let output = engine.serviced(published, now).effective(published, later);
            let inverted = has_bit(schedule, bit) && later < now + duration * 1_000_000;
            has_bit(output, bit) == (has_bit(board.desired_outputs, bit) != inverted)
        }),
{
    let published = board.with_schedule(schedule, 0, duration);
    let seen = engine.observed(published, now);
    law_serviced_pulses_keep_their_effect(engine, published, now, later);
    lemma_empty_word_is_neutral(board.desired_outputs);
    lemma_empty_and_full_words(bit);
    law_scheduled_bits_are_independent(seen.scheduled, board.desired_outputs, later, bit);
}

/// Whether everything on the board asks only for bits of `allowed`.
pub open spec fn board_within(board: OutputBoardView, allowed: u32) -> bool {
    &&& board.desired_outputs & !allowed == 0
    &&& request_bits(board.pulse_request) & !TIMED_PULSE_INVERT_BASELINE_BIT & !allowed == 0
    &&& forall|bit: int|
        0 <= bit < 32 && #[trigger] board.durations[bit] != 0 ==> has_bit(allowed, bit)
}

/// Whether every active pulse touches only bits of `allowed`.
pub open spec fn engine_within(engine: PulseEngineView, allowed: u32) -> bool {
    &&& engine.timed.active_pulse_mask & !allowed == 0
    &&& forall|bit: int|
        0 <= bit < 32 && #[trigger] engine.scheduled.deadlines[bit] is Some ==> has_bit(
            allowed,
            bit,
        )
}

/// No pulse and no output ever reaches a bit that was not published, and observing keeps it so.
pub proof fn law_effective_output_is_confined(
    engine: PulseEngineView,
    board: OutputBoardView,
    allowed: u32,
    now: u64,
)
    requires
        board_within(board, allowed),
        engine_within(engine, allowed),
    ensures
        engine.effective(board, now) & !allowed == 0,
        engine_within(engine.serviced(board, now), allowed),
{
    let seen = engine.observed(board, now);
    let live = |bit: int| is_live(seen.scheduled.deadlines[bit], now);
    assert forall|bit: int| 0 <= bit < 32 && #[trigger] live(bit) implies has_bit(
        allowed,
        bit,
    ) by {
        assert(engine.scheduled.deadlines[bit] is Some || board.durations[bit] != 0);
    }
    lemma_word_of_within(live, 32, allowed);
    let word = live_word(seen.scheduled.deadlines, now);
    let mask = seen.timed.expired(now).active_pulse_mask;
    let desired = board.desired_outputs;
    lemma_empty_word_is_neutral(!allowed);
    let baseline = seen.timed.output(desired, now);
    lemma_combined_words_stay_within(desired, mask, allowed);
    lemma_combined_words_stay_within(baseline, word, allowed);
    let next = engine.serviced(board, now);
    assert forall|bit: int|
        0 <= bit < 32 && #[trigger] next.scheduled.deadlines[bit] is Some implies has_bit(
        allowed,
        bit,
    ) by {
        assert(live(bit));
    }
}

/// Publishing an allowed output keeps the board within what is allowed.
pub proof fn law_published_output_stays_confined(
    board: OutputBoardView,
    allowed: u32,
    desired_outputs: u32,
)
    requires
        board_within(board, allowed),
        desired_outputs & !allowed == 0,
    ensures
        board_within(board.with_outputs(desired_outputs), allowed),
{
}

/// Publishing an allowed pulse keeps the board within what is allowed.
pub proof fn law_published_pulse_stays_confined(
    board: OutputBoardView,
    allowed: u32,
    mask: u32,
    duration: u32,
    invert: bool,
)
    requires
        board_within(board, allowed),
        mask & !allowed == 0,
        mask & TIMED_PULSE_INVERT_BASELINE_BIT == 0,
    ensures
        board_within(board.with_pulse(mask, duration, invert), allowed),
{
    law_timed_request_round_trips(mask, duration, invert);
}

/// Publishing an allowed schedule keeps the board within what is allowed.
pub proof fn law_published_schedule_stays_confined(
    board: OutputBoardView,
    allowed: u32,
    schedule: u32,
    cancel: u32,
    duration: u32,
)
    requires
        board_within(board, allowed),
        schedule & !allowed == 0,
    ensures
        board_within(board.with_schedule(schedule, cancel, duration), allowed),
{
    let published = board.with_schedule(schedule, cancel, duration);
    assert forall|bit: int| 0 <= bit < 32 && #[trigger] published.durations[bit] != 0 implies has_bit(
        allowed,
        bit,
    ) by {
        if has_bit(schedule, bit) {
            lemma_bit_within(schedule, allowed, bit);
        } else {
            assert(board.durations[bit] != 0);
        }
    }
}

/// Cancelling every pulse keeps the board within what is allowed.
pub proof fn law_cancelled_pulses_stay_confined(board: OutputBoardView, allowed: u32)
    requires
        board_within(board, allowed),
    ensures
        board_within(board.with_pulses_cancelled(), allowed),
{
    lemma_empty_word_is_neutral(!allowed);
    lemma_empty_word_is_neutral(TIMED_PULSE_INVERT_BASELINE_BIT);
    law_published_pulse_stays_confined(board, allowed, 0, 0, false);
    law_published_schedule_stays_confined(
        board.with_pulse(0, 0, false),
        allowed,
        0,
        u32::MAX,
        0,
    );
}

} // verus!
