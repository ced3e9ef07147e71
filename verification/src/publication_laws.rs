//! What accepted CM119 publications ask of each pin, and which publications are accepted.
//!
//! The logical PTT state travels in bit 0 of an output word, GPIO pin `n` in bit `8 + n`.

use vstd::prelude::*;

#[allow(unused_imports)]
use crate::abi::{InvertingPulseAction, OutputAction, ScheduledInvertingPulseAction};
#[allow(unused_imports)]
use crate::bits::{
    has_pin, lemma_byte_parts_within, lemma_empty_and_full_words, lemma_pins_within, lemma_xor_bit,
};
#[allow(unused_imports)]
use crate::profile::{law_packed_outputs_round_trip, packed_output};
#[allow(unused_imports)]
use crate::publication::{
    cancel_word, is_output_action, is_pulse_action, is_schedule_action, output_word,
    pulse_is_published, pulse_word, schedule_word,
};
#[allow(unused_imports)]
use crate::pulse::{OutputBoardView, PulseEngineView, TimedPulseState};
#[allow(unused_imports)]
use crate::pulse_laws::{
    in_step, law_pulse_shapes_and_restores_the_baseline,
    law_scheduled_pulse_inverts_and_restores_the_baseline, law_timed_request_round_trips,
};

verus! {

/// Each bit of a packed word is the PTT state, one GPIO pin, or clear.
pub proof fn lemma_packed_output_bits(ptt: bool, gpio: u8, bit: u32)
    requires
        bit < 32,
    ensures
        has_pin(packed_output(ptt, gpio), bit) == ((bit == 0 && ptt) || (8 <= bit < 16 && has_pin(
            gpio as u32,
            (bit - 8) as u32,
        ))),
{
    let state: u32 = if ptt {
        1
    } else {
        0
    };
    let pin: u32 = if bit >= 8 {
        (bit - 8) as u32
    } else {
        0
    };
    let wide = gpio as u32;
    assert((((state | (wide << 8)) >> bit) & 1 == 1) == ((bit == 0 && state == 1) || (8 <= bit && bit
        < 16 && (wide >> pin) & 1 == 1))) by (bit_vector)
        requires
            bit < 32,
            bit >= 8 ==> pin == bit - 8,
            state == 0 || state == 1,
            wide <= 0xff,
    ;
}

/// Two packed words share no bit exactly when they share neither the PTT state nor a GPIO pin.
proof fn lemma_packed_outputs_overlap(ptt: bool, gpio: u8, other_ptt: bool, other_gpio: u8)
    ensures
        packed_output(ptt, gpio) & packed_output(other_ptt, other_gpio) == 0 <==> !(ptt && other_ptt)
            && (gpio as u32) & (other_gpio as u32) == 0,
        packed_output(ptt, gpio) == 0 <==> !ptt && gpio == 0,
{
    let left: u32 = if ptt {
        1
    } else {
        0
    };
    let right: u32 = if other_ptt {
        1
    } else {
        0
    };
    let wide = gpio as u32;
    let other = other_gpio as u32;
    assert((((left | (wide << 8)) & (right | (other << 8)) == 0) == (!(left == 1 && right == 1)
        && wide & other == 0)) && ((left | (wide << 8) == 0) == (left == 0 && wide == 0)))
        by (bit_vector)
        requires
            left == 0 || left == 1,
            right == 0 || right == 1,
            wide <= 0xff,
            other <= 0xff,
    ;
}

/// A persistent output is accepted exactly when it is complete, of the first ABI version, and
/// raises only GPIO pins that are enabled. Its PTT state is never a reason to refuse it.
pub proof fn law_accepted_outputs(action: OutputAction, enabled: u8)
    ensures
        is_output_action(action, enabled) <==> {
            &&& action.struct_size >= 16
            &&& action.abi_version == 1
            &&& action.ptt_asserted == 0 || action.ptt_asserted == 1
            &&& action.gpio_output_mask < 256
            &&& forall|pin: u32|
                pin < 8 && #[trigger] has_pin(action.gpio_output_mask, pin) ==> has_pin(
                    enabled as u32,
                    pin,
                )
        },
{
    let gpio = action.gpio_output_mask as u8;
    lemma_pins_within(gpio, enabled);
    assert(action.gpio_output_mask <= 0xff ==> gpio as u32 == action.gpio_output_mask);
}

/// An accepted output is from then on the whole persistent baseline: PTT as asserted, each GPIO
/// pin as in the mask, and nothing else. No pulse is touched.
pub proof fn law_published_outputs_are_the_baseline(
    board: OutputBoardView,
    action: OutputAction,
    enabled: u8,
    bit: u32,
)
    requires
        is_output_action(action, enabled),
        bit < 32,
    ensures
        ({
            let next = board.with_outputs(output_word(action));
            &&& has_pin(next.desired_outputs, bit) == ((bit == 0 && action.ptt_asserted == 1) || (8
                <= bit < 16 && has_pin(action.gpio_output_mask, (bit - 8) as u32)))
            &&& next.pulse_request == board.pulse_request
            &&& next.pulse_generation == board.pulse_generation
            &&& next.durations == board.durations
            &&& next.generations == board.generations
        }),
{
    lemma_packed_output_bits(action.ptt_asserted != 0, action.gpio_output_mask as u8, bit);
}

/// A timed inversion is accepted exactly when it is complete, of the first ABI version, selects
/// PTT or enabled GPIO pins together with a duration, or selects neither and has none. Only the
/// latter may cancel.
pub proof fn law_accepted_pulses(action: InvertingPulseAction, enabled: u8)
    ensures
        is_pulse_action(action, enabled) <==> {
            &&& action.struct_size >= 24
            &&& action.abi_version == 1
            &&& action.ptt_invert == 0 || action.ptt_invert == 1
            &&& action.gpio_invert_mask < 256
            &&& action.cancel_pulse == 0 || action.cancel_pulse == 1
            &&& action.pulse_duration_milliseconds == 0 <==> action.ptt_invert == 0
                && action.gpio_invert_mask == 0
            &&& action.cancel_pulse == 1 ==> action.pulse_duration_milliseconds == 0
            &&& forall|pin: u32|
                pin < 8 && #[trigger] has_pin(action.gpio_invert_mask, pin) ==> has_pin(
                    enabled as u32,
                    pin,
                )
        },
{
    let gpio = action.gpio_invert_mask as u8;
    lemma_pins_within(gpio, enabled);
    assert(action.gpio_invert_mask <= 0xff ==> gpio as u32 == action.gpio_invert_mask);
}

/// The board behind an accepted timed inversion, which publishes a pulse, a cancellation or
/// nothing.
pub open spec fn with_pulse_action(board: OutputBoardView, action: InvertingPulseAction) ->
    OutputBoardView {
    if pulse_is_published(action) {
        board.with_pulse(pulse_word(action), action.pulse_duration_milliseconds, true)
    } else {
        board
    }
}

/// An accepted timed inversion flips exactly the pins that it selects, PTT and each GPIO pin by
/// itself, from the service cycle that observes it until its duration has passed; every other pin
/// follows the baseline, and so do the selected ones afterwards.
pub proof fn law_pulsed_pins_are_the_selected_ones(
    engine: PulseEngineView,
    board: OutputBoardView,
    action: InvertingPulseAction,
    enabled: u8,
    now: u64,
    later: u64,
    bit: u32,
)
    requires
        is_pulse_action(action, enabled),
        action.pulse_duration_milliseconds != 0,
        now <= later,
        bit < 32,
        engine.timed.observed_generation == board.pulse_generation,
        in_step(engine.scheduled, board),
        board.generations.len() == 32,
        forall|index: int| 0 <= index < 32 ==> #[trigger] engine.scheduled.deadlines[index] is None,
    ensures
        ({
            let published = with_pulse_action(board, action);
            let output = engine.serviced(published, now).effective(published, later);
            let selected = (bit == 0 && action.ptt_invert == 1) || (8 <= bit < 16 && has_pin(
                action.gpio_invert_mask,
                (bit - 8) as u32,
            ));
            let live = later < now + action.pulse_duration_milliseconds * 1_000_000;
            &&& has_pin(output, bit) == (has_pin(board.desired_outputs, bit) != (selected && live))
            &&& published.desired_outputs == board.desired_outputs
            &&& published.durations == board.durations
            &&& published.generations == board.generations
        }),
{
    let mask = pulse_word(action);
    let gpio = action.gpio_invert_mask as u8;
    lemma_packed_output_bits(action.ptt_invert != 0, gpio, bit);
    law_packed_outputs_round_trip(action.ptt_invert != 0, gpio);
    law_pulse_shapes_and_restores_the_baseline(
        engine,
        board,
        mask,
        action.pulse_duration_milliseconds,
        true,
        now,
        later,
    );
    lemma_xor_bit(board.desired_outputs, mask, bit);
}

/// An accepted timed inversion without a duration cancels the running timed pulse if it says so,
/// and otherwise publishes nothing.
pub proof fn law_cancelled_pulse_ends_at_once(
    state: TimedPulseState,
    board: OutputBoardView,
    action: InvertingPulseAction,
    enabled: u8,
    baseline: u32,
    now: u64,
    later: u64,
)
    requires
        is_pulse_action(action, enabled),
        action.pulse_duration_milliseconds == 0,
        state.observed_generation == board.pulse_generation,
    ensures
        ({
            let published = with_pulse_action(board, action);
            let seen = state.observed(now, published.pulse_generation, published.pulse_request);
            &&& action.cancel_pulse == 1 ==> seen.output(baseline, later) == baseline
            &&& action.cancel_pulse == 0 ==> published == board && seen == state
            &&& published.desired_outputs == board.desired_outputs
            &&& published.durations == board.durations
            &&& published.generations == board.generations
        }),
{
    crate::bits::lemma_empty_word_is_neutral(baseline);
    law_packed_outputs_round_trip(action.ptt_invert != 0, action.gpio_invert_mask as u8);
    law_timed_request_round_trips(pulse_word(action), 0, true);
}

/// A scheduled inversion is accepted exactly when it is complete, of the first ABI version,
/// selects enabled GPIO pins only, selects nothing both for inversion and for cancellation, and
/// has a duration exactly when something is to be inverted.
pub proof fn law_accepted_schedules(action: ScheduledInvertingPulseAction, enabled: u8)
    ensures
        is_schedule_action(action, enabled) <==> {
            &&& action.struct_size >= 28
            &&& action.abi_version == 1
            &&& action.ptt_invert == 0 || action.ptt_invert == 1
            &&& action.ptt_cancel == 0 || action.ptt_cancel == 1
            &&& action.gpio_invert_mask < 256
            &&& action.gpio_cancel_mask < 256
            &&& !(action.ptt_invert == 1 && action.ptt_cancel == 1)
            &&& action.gpio_invert_mask & action.gpio_cancel_mask == 0
            &&& action.pulse_duration_milliseconds == 0 <==> action.ptt_invert == 0
                && action.gpio_invert_mask == 0
            &&& forall|pin: u32|
                pin < 8 && #[trigger] has_pin(action.gpio_invert_mask, pin) ==> has_pin(
                    enabled as u32,
                    pin,
                )
            &&& forall|pin: u32|
                pin < 8 && #[trigger] has_pin(action.gpio_cancel_mask, pin) ==> has_pin(
                    enabled as u32,
                    pin,
                )
        },
{
    let invert = action.gpio_invert_mask as u8;
    let cancel = action.gpio_cancel_mask as u8;
    lemma_pins_within(invert, enabled);
    lemma_pins_within(cancel, enabled);
    lemma_packed_outputs_overlap(
        action.ptt_invert != 0,
        invert,
        action.ptt_cancel != 0,
        cancel,
    );
    lemma_byte_parts_within(invert, cancel, enabled);
}

/// The board behind an accepted scheduled inversion.
pub open spec fn with_schedule_action(
    board: OutputBoardView,
    action: ScheduledInvertingPulseAction,
) -> OutputBoardView {
    if schedule_word(action) != 0 || cancel_word(action) != 0 {
        board.with_schedule(
            schedule_word(action),
            cancel_word(action),
            action.pulse_duration_milliseconds,
        )
    } else {
        board
    }
}

/// An accepted scheduled inversion gives a new generation and its duration to exactly the pins
/// that it inverts, and a new generation without a duration to exactly those that it cancels: PTT
/// and every GPIO pin independently of one another. Nothing else on the board changes.
pub proof fn law_scheduled_pins_are_the_selected_ones(
    board: OutputBoardView,
    action: ScheduledInvertingPulseAction,
    enabled: u8,
    bit: u32,
)
    requires
        is_schedule_action(action, enabled),
        bit < 32,
    ensures
        ({
            let next = with_schedule_action(board, action);
            let inverted = (bit == 0 && action.ptt_invert == 1) || (8 <= bit < 16 && has_pin(
                action.gpio_invert_mask,
                (bit - 8) as u32,
            ));
            let cancelled = (bit == 0 && action.ptt_cancel == 1) || (8 <= bit < 16 && has_pin(
                action.gpio_cancel_mask,
                (bit - 8) as u32,
            ));
            let index = bit as int;
            &&& inverted ==> next.durations[index] == action.pulse_duration_milliseconds
                && action.pulse_duration_milliseconds != 0
            &&& cancelled && !inverted ==> next.durations[index] == 0
            &&& !inverted && !cancelled ==> next.durations[index] == board.durations[index]
            &&& inverted || cancelled ==> next.generations[index] == (board.generations[index] + 1)
                % 0x1_0000_0000_0000_0000
            &&& !inverted && !cancelled ==> next.generations[index] == board.generations[index]
            &&& next.desired_outputs == board.desired_outputs
            &&& next.pulse_request == board.pulse_request
            &&& next.pulse_generation == board.pulse_generation
        }),
{
    let invert = action.gpio_invert_mask as u8;
    let cancel = action.gpio_cancel_mask as u8;
    lemma_packed_output_bits(action.ptt_invert != 0, invert, bit);
    lemma_packed_output_bits(action.ptt_cancel != 0, cancel, bit);
    lemma_packed_outputs_overlap(
        action.ptt_invert != 0,
        invert,
        action.ptt_cancel != 0,
        cancel,
    );
    law_accepted_schedules(action, enabled);
    lemma_empty_and_full_words(bit as int);
}

/// An accepted schedule inverts exactly its selected pins on the output, each until its duration
/// has passed behind the service cycle that observes it.
pub proof fn law_scheduled_pins_invert_the_output(
    engine: PulseEngineView,
    board: OutputBoardView,
    action: ScheduledInvertingPulseAction,
    enabled: u8,
    now: u64,
    later: u64,
    bit: u32,
)
    requires
        is_schedule_action(action, enabled),
        action.pulse_duration_milliseconds != 0,
        action.ptt_cancel == 0,
        action.gpio_cancel_mask == 0,
        now <= later,
        bit < 32,
        in_step(engine.scheduled, board),
        engine.timed == TimedPulseState::idle(board.pulse_generation),
        engine.scheduled.deadlines[bit as int] is None,
    ensures
        ({
            let published = with_schedule_action(board, action);
            let output = engine.serviced(published, now).effective(published, later);
            let selected = (bit == 0 && action.ptt_invert == 1) || (8 <= bit < 16 && has_pin(
                action.gpio_invert_mask,
                (bit - 8) as u32,
            ));
            let live = later < now + action.pulse_duration_milliseconds * 1_000_000;
            has_pin(output, bit) == (has_pin(board.desired_outputs, bit) != (selected && live))
        }),
{
    let invert = action.gpio_invert_mask as u8;
    lemma_packed_output_bits(action.ptt_invert != 0, invert, bit);
    lemma_packed_outputs_overlap(action.ptt_invert != 0, invert, false, 0);
    lemma_packed_outputs_overlap(false, 0, false, 0);
    law_scheduled_pulse_inverts_and_restores_the_baseline(
        engine,
        board,
        schedule_word(action),
        action.pulse_duration_milliseconds,
        now,
        later,
        bit as int,
    );
}

} // verus!
