//! Checked CM119 output publications.
//!
//! A publisher only changes an [`OutputBoard`]; the service owner acts on it
//! later. A refused request leaves the board as it was.

use vstd::prelude::*;

use crate::abi::{
    InvertingPulseAction, OutputAction, ScheduledInvertingPulseAction, ABI_VERSION,
    GPIO_INVALID_ARGUMENT, GPIO_OK, INVERTING_PULSE_ACTION_SIZE, OUTPUT_ACTION_SIZE,
    SCHEDULED_INVERTING_PULSE_ACTION_SIZE,
};
#[allow(unused_imports)]
use crate::bits::lemma_byte_parts_within;
#[allow(unused_imports)]
use crate::profile::{
    allowed_outputs, law_packed_outputs_round_trip, pack_output, packed_output, unpack_gpio,
};
use crate::pulse::{publish_scheduled_pulse, publish_timed_pulse, OutputBoard};
#[allow(unused_imports)]
use crate::pulse_laws::{
    board_within, law_published_output_stays_confined, law_published_pulse_stays_confined,
    law_published_schedule_stays_confined,
};

verus! {

/// Whether a persistent output asks for permitted pins only and is well formed.
pub open spec fn is_output_action(action: OutputAction, gpio_output_enable_mask: u8) -> bool {
    &&& action.struct_size >= OUTPUT_ACTION_SIZE
    &&& action.abi_version == ABI_VERSION
    &&& action.ptt_asserted <= 1
    &&& action.gpio_output_mask <= 0xff
    &&& action.gpio_output_mask as u8 & !gpio_output_enable_mask == 0
}

/// The output word that a persistent output publishes.
pub open spec fn output_word(action: OutputAction) -> u32 {
    packed_output(action.ptt_asserted != 0, action.gpio_output_mask as u8)
}

/// Whether a timed inversion asks for permitted pins only and is well formed: it selects pins
/// exactly when it has a duration, and a cancellation has neither.
pub open spec fn is_pulse_action(action: InvertingPulseAction, gpio_output_enable_mask: u8) -> bool {
    let selects = action.ptt_invert != 0 || action.gpio_invert_mask != 0;
    &&& action.struct_size >= INVERTING_PULSE_ACTION_SIZE
    &&& action.abi_version == ABI_VERSION
    &&& action.ptt_invert <= 1
    &&& action.gpio_invert_mask <= 0xff
    &&& action.cancel_pulse <= 1
    &&& selects == (action.pulse_duration_milliseconds != 0)
    &&& action.cancel_pulse != 0 ==> !selects
    &&& action.gpio_invert_mask as u8 & !gpio_output_enable_mask == 0
}

/// Whether a timed inversion has anything to publish.
pub open spec fn pulse_is_published(action: InvertingPulseAction) -> bool {
    action.pulse_duration_milliseconds != 0 || action.cancel_pulse != 0
}

/// The output bits that a timed inversion flips.
pub open spec fn pulse_word(action: InvertingPulseAction) -> u32 {
    packed_output(action.ptt_invert != 0, action.gpio_invert_mask as u8)
}

/// The output bits that a scheduled inversion flips.
pub open spec fn schedule_word(action: ScheduledInvertingPulseAction) -> u32 {
    packed_output(action.ptt_invert != 0, action.gpio_invert_mask as u8)
}

/// The output bits whose scheduled inversion ends.
pub open spec fn cancel_word(action: ScheduledInvertingPulseAction) -> u32 {
    packed_output(action.ptt_cancel != 0, action.gpio_cancel_mask as u8)
}

/// Whether a scheduled inversion asks for permitted pins only and is well formed: no pin is both
/// scheduled and cancelled, and there is a duration exactly when a pin is scheduled.
pub open spec fn is_schedule_action(
    action: ScheduledInvertingPulseAction,
    gpio_output_enable_mask: u8,
) -> bool {
    &&& action.struct_size >= SCHEDULED_INVERTING_PULSE_ACTION_SIZE
    &&& action.abi_version == ABI_VERSION
    &&& action.ptt_invert <= 1
    &&& action.ptt_cancel <= 1
    &&& action.gpio_invert_mask <= 0xff
    &&& action.gpio_cancel_mask <= 0xff
    &&& schedule_word(action) & cancel_word(action) == 0
    &&& (schedule_word(action) != 0) == (action.pulse_duration_milliseconds != 0)
    &&& (action.gpio_invert_mask as u8 | action.gpio_cancel_mask as u8) & !gpio_output_enable_mask
        == 0
}

/// A packed word of permitted GPIO bits is inside what the device may drive.
pub proof fn lemma_permitted_word_is_allowed(ptt: bool, gpio: u8, gpio_output_enable_mask: u8)
    requires
        gpio & !gpio_output_enable_mask == 0,
    ensures
        packed_output(ptt, gpio) & !allowed_outputs(gpio_output_enable_mask) == 0,
{
    let mask = gpio_output_enable_mask;
    let bit: u32 = if ptt {
        1
    } else {
        0
    };
    assert((bit | ((gpio as u32) << 8)) & !(1u32 | ((mask as u32) << 8)) == 0) by (bit_vector)
        requires
            gpio & !mask == 0,
            bit == 0 || bit == 1,
    ;
}

/// Publish a prepared logical action without touching the device.
pub fn publish_outputs(board: &mut OutputBoard, gpio_output_enable_mask: u8, action: &OutputAction)
    -> (code: i32)
    ensures
        is_output_action(*action, gpio_output_enable_mask) ==> code == GPIO_OK && final(board)@
            == old(board)@.with_outputs(output_word(*action)),
        !is_output_action(*action, gpio_output_enable_mask) ==> code == GPIO_INVALID_ARGUMENT
            && final(board)@ == old(board)@,
        board_within(old(board)@, allowed_outputs(gpio_output_enable_mask)) ==> board_within(
            final(board)@,
            allowed_outputs(gpio_output_enable_mask),
        ),
{
    if action.struct_size < OUTPUT_ACTION_SIZE || action.abi_version != ABI_VERSION
        || action.ptt_asserted > 1 || action.gpio_output_mask > 0xff {
        return GPIO_INVALID_ARGUMENT;
    }
    let gpio: u8 = action.gpio_output_mask as u8;
    if gpio & !gpio_output_enable_mask != 0 {
        return GPIO_INVALID_ARGUMENT;
    }
    let desired: u32 = pack_output(action.ptt_asserted != 0, gpio);
    proof {
        lemma_permitted_word_is_allowed(action.ptt_asserted != 0, gpio, gpio_output_enable_mask);
        if board_within(board@, allowed_outputs(gpio_output_enable_mask)) {
            law_published_output_stays_confined(
                board@,
                allowed_outputs(gpio_output_enable_mask),
                desired,
            );
        }
    }
    board.desired_outputs = desired;
    GPIO_OK
}

/// Publish one timed logical output inversion without touching the device.
///
/// The service owner inverts the requested PTT and GPIO bits of the latest
/// persistent output until the deadline, whatever the configured polarity.
pub fn publish_inverting_pulse(
    board: &mut OutputBoard,
    gpio_output_enable_mask: u8,
    action: &InvertingPulseAction,
) -> (code: i32)
    ensures
        is_pulse_action(*action, gpio_output_enable_mask) ==> code == GPIO_OK && final(board)@ == (
        if pulse_is_published(*action) {
            old(board)@.with_pulse(pulse_word(*action), action.pulse_duration_milliseconds, true)
        } else {
            old(board)@
        }),
        !is_pulse_action(*action, gpio_output_enable_mask) ==> code == GPIO_INVALID_ARGUMENT
            && final(board)@ == old(board)@,
        board_within(old(board)@, allowed_outputs(gpio_output_enable_mask)) ==> board_within(
            final(board)@,
            allowed_outputs(gpio_output_enable_mask),
        ),
{
    if action.struct_size < INVERTING_PULSE_ACTION_SIZE || action.abi_version != ABI_VERSION
        || action.ptt_invert > 1 || action.gpio_invert_mask > 0xff || action.cancel_pulse > 1 || (
    action.cancel_pulse != 0 && (action.pulse_duration_milliseconds != 0 || action.ptt_invert != 0
        || action.gpio_invert_mask != 0)) || (action.cancel_pulse == 0 && ((
    action.pulse_duration_milliseconds == 0) != (action.ptt_invert == 0 && action.gpio_invert_mask
        == 0))) {
        return GPIO_INVALID_ARGUMENT;
    }
    let gpio: u8 = action.gpio_invert_mask as u8;
    if gpio & !gpio_output_enable_mask != 0 {
        return GPIO_INVALID_ARGUMENT;
    }
    if action.pulse_duration_milliseconds != 0 || action.cancel_pulse != 0 {
        let mask: u32 = pack_output(action.ptt_invert != 0, gpio);
        proof {
            law_packed_outputs_round_trip(action.ptt_invert != 0, gpio);
            lemma_permitted_word_is_allowed(
                action.ptt_invert != 0,
                gpio,
                gpio_output_enable_mask,
            );
            if board_within(board@, allowed_outputs(gpio_output_enable_mask)) {
                law_published_pulse_stays_confined(
                    board@,
                    allowed_outputs(gpio_output_enable_mask),
                    mask,
                    action.pulse_duration_milliseconds,
                    true,
                );
            }
        }
        publish_timed_pulse(
            &mut board.pulse_request,
            &mut board.pulse_generation,
            mask,
            action.pulse_duration_milliseconds,
            true,
        );
    }
    GPIO_OK
}

/// Schedule selected logical PTT/GPIO inversions without touching the device.
///
/// Each selected bit keeps its own deadline.
pub fn schedule_inverting_pulse(
    board: &mut OutputBoard,
    gpio_output_enable_mask: u8,
    action: &ScheduledInvertingPulseAction,
) -> (code: i32)
    ensures
        is_schedule_action(*action, gpio_output_enable_mask) ==> code == GPIO_OK && final(board)@
            == (if schedule_word(*action) != 0 || cancel_word(*action) != 0 {
            old(board)@.with_schedule(
                schedule_word(*action),
                cancel_word(*action),
                action.pulse_duration_milliseconds,
            )
        } else {
            old(board)@
        }),
        !is_schedule_action(*action, gpio_output_enable_mask) ==> code == GPIO_INVALID_ARGUMENT
            && final(board)@ == old(board)@,
        board_within(old(board)@, allowed_outputs(gpio_output_enable_mask)) ==> board_within(
            final(board)@,
            allowed_outputs(gpio_output_enable_mask),
        ),
{
    if action.struct_size < SCHEDULED_INVERTING_PULSE_ACTION_SIZE || action.abi_version
        != ABI_VERSION || action.ptt_invert > 1 || action.ptt_cancel > 1 || action.gpio_invert_mask
        > 0xff || action.gpio_cancel_mask > 0xff {
        return GPIO_INVALID_ARGUMENT;
    }
    let invert_gpio: u8 = action.gpio_invert_mask as u8;
    let cancel_gpio: u8 = action.gpio_cancel_mask as u8;
    let schedule: u32 = pack_output(action.ptt_invert != 0, invert_gpio);
    let cancel: u32 = pack_output(action.ptt_cancel != 0, cancel_gpio);
    proof {
        law_packed_outputs_round_trip(action.ptt_invert != 0, invert_gpio);
        law_packed_outputs_round_trip(action.ptt_cancel != 0, cancel_gpio);
    }
    if schedule & cancel != 0 || (action.pulse_duration_milliseconds == 0 && schedule != 0) || (
    action.pulse_duration_milliseconds != 0 && schedule == 0) || (unpack_gpio(schedule)
        | unpack_gpio(cancel)) & !gpio_output_enable_mask != 0 {
        return GPIO_INVALID_ARGUMENT;
    }
    if schedule != 0 || cancel != 0 {
        proof {
            lemma_byte_parts_within(invert_gpio, cancel_gpio, gpio_output_enable_mask);
            lemma_permitted_word_is_allowed(
                action.ptt_invert != 0,
                invert_gpio,
                gpio_output_enable_mask,
            );
            if board_within(board@, allowed_outputs(gpio_output_enable_mask)) {
                law_published_schedule_stays_confined(
                    board@,
                    allowed_outputs(gpio_output_enable_mask),
                    schedule,
                    cancel,
                    action.pulse_duration_milliseconds,
                );
            }
        }
        publish_scheduled_pulse(
            &mut board.scheduled_pulse_durations,
            &mut board.scheduled_pulse_generations,
            schedule,
            cancel,
            action.pulse_duration_milliseconds,
        );
    }
    GPIO_OK
}

} // verus!
