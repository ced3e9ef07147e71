//! What holds of every parallel-port operation, whatever the port answers.

use vstd::prelude::*;

#[allow(unused_imports)]
use crate::abi::{GPIO_IO_ERROR, GPIO_OK};
#[allow(unused_imports)]
use crate::bits::{
    has_pin, lemma_byte_parts_within, lemma_empty_and_full_words, lemma_empty_word_is_neutral,
    lemma_or_bit, lemma_pins_within, lemma_xor_bit,
};
#[allow(unused_imports)]
use crate::device_laws::counted;
#[allow(unused_imports)]
use crate::parallel::{
    channel_steps, is_output_action, is_pulse_action, is_schedule_action,
    lemma_confined_word_is_a_byte, AfterData, ControlRun, ParallelDeviceView, ParallelStatus,
    ParallelStep, PendingData,
};
#[allow(unused_imports)]
use crate::parallel_abi::{
    ParallelInputSnapshot, ParallelInvertingPulseAction, ParallelOutputAction,
    ParallelScheduledInvertingPulseAction, ParallelStats,
};
#[allow(unused_imports)]
use crate::pulse::{OutputBoardView, PulseEngineView, TimedPulseState};
#[allow(unused_imports)]
use crate::pulse_laws::{
    in_step, law_effective_output_is_confined, law_pulse_shapes_and_restores_the_baseline,
    law_quiet_board_shows_its_output, law_serviced_pulses_keep_their_effect,
    law_timed_request_round_trips,
};
#[allow(unused_imports)]
use crate::rtx::{ControlStep, RTX_TRANSMIT_MASK, RTX_TRANSMIT_POWER_MASK};

verus! {

/// The data byte in effect at `now`.
pub open spec fn effective_byte(device: ParallelDeviceView, now: u64) -> u8 {
    device.pulses.effective(device.outputs, now) as u8
}

/// A byte that was already applied is not written again; a service cycle only samples.
pub proof fn law_unchanged_byte_is_not_rewritten(device: ParallelDeviceView, now: u64)
    requires
        device.status.flushed_outputs == effective_byte(device, now),
    ensures
        device.servicing(now).1 is Read,
        device.servicing(now).0.status.output_apply_count == device.status.output_apply_count,
{
}

/// A failed write loses nothing: the next cycle at the same instant writes the same byte again.
pub proof fn law_failed_write_is_retried(device: ParallelDeviceView, now: u64, error: i32)
    requires
        device.outputs.generations.len() == 32,
        device.status.flushed_outputs != effective_byte(device, now),
    ensures
        ({
            let (waiting, step) = device.servicing(now);
            let (failed, ended) = waiting.written(step->Write_0, Err(error));
            &&& step == ParallelStep::Write(
                PendingData { data: effective_byte(device, now), next: AfterData::Service },
            )
            &&& ended == ParallelStep::Done(GPIO_IO_ERROR)
            &&& failed.outputs == device.outputs
            &&& failed.status.flushed_outputs == device.status.flushed_outputs
            &&& failed.status.last_io_error == error
            &&& failed.servicing(now).1 == step
        }),
{
    law_serviced_pulses_keep_their_effect(device.pulses, device.outputs, now, now);
}

/// A successful write is remembered, so that the same byte is not written again, and the status
/// byte sampled behind it is what observers see.
pub proof fn law_successful_cycle_is_remembered(
    device: ParallelDeviceView,
    now: u64,
    status: u8,
)
    requires
        device.outputs.generations.len() == 32,
        device.status.flushed_outputs != effective_byte(device, now),
    ensures
        ({
            let (waiting, step) = device.servicing(now);
            let (sampling, sample) = waiting.written(step->Write_0, Ok(()));
            let (end, ended) = sampling.read(Ok(status));
            &&& sample is Read
            &&& ended == ParallelStep::Done(GPIO_OK)
            &&& end.status.flushed_outputs == effective_byte(device, now)
            &&& end.status.input_status == status
            &&& end.status.last_io_error == 0
            &&& end.servicing(now).1 is Read
        }),
{
    law_serviced_pulses_keep_their_effect(device.pulses, device.outputs, now, now);
}

/// A control-plane byte that was written is the persistent baseline from that write on.
pub proof fn law_control_byte_becomes_the_baseline(
    device: ParallelDeviceView,
    pending: PendingData,
)
    requires
        pending.next is Control,
    ensures
        ({
            let (retained, step) = device.written(pending, Ok(()));
            &&& retained.outputs.desired_outputs == pending.data
            &&& retained.status.flushed_outputs == pending.data
        }),
{
}

/// A failed control-plane write ends its operation at once: no later byte is written, nothing
/// settles, and the byte that failed is not retained.
pub proof fn law_failed_control_write_stops(
    device: ParallelDeviceView,
    pending: PendingData,
    error: i32,
)
    requires
        pending.next is Control,
    ensures
        ({
            let (failed, step) = device.written(pending, Err(error));
            &&& step == ParallelStep::Done(GPIO_IO_ERROR)
            &&& failed.outputs == device.outputs
            &&& failed.status.flushed_outputs == device.status.flushed_outputs
        }),
{
}

/// Something that a control-plane operation does to the hardware.
pub enum ControlEvent {
    /// A data byte was written.
    Wrote(u8),
    /// The hardware settled for this multiple of the interval.
    Settled(u32),
}

/// What a list of steps asks for, from one of them on.
pub open spec fn events_of(steps: Seq<ControlStep>, from: int) -> Seq<ControlEvent>
    decreases steps.len() - from,
{
    if from >= steps.len() {
        Seq::empty()
    } else {
        let step = steps[from];
        let wrote = seq![ControlEvent::Wrote(step.data)];
        match step.settle {
            Some(multiplier) => wrote + seq![ControlEvent::Settled(multiplier)] + events_of(
                steps,
                from + 1,
            ),
            None => wrote + events_of(steps, from + 1),
        }
    }
}

/// Carry out up to `limit` steps on a port on which every write succeeds.
pub open spec fn perform(device: ParallelDeviceView, step: ParallelStep, limit: nat) -> (
    ParallelDeviceView,
    ParallelStep,
    Seq<ControlEvent>,
)
    decreases limit,
{
    if limit == 0 {
        (device, step, Seq::empty())
    } else {
        match step {
            ParallelStep::Write(pending) => {
                let (next, following) = device.written(pending, Ok(()));
                let (end, last, events) = perform(next, following, (limit - 1) as nat);
                (end, last, seq![ControlEvent::Wrote(pending.data)] + events)
            },
            ParallelStep::Settle { multiplier, run } => {
                let (next, following) = device.controlling(run);
                let (end, last, events) = perform(next, following, (limit - 1) as nat);
                (end, last, seq![ControlEvent::Settled(multiplier)] + events)
            },
            _ => (device, step, Seq::empty()),
        }
    }
}

/// A control-plane operation writes exactly its bytes, in order, settles exactly where its steps
/// say so, succeeds, and leaves its last byte as the baseline.
pub proof fn law_control_operation_performs_its_steps(
    device: ParallelDeviceView,
    run: ControlRun,
    limit: nat,
)
    requires
        run.position < run.steps@.len(),
        limit >= 2 * (run.steps@.len() - run.position),
        run.steps@.len() <= usize::MAX,
    ensures
        ({
            let (waiting, step) = device.controlling(run);
            let (end, last, events) = perform(waiting, step, limit);
            &&& last == ParallelStep::Done(GPIO_OK)
            &&& events == events_of(run.steps@, run.position as int)
            &&& end.outputs.desired_outputs == run.steps@.last().data
            &&& end.status.flushed_outputs == run.steps@.last().data
        }),
    decreases run.steps@.len() - run.position,
{
    reveal_with_fuel(perform, 3);
    let (waiting, step) = device.controlling(run);
    let data = run.steps@[run.position as int].data;
    let settle = run.steps@[run.position as int].settle;
    let applied = waiting.with_status(
        ParallelStatus { flushed_outputs: data as u32, last_io_error: 0, ..waiting.status },
    );
    let retained = applied.with_publications(applied.outputs.with_outputs(data as u32));
    let rest = run.advanced();
    let rest_limit: nat = if settle is Some {
        (limit - 2) as nat
    } else {
        (limit - 1) as nat
    };
    let (next, following) = retained.controlling(rest);
    if rest.position < rest.steps@.len() {
        law_control_operation_performs_its_steps(retained, rest, rest_limit);
    } else {
        assert(events_of(run.steps@, rest.position as int) =~= Seq::empty());
    }
    assert(perform(next, following, rest_limit).2 == events_of(run.steps@, rest.position as int));
    assert(perform(waiting, step, limit).2 =~= events_of(run.steps@, run.position as int));
}

/// Closing leaves the device offline whether or not its write succeeds. A write that succeeded
/// leaves every data pin low; one that failed leaves the byte that was applied before.
pub proof fn law_close_deasserts_and_goes_offline(
    device: ParallelDeviceView,
    outcome: Result<(), i32>,
)
    ensures
        ({
            let pending = PendingData { data: 0, next: AfterData::Close };
            let (closed, step) = device.written(pending, outcome);
            &&& step is Closed
            &&& outcome is Ok ==> closed.status.flushed_outputs == 0
            &&& outcome is Err ==> closed.status.flushed_outputs == device.status.flushed_outputs
            &&& !closed.status.online
        }),
{
}

/// A channel selection pulls low exactly the select bits of its channel and keeps the low nibble.
pub proof fn law_channel_is_selected_active_low(output: u8, channel: u8)
    ensures
        ({
            let steps = channel_steps(output, channel);
            &&& steps.len() == 2
            &&& steps[0].data == output | 0xf0
            &&& steps[1].data & 0x0f == output & 0x0f
            &&& steps[1].data >> 4u8 == !channel & 0x0f
            &&& steps[0].settle is None
            &&& steps[1].settle is None
        }),
{
    assert(((output | 0xf0) & !(channel << 4u8)) & 0x0f == output & 0x0f && ((output | 0xf0) & !(
    channel << 4u8)) >> 4u8 == !channel & 0x0f) by (bit_vector);
}

/// Clearing transmit lowers the transmit and power pins and touches no other pin.
pub proof fn law_clearing_transmit_touches_nothing_else(output: u8)
    ensures
        ({
            let cleared = output & !(RTX_TRANSMIT_MASK | RTX_TRANSMIT_POWER_MASK);
            &&& cleared & RTX_TRANSMIT_MASK == 0
            &&& cleared & RTX_TRANSMIT_POWER_MASK == 0
            &&& cleared & !0x18 == output & !0x18
        }),
{
    assert((output & !(0x08u8 | 0x10u8)) & 0x08 == 0 && (output & !(0x08u8 | 0x10u8)) & 0x10 == 0
        && (output & !(0x08u8 | 0x10u8)) & !0x18u8 == output & !0x18u8) by (bit_vector);
}

/// A persistent output is accepted exactly when it is complete, of the first ABI version, raises
/// and pulses only enabled pins, and pulses pins exactly when it has a duration. Only an output
/// without a pulse may cancel.
pub proof fn law_accepted_port_outputs(action: ParallelOutputAction, enabled: u8)
    ensures
        is_output_action(action, enabled) <==> {
            &&& action.struct_size >= 24
            &&& action.abi_version == 1
            &&& action.output_mask < 256
            &&& action.pulse_mask < 256
            &&& action.cancel_pulse == 0 || action.cancel_pulse == 1
            &&& action.pulse_duration_milliseconds == 0 <==> action.pulse_mask == 0
            &&& action.cancel_pulse == 1 ==> action.pulse_duration_milliseconds == 0
            &&& forall|pin: u32|
                pin < 8 && #[trigger] has_pin(action.output_mask, pin) ==> has_pin(
                    enabled as u32,
                    pin,
                )
            &&& forall|pin: u32|
                pin < 8 && #[trigger] has_pin(action.pulse_mask, pin) ==> has_pin(
                    enabled as u32,
                    pin,
                )
        },
{
    let output = action.output_mask as u8;
    let pulse = action.pulse_mask as u8;
    lemma_pins_within(output, enabled);
    lemma_pins_within(pulse, enabled);
    assert(action.output_mask <= 0xff ==> output as u32 == action.output_mask);
    assert(action.pulse_mask <= 0xff ==> pulse as u32 == action.pulse_mask);
}

/// A timed inversion is accepted exactly when it is complete, of the first ABI version, and selects
/// enabled pins exactly when it has a duration. Only one without a duration may cancel.
pub proof fn law_accepted_port_pulses(action: ParallelInvertingPulseAction, enabled: u8)
    ensures
        is_pulse_action(action, enabled) <==> {
            &&& action.struct_size >= 20
            &&& action.abi_version == 1
            &&& action.invert_mask < 256
            &&& action.cancel_pulse == 0 || action.cancel_pulse == 1
            &&& action.pulse_duration_milliseconds == 0 <==> action.invert_mask == 0
            &&& action.cancel_pulse == 1 ==> action.pulse_duration_milliseconds == 0
            &&& forall|pin: u32|
                pin < 8 && #[trigger] has_pin(action.invert_mask, pin) ==> has_pin(
                    enabled as u32,
                    pin,
                )
        },
{
    let mask = action.invert_mask as u8;
    lemma_pins_within(mask, enabled);
    assert(action.invert_mask <= 0xff ==> mask as u32 == action.invert_mask);
}

/// A scheduled inversion is accepted exactly when it is complete, of the first ABI version, selects
/// enabled pins only and none of them both for inversion and for cancellation, and has a duration
/// exactly when a pin is to be inverted.
pub proof fn law_accepted_port_schedules(
    action: ParallelScheduledInvertingPulseAction,
    enabled: u8,
)
    ensures
        is_schedule_action(action, enabled) <==> {
            &&& action.struct_size >= 20
            &&& action.abi_version == 1
            &&& action.invert_mask < 256
            &&& action.cancel_mask < 256
            &&& action.invert_mask & action.cancel_mask == 0
            &&& action.pulse_duration_milliseconds == 0 <==> action.invert_mask == 0
            &&& forall|pin: u32|
                pin < 8 && #[trigger] has_pin(action.invert_mask, pin) ==> has_pin(
                    enabled as u32,
                    pin,
                )
            &&& forall|pin: u32|
                pin < 8 && #[trigger] has_pin(action.cancel_mask, pin) ==> has_pin(
                    enabled as u32,
                    pin,
                )
        },
{
    let invert = action.invert_mask as u8;
    let cancel = action.cancel_mask as u8;
    lemma_pins_within(invert, enabled);
    lemma_pins_within(cancel, enabled);
    lemma_byte_parts_within(invert, cancel, enabled);
    assert(action.invert_mask <= 0xff ==> invert as u32 == action.invert_mask);
    assert(action.cancel_mask <= 0xff ==> cancel as u32 == action.cancel_mask);
}

/// The board behind an accepted persistent output.
pub open spec fn with_output_action(board: OutputBoardView, action: ParallelOutputAction) ->
    OutputBoardView {
    let published = board.with_outputs(action.output_mask);
    if action.pulse_duration_milliseconds != 0 || action.cancel_pulse != 0 {
        published.with_pulse(action.pulse_mask, action.pulse_duration_milliseconds, false)
    } else {
        published
    }
}

/// An accepted persistent output is the whole baseline from then on, and its pulse raises exactly
/// the pins that it selects, from the service cycle that observes it until its duration has
/// passed.
pub proof fn law_port_pulse_raises_the_selected_pins(
    engine: PulseEngineView,
    board: OutputBoardView,
    action: ParallelOutputAction,
    enabled: u8,
    now: u64,
    later: u64,
    bit: u32,
)
    requires
        is_output_action(action, enabled),
        action.pulse_duration_milliseconds != 0,
        now <= later,
        bit < 32,
        engine.timed.observed_generation == board.pulse_generation,
        in_step(engine.scheduled, board),
        board.generations.len() == 32,
        forall|index: int| 0 <= index < 32 ==> #[trigger] engine.scheduled.deadlines[index] is None,
    ensures
        ({
            let published = with_output_action(board, action);
            let output = engine.serviced(published, now).effective(published, later);
            let live = later < now + action.pulse_duration_milliseconds * 1_000_000;
            &&& has_pin(output, bit) == (has_pin(action.output_mask, bit) || (live && has_pin(
                action.pulse_mask,
                bit,
            )))
            &&& published.desired_outputs == action.output_mask
        }),
{
    let replaced = board.with_outputs(action.output_mask);
    lemma_byte_is_no_request_flag(action.pulse_mask);
    law_pulse_shapes_and_restores_the_baseline(
        engine,
        replaced,
        action.pulse_mask,
        action.pulse_duration_milliseconds,
        false,
        now,
        later,
    );
    lemma_or_bit(action.output_mask, action.pulse_mask, bit);
}

/// A mask of eight pins leaves the reserved request bit clear.
proof fn lemma_byte_is_no_request_flag(mask: u32)
    requires
        mask < 256,
    ensures
        mask & 0x8000_0000 == 0,
{
    assert(mask & 0x8000_0000u32 == 0) by (bit_vector)
        requires
            mask < 256,
    ;
}

/// A persistent output without a pulse leaves a running pulse alone, unless it cancels it.
pub proof fn law_port_output_without_a_pulse(
    state: TimedPulseState,
    board: OutputBoardView,
    action: ParallelOutputAction,
    enabled: u8,
    baseline: u32,
    now: u64,
    later: u64,
)
    requires
        is_output_action(action, enabled),
        action.pulse_duration_milliseconds == 0,
        state.observed_generation == board.pulse_generation,
    ensures
        ({
            let published = with_output_action(board, action);
            let seen = state.observed(now, published.pulse_generation, published.pulse_request);
            &&& published.desired_outputs == action.output_mask
            &&& published.durations == board.durations
            &&& published.generations == board.generations
            &&& action.cancel_pulse == 1 ==> seen.output(baseline, later) == baseline
            &&& action.cancel_pulse == 0 ==> seen == state
        }),
{
    lemma_empty_word_is_neutral(baseline);
    lemma_byte_is_no_request_flag(action.pulse_mask);
    law_timed_request_round_trips(action.pulse_mask, 0, false);
}

/// The board behind an accepted timed inversion.
pub open spec fn with_pulse_action(board: OutputBoardView, action: ParallelInvertingPulseAction) ->
    OutputBoardView {
    if action.pulse_duration_milliseconds != 0 || action.cancel_pulse != 0 {
        board.with_pulse(action.invert_mask, action.pulse_duration_milliseconds, true)
    } else {
        board
    }
}

/// An accepted timed inversion flips exactly the pins that it selects, from the service cycle that
/// observes it until its duration has passed; the baseline itself stays.
pub proof fn law_port_pulse_flips_the_selected_pins(
    engine: PulseEngineView,
    board: OutputBoardView,
    action: ParallelInvertingPulseAction,
    enabled: u8,
    now: u64,
    later: u64,
    bit: u32,
)
    requires
        is_pulse_action(action, enabled),
        action.pulse_duration_milliseconds != 0,
        now <= later,
        bit < 32,
        engine.timed.observed_generation == board.pulse_generation,
        in_step(engine.scheduled, board),
        board.generations.len() == 32,
        forall|index: int| 0 <= index < 32 ==> #[trigger] engine.scheduled.deadlines[index] is None,
    ensures
        ({
            let published = with_pulse_action(board, action);
            let output = engine.serviced(published, now).effective(published, later);
            let live = later < now + action.pulse_duration_milliseconds * 1_000_000;
            &&& has_pin(output, bit) == (has_pin(board.desired_outputs, bit) != (live && has_pin(
                action.invert_mask,
                bit,
            )))
            &&& published.desired_outputs == board.desired_outputs
        }),
{
    lemma_byte_is_no_request_flag(action.invert_mask);
    law_pulse_shapes_and_restores_the_baseline(
        engine,
        board,
        action.invert_mask,
        action.pulse_duration_milliseconds,
        true,
        now,
        later,
    );
    lemma_xor_bit(board.desired_outputs, action.invert_mask, bit);
}

/// An accepted timed inversion without a duration cancels the running timed pulse if it says so,
/// and otherwise publishes nothing.
pub proof fn law_port_pulse_without_a_duration(
    state: TimedPulseState,
    board: OutputBoardView,
    action: ParallelInvertingPulseAction,
    enabled: u8,
    baseline: u32,
    now: u64,
    later: u64,
)
    requires
        is_pulse_action(action, enabled),
        action.pulse_duration_milliseconds == 0,
        state.observed_generation == board.pulse_generation,
    ensures
        ({
            let published = with_pulse_action(board, action);
            let seen = state.observed(now, published.pulse_generation, published.pulse_request);
            &&& action.cancel_pulse == 1 ==> seen.output(baseline, later) == baseline
            &&& action.cancel_pulse == 0 ==> published == board && seen == state
            &&& published.desired_outputs == board.desired_outputs
        }),
{
    lemma_empty_word_is_neutral(baseline);
    lemma_byte_is_no_request_flag(action.invert_mask);
    law_timed_request_round_trips(action.invert_mask, 0, true);
}

/// The board behind an accepted scheduled inversion.
pub open spec fn with_schedule_action(
    board: OutputBoardView,
    action: ParallelScheduledInvertingPulseAction,
) -> OutputBoardView {
    if action.invert_mask != 0 || action.cancel_mask != 0 {
        board.with_schedule(
            action.invert_mask,
            action.cancel_mask,
            action.pulse_duration_milliseconds,
        )
    } else {
        board
    }
}

/// An accepted scheduled inversion gives a new generation and its duration to exactly the pins that
/// it inverts, and a new generation without a duration to exactly those that it cancels. Nothing
/// else on the board changes.
pub proof fn law_port_schedule_selects_its_pins(
    board: OutputBoardView,
    action: ParallelScheduledInvertingPulseAction,
    enabled: u8,
    bit: u32,
)
    requires
        is_schedule_action(action, enabled),
        bit < 32,
    ensures
        ({
            let next = with_schedule_action(board, action);
            let inverted = has_pin(action.invert_mask, bit);
            let cancelled = has_pin(action.cancel_mask, bit);
            let index = bit as int;
            &&& inverted ==> next.durations[index] == action.pulse_duration_milliseconds
            &&& cancelled && !inverted ==> next.durations[index] == 0
            &&& !inverted && !cancelled ==> next.durations[index] == board.durations[index]
            &&& inverted || cancelled ==> next.generations[index] == (board.generations[index] + 1)
                % 0x1_0000_0000_0000_0000
            &&& !inverted && !cancelled ==> next.generations[index] == board.generations[index]
            &&& next.desired_outputs == board.desired_outputs
            &&& next.pulse_request == board.pulse_request
            &&& next.pulse_generation == board.pulse_generation
        }),
{
    lemma_empty_and_full_words(bit as int);
}

/// The byte in effect is the whole output word in effect.
pub proof fn law_effective_byte_is_the_word(device: ParallelDeviceView, now: u64)
    requires
        device.well_formed(),
    ensures
        effective_byte(device, now) as u32 == device.pulses.effective(device.outputs, now),
{
    law_effective_output_is_confined(device.pulses, device.outputs, device.allowed(), now);
    lemma_confined_word_is_a_byte(
        device.pulses.effective(device.outputs, now),
        device.output_enable_mask,
    );
}

/// A device supports the pins that it has enabled, and no other.
pub proof fn law_supported_pins_are_the_enabled_ones(device: ParallelDeviceView, mask: u8)
    ensures
        device.supports(mask) <==> forall|pin: u32|
            pin < 8 && #[trigger] has_pin(mask as u32, pin) ==> has_pin(
                device.output_enable_mask as u32,
                pin,
            ),
{
    lemma_pins_within(mask, device.output_enable_mask);
}

/// Beginning a service cycle counts the one operation that it asks for and nothing else.
pub proof fn law_begun_port_operations_are_counted(device: ParallelDeviceView, now: u64)
    ensures
        ({
            let (after, step) = device.servicing(now);
            let before = device.status;
            &&& step is Write || step is Read
            &&& after.status.output_apply_count == counted(before.output_apply_count, step is Write)
            &&& after.status.input_read_count == counted(before.input_read_count, step is Read)
            &&& after.status == (ParallelStatus {
                output_apply_count: after.status.output_apply_count,
                input_read_count: after.status.input_read_count,
                ..before
            })
            &&& after.outputs == device.outputs
            &&& after.output_enable_mask == device.output_enable_mask
        }),
{
}

/// Every completed data write is accounted for: a failure is counted, its error is shown until an
/// operation succeeds, and it leaves the applied byte; a success applies the byte. The next
/// operation is counted when it is asked for, and the sampled status stays.
pub proof fn law_completed_port_writes_are_counted(
    device: ParallelDeviceView,
    pending: PendingData,
    outcome: Result<(), i32>,
)
    requires
        pending.next is Close ==> pending.data == 0,
    ensures
        ({
            let (after, step) = device.written(pending, outcome);
            let before = device.status;
            &&& after.status.io_error_count == counted(before.io_error_count, outcome is Err)
            &&& outcome matches Err(error) ==> after.status.last_io_error == error
            &&& outcome is Ok ==> after.status.last_io_error == 0
            &&& outcome is Ok ==> after.status.flushed_outputs == pending.data
            &&& outcome is Err ==> after.status.flushed_outputs == before.flushed_outputs
            &&& after.status.output_apply_count == counted(before.output_apply_count, step is Write)
            &&& after.status.input_read_count == counted(before.input_read_count, step is Read)
            &&& after.status.input_status == before.input_status
            &&& after.status.online == (before.online && pending.next !is Close)
            &&& pending.next is Service && outcome is Ok ==> step is Read
            &&& pending.next !is Close && outcome is Err ==> step == ParallelStep::Done(
                GPIO_IO_ERROR,
            )
            &&& pending.next !is Control || outcome is Err ==> after.outputs == device.outputs
        }),
{
}

/// Every completed status read is accounted for, and ends its cycle. Only a successful one shows
/// another status byte.
pub proof fn law_completed_port_reads_are_counted(
    device: ParallelDeviceView,
    outcome: Result<u8, i32>,
)
    ensures
        ({
            let (after, step) = device.read(outcome);
            let before = device.status;
            &&& after.status.io_error_count == counted(before.io_error_count, outcome is Err)
            &&& outcome matches Err(error) ==> after.status.last_io_error == error
                && after.status.input_status == before.input_status && step == ParallelStep::Done(
                GPIO_IO_ERROR,
            )
            &&& outcome matches Ok(status) ==> after.status.last_io_error == 0
                && after.status.input_status == status && step == ParallelStep::Done(GPIO_OK)
            &&& after.status.flushed_outputs == before.flushed_outputs
            &&& after.status.output_apply_count == before.output_apply_count
            &&& after.status.input_read_count == before.input_read_count
            &&& after.status.online == before.online
            &&& after.outputs == device.outputs
        }),
{
}

/// Going on with a control-plane operation asks for its next byte or ends it, and counts the write
/// that it asks for.
pub proof fn law_control_goes_on_with_its_next_byte(device: ParallelDeviceView, run: ControlRun)
    ensures
        ({
            let (after, step) = device.controlling(run);
            &&& run.position >= run.steps@.len() ==> step == ParallelStep::Done(GPIO_OK) && after
                == device
            &&& run.position < run.steps@.len() ==> {
                &&& step matches ParallelStep::Write(pending)
                &&& pending.data == run.steps@[run.position as int].data
                &&& pending.next == AfterData::Control(run)
                &&& after.status.output_apply_count == counted(
                    device.status.output_apply_count,
                    true,
                )
                &&& after.outputs == device.outputs
            }
        }),
{
}

/// A device that was just opened is online with every counter at zero and nothing applied, and its
/// first cycle writes its initial byte.
pub proof fn law_opened_port_writes_its_initial_byte(enabled: u8, initial: u8, now: u64)
    ensures
        ({
            let opened = ParallelDeviceView {
                output_enable_mask: enabled,
                outputs: OutputBoardView::quiet(initial as u32),
                pulses: PulseEngineView::idle(),
                status: ParallelStatus::opened(),
            };
            let step = opened.servicing(now).1;
            &&& step == ParallelStep::Write(
                PendingData { data: initial, next: AfterData::Service },
            )
            &&& opened.status.flushed_outputs == 0xffff_ffff
            &&& opened.status.online
            &&& opened.status.input_status == 0
            &&& opened.status.output_apply_count == 0
            &&& opened.status.input_read_count == 0
            &&& opened.status.io_error_count == 0
            &&& opened.status.last_io_error == 0
        }),
{
    law_quiet_board_shows_its_output(initial as u32, now);
}

/// Snapshots and statistics are the status as it stands.
pub proof fn law_port_observers_see_the_status(
    status: ParallelStatus,
    snapshot_request: ParallelInputSnapshot,
    stats_request: ParallelStats,
)
    ensures
        ({
            let snapshot = status.snapshot(snapshot_request);
            &&& snapshot.struct_size == snapshot_request.struct_size
            &&& snapshot.abi_version == 1
            &&& snapshot.online == (if status.online { 1u32 } else { 0u32 })
            &&& snapshot.status_mask == status.input_status
        }),
        ({
            let stats = status.statistics(stats_request);
            &&& stats.struct_size == stats_request.struct_size
            &&& stats.abi_version == 1
            &&& stats.input_read_count == status.input_read_count
            &&& stats.output_apply_count == status.output_apply_count
            &&& stats.io_error_count == status.io_error_count
            &&& stats.online == (if status.online { 1u32 } else { 0u32 })
            &&& stats.last_io_error == status.last_io_error
            &&& stats.applied_output_mask == status.flushed_outputs
        }),
{
}

} // verus!
