//! One parallel-port device: what it publishes, what it does next and what it reports.
//!
//! All decisions of the single service owner are here. An operation begins
//! with a `begin_*` call, which returns the first [`ParallelStep`]. The owner
//! performs what the step names and hands the outcome to the matching
//! `complete_*` call, which returns the next step, until a step says that the
//! operation is done.

use vstd::prelude::*;

use crate::abi::{to_flag, ABI_VERSION, GPIO_INVALID_ARGUMENT, GPIO_IO_ERROR, GPIO_OK};
#[allow(unused_imports)]
use crate::abi::flag;
#[allow(unused_imports)]
use crate::bits::{
    lemma_byte_parts_within, lemma_empty_word_is_neutral, lemma_nothing_is_within, wrapping_next,
};
use crate::parallel_abi::{
    ParallelInputSnapshot, ParallelInvertingPulseAction, ParallelOutputAction,
    ParallelScheduledInvertingPulseAction, ParallelStats, PARALLEL_INPUT_SNAPSHOT_SIZE,
    PARALLEL_INVERTING_PULSE_ACTION_SIZE, PARALLEL_OUTPUT_ACTION_SIZE,
    PARALLEL_SCHEDULED_INVERTING_PULSE_ACTION_SIZE, PARALLEL_STATS_SIZE,
};
use crate::parallel_config::ValidatedParallelConfig;
use crate::pulse::{publish_scheduled_pulse, publish_timed_pulse, OutputBoard, PulseEngine};
#[allow(unused_imports)]
use crate::pulse::{OutputBoardView, PulseEngineView};
#[allow(unused_imports)]
use crate::pulse_laws::{
    board_within, engine_within, law_cancelled_pulses_stay_confined,
    law_effective_output_is_confined, law_published_output_stays_confined,
    law_published_pulse_stays_confined, law_published_schedule_stays_confined,
};
use crate::rtx::{
    rtx_program, rtx_words, ControlStep, RtxSerialState, RTX_CONTROL_MASK, RTX_TRANSMIT_MASK,
    RTX_TRANSMIT_POWER_MASK,
};
#[allow(unused_imports)]
use crate::rtx::{program_steps, words_for};

verus! {

/// Four active-low binary channel-select bits.
pub const BINARY_CHANNEL_MASK: u8 = 0xf0;

/// Applied-output value of a device that has not written anything yet.
pub const NOTHING_APPLIED: u32 = u32::MAX;

/// Everything that observers may read of a device.
#[derive(Clone, Copy, Debug)]
pub struct ParallelStatus {
    /// Latest data-register byte successfully applied, or nothing.
    pub flushed_outputs: u32,
    /// Latest status-register byte sampled.
    pub input_status: u32,
    /// Number of data writes attempted.
    pub output_apply_count: u64,
    /// Number of status reads attempted.
    pub input_read_count: u64,
    /// Number of observed failures.
    pub io_error_count: u64,
    /// True only while the selected transport remains open.
    pub online: bool,
    /// Most recent transport error, reset after successful I/O.
    pub last_io_error: i32,
}

impl ParallelStatus {
    /// The status of a device that was just opened.
    pub open spec fn opened() -> Self {
        ParallelStatus {
            flushed_outputs: NOTHING_APPLIED,
            input_status: 0,
            output_apply_count: 0,
            input_read_count: 0,
            io_error_count: 0,
            online: true,
            last_io_error: 0,
        }
    }

    /// The status after a transfer ended, with its error if it failed.
    pub open spec fn noted(self, error: Option<i32>) -> Self {
        match error {
            Some(code) => ParallelStatus {
                io_error_count: wrapping_next(self.io_error_count),
                last_io_error: code,
                ..self
            },
            None => ParallelStatus { last_io_error: 0, ..self },
        }
    }

    /// The snapshot that a caller receives.
    pub open spec fn snapshot(self, request: ParallelInputSnapshot) -> ParallelInputSnapshot {
        ParallelInputSnapshot {
            struct_size: request.struct_size,
            abi_version: ABI_VERSION,
            online: flag(self.online),
            status_mask: self.input_status,
        }
    }

    /// The statistics that a caller receives.
    pub open spec fn statistics(self, request: ParallelStats) -> ParallelStats {
        ParallelStats {
            struct_size: request.struct_size,
            abi_version: ABI_VERSION,
            input_read_count: self.input_read_count,
            output_apply_count: self.output_apply_count,
            io_error_count: self.io_error_count,
            online: flag(self.online),
            last_io_error: self.last_io_error,
            applied_output_mask: self.flushed_outputs,
        }
    }

    /// Record the outcome of one transfer.
    fn record_result(&mut self, error: Option<i32>)
        ensures
            *final(self) == old(self).noted(error),
    {
        match error {
            None => {
                self.last_io_error = 0;
            },
            Some(error) => {
                self.io_error_count = self.io_error_count.wrapping_add(1);
                self.last_io_error = error;
            },
        }
    }

    /// Copy the latest status byte.
    pub fn inputs(&self, snapshot: &mut ParallelInputSnapshot) -> (code: i32)
        ensures
            old(snapshot).struct_size >= PARALLEL_INPUT_SNAPSHOT_SIZE ==> code == GPIO_OK
                && *final(snapshot) == self.snapshot(*old(snapshot)),
            old(snapshot).struct_size < PARALLEL_INPUT_SNAPSHOT_SIZE ==> code
                == GPIO_INVALID_ARGUMENT && *final(snapshot) == *old(snapshot),
    {
        if snapshot.struct_size < PARALLEL_INPUT_SNAPSHOT_SIZE {
            return GPIO_INVALID_ARGUMENT;
        }
        snapshot.abi_version = ABI_VERSION;
        snapshot.online = to_flag(self.online);
        snapshot.status_mask = self.input_status;
        GPIO_OK
    }

    /// Copy the I/O counters and the latest data output.
    pub fn stats(&self, stats: &mut ParallelStats) -> (code: i32)
        ensures
            old(stats).struct_size >= PARALLEL_STATS_SIZE ==> code == GPIO_OK && *final(stats)
                == self.statistics(*old(stats)),
            old(stats).struct_size < PARALLEL_STATS_SIZE ==> code == GPIO_INVALID_ARGUMENT
                && *final(stats) == *old(stats),
    {
        if stats.struct_size < PARALLEL_STATS_SIZE {
            return GPIO_INVALID_ARGUMENT;
        }
        stats.abi_version = ABI_VERSION;
        stats.input_read_count = self.input_read_count;
        stats.output_apply_count = self.output_apply_count;
        stats.io_error_count = self.io_error_count;
        stats.online = to_flag(self.online);
        stats.last_io_error = self.last_io_error;
        stats.applied_output_mask = self.flushed_outputs;
        GPIO_OK
    }
}

/// A control-plane operation between two of its writes.
#[derive(Debug)]
pub struct ControlRun {
    /// All writes of the operation, in order.
    pub steps: Vec<ControlStep>,
    /// The write that is pending or comes next.
    pub position: usize,
}

impl ControlRun {
    /// Every byte stays on enabled pins.
    pub open spec fn well_formed(self, output_enable_mask: u8) -> bool {
        &&& self.position <= self.steps@.len()
        &&& forall|index: int|
            0 <= index < self.steps@.len() ==> (#[trigger] self.steps@[index]).data
                & !output_enable_mask == 0
    }

    /// The operation behind its current write.
    pub open spec fn advanced(self) -> Self {
        ControlRun { steps: self.steps, position: (self.position + 1) as usize }
    }
}

/// What follows a data write.
#[derive(Debug)]
pub enum AfterData {
    /// A service cycle goes on.
    Service,
    /// A control-plane operation goes on.
    Control(ControlRun),
    /// The device is closed.
    Close,
}

/// A data write that the service owner is to perform.
#[derive(Debug)]
pub struct PendingData {
    /// Complete data-register byte.
    pub data: u8,
    /// What the outcome is for.
    pub next: AfterData,
}

impl PendingData {
    /// The byte stays on enabled pins and is the one its purpose calls for.
    pub open spec fn well_formed(self, output_enable_mask: u8) -> bool {
        &&& self.data & !output_enable_mask == 0
        &&& match self.next {
            AfterData::Service => true,
            AfterData::Control(run) => {
                &&& run.well_formed(output_enable_mask)
                &&& run.position < run.steps@.len()
                &&& self.data == run.steps@[run.position as int].data
            },
            AfterData::Close => self.data == 0,
        }
    }
}

/// What the service owner does next.
#[derive(Debug)]
pub enum ParallelStep {
    /// Write one data byte and complete it.
    Write(PendingData),
    /// Read one status byte and complete it.
    Read,
    /// Let the hardware settle and go on with the control-plane operation.
    Settle { multiplier: u32, run: ControlRun },
    /// The operation ended with this result.
    Done(i32),
    /// The device is closed.
    Closed,
}

impl ParallelStep {
    /// The pending operation inside is well formed.
    pub open spec fn well_formed(self, output_enable_mask: u8) -> bool {
        match self {
            ParallelStep::Write(pending) => pending.well_formed(output_enable_mask),
            ParallelStep::Settle { run, .. } => run.well_formed(output_enable_mask),
            _ => true,
        }
    }
}

/// One parallel-port device.
#[derive(Clone, Copy, Debug)]
pub struct ParallelDevice {
    /// Data-register bits available for callers to change.
    pub output_enable_mask: u8,
    /// What publishers ask for.
    pub outputs: OutputBoard,
    /// Service-owner pulse timing.
    pub pulses: PulseEngine,
    /// What observers may read.
    pub status: ParallelStatus,
}

/// One parallel-port device as mathematical values.
#[verifier::ext_equal]
pub struct ParallelDeviceView {
    /// Data-register bits available for callers to change.
    pub output_enable_mask: u8,
    /// What publishers ask for.
    pub outputs: OutputBoardView,
    /// Service-owner pulse timing.
    pub pulses: PulseEngineView,
    /// What observers may read.
    pub status: ParallelStatus,
}

impl View for ParallelDevice {
    type V = ParallelDeviceView;

    open spec fn view(&self) -> ParallelDeviceView {
        ParallelDeviceView {
            output_enable_mask: self.output_enable_mask,
            outputs: self.outputs@,
            pulses: self.pulses@,
            status: self.status,
        }
    }
}

/// Whether a persistent output is well formed and asks for enabled pins only: it pulses pins
/// exactly when it has a duration, and a cancellation does neither.
pub open spec fn is_output_action(action: ParallelOutputAction, output_enable_mask: u8) -> bool {
    &&& action.struct_size >= PARALLEL_OUTPUT_ACTION_SIZE
    &&& action.abi_version == ABI_VERSION
    &&& action.output_mask <= 0xff
    &&& action.pulse_mask <= 0xff
    &&& action.cancel_pulse <= 1
    &&& (action.pulse_mask != 0) == (action.pulse_duration_milliseconds != 0)
    &&& action.cancel_pulse != 0 ==> action.pulse_mask == 0
    &&& action.output_mask as u8 & !output_enable_mask == 0
    &&& action.pulse_mask as u8 & !output_enable_mask == 0
}

/// Whether a timed inversion is well formed and asks for enabled pins only: it selects pins
/// exactly when it has a duration, and a cancellation has neither.
pub open spec fn is_pulse_action(
    action: ParallelInvertingPulseAction,
    output_enable_mask: u8,
) -> bool {
    &&& action.struct_size >= PARALLEL_INVERTING_PULSE_ACTION_SIZE
    &&& action.abi_version == ABI_VERSION
    &&& action.invert_mask <= 0xff
    &&& action.cancel_pulse <= 1
    &&& (action.invert_mask != 0) == (action.pulse_duration_milliseconds != 0)
    &&& action.cancel_pulse != 0 ==> action.invert_mask == 0
    &&& action.invert_mask as u8 & !output_enable_mask == 0
}

/// Whether a scheduled inversion is well formed and asks for enabled pins only: no pin is both
/// scheduled and cancelled, and there is a duration exactly when a pin is scheduled.
pub open spec fn is_schedule_action(
    action: ParallelScheduledInvertingPulseAction,
    output_enable_mask: u8,
) -> bool {
    let schedule = action.invert_mask as u8;
    let cancel = action.cancel_mask as u8;
    &&& action.struct_size >= PARALLEL_SCHEDULED_INVERTING_PULSE_ACTION_SIZE
    &&& action.abi_version == ABI_VERSION
    &&& action.invert_mask <= 0xff
    &&& action.cancel_mask <= 0xff
    &&& schedule & cancel == 0
    &&& (action.invert_mask != 0) == (action.pulse_duration_milliseconds != 0)
    &&& (schedule | cancel) & !output_enable_mask == 0
}

impl ParallelDeviceView {
    /// The output bits that this device may ever drive.
    pub open spec fn allowed(self) -> u32 {
        self.output_enable_mask as u32
    }

    /// Nothing published, pulsing or applied reaches beyond the enabled pins.
    pub open spec fn well_formed(self) -> bool {
        &&& board_within(self.outputs, self.allowed())
        &&& engine_within(self.pulses, self.allowed())
        &&& self.pulses.timed.well_formed()
        &&& self.status.flushed_outputs != NOTHING_APPLIED ==> self.status.flushed_outputs
            & !self.allowed() == 0
    }

    /// The device with its status replaced.
    pub open spec fn with_status(self, status: ParallelStatus) -> Self {
        ParallelDeviceView { status, ..self }
    }

    /// The device with its publications replaced.
    pub open spec fn with_publications(self, outputs: OutputBoardView) -> Self {
        ParallelDeviceView { outputs, ..self }
    }

    /// The device with one more data write attempted.
    pub open spec fn writing(self) -> Self {
        self.with_status(
            ParallelStatus {
                output_apply_count: wrapping_next(self.status.output_apply_count),
                ..self.status
            },
        )
    }

    /// The device with one more status read attempted.
    pub open spec fn reading(self) -> Self {
        self.with_status(
            ParallelStatus {
                input_read_count: wrapping_next(self.status.input_read_count),
                ..self.status
            },
        )
    }

    /// Begin a service cycle: write the byte in effect at `now` unless it was the last one
    /// applied, and sample the status.
    pub open spec fn servicing(self, now: u64) -> (Self, ParallelStep) {
        let target = self.pulses.effective(self.outputs, now) as u8;
        let observed = ParallelDeviceView {
            pulses: self.pulses.serviced(self.outputs, now),
            ..self
        };
        if target as u32 != self.status.flushed_outputs {
            (
                observed.writing(),
                ParallelStep::Write(PendingData { data: target, next: AfterData::Service }),
            )
        } else {
            (observed.reading(), ParallelStep::Read)
        }
    }

    /// Go on with a control-plane operation.
    pub open spec fn controlling(self, run: ControlRun) -> (Self, ParallelStep) {
        if run.position < run.steps@.len() {
            (
                self.writing(),
                ParallelStep::Write(
                    PendingData {
                        data: run.steps@[run.position as int].data,
                        next: AfterData::Control(run),
                    },
                ),
            )
        } else {
            (self, ParallelStep::Done(GPIO_OK))
        }
    }

    /// The device and its next step once a data write has ended.
    pub open spec fn written(self, pending: PendingData, outcome: Result<(), i32>) -> (
        Self,
        ParallelStep,
    ) {
        let noted = self.with_status(
            self.status.noted(
                match outcome {
                    Ok(()) => None,
                    Err(error) => Some(error),
                },
            ),
        );
        let applied = noted.with_status(
            ParallelStatus { flushed_outputs: pending.data as u32, ..noted.status },
        );
        match pending.next {
            AfterData::Service => if outcome is Ok {
                (applied.reading(), ParallelStep::Read)
            } else {
                (noted, ParallelStep::Done(GPIO_IO_ERROR))
            },
            AfterData::Control(run) => if outcome is Err {
                (noted, ParallelStep::Done(GPIO_IO_ERROR))
            } else {
                let retained = applied.with_publications(
                    applied.outputs.with_outputs(pending.data as u32),
                );
                match run.steps@[run.position as int].settle {
                    Some(multiplier) => (
                        retained,
                        ParallelStep::Settle { multiplier, run: run.advanced() },
                    ),
                    None => retained.controlling(run.advanced()),
                }
            },
            AfterData::Close => (
                noted.with_status(
                    ParallelStatus {
                        flushed_outputs: if outcome is Ok {
                            0
                        } else {
                            noted.status.flushed_outputs
                        },
                        online: false,
                        ..noted.status
                    },
                ),
                ParallelStep::Closed,
            ),
        }
    }

    /// The device and its next step once a status read has ended.
    pub open spec fn read(self, outcome: Result<u8, i32>) -> (Self, ParallelStep) {
        match outcome {
            Ok(status) => (
                self.with_status(
                    ParallelStatus {
                        input_status: status as u32,
                        ..self.status.noted(None)
                    },
                ),
                ParallelStep::Done(GPIO_OK),
            ),
            Err(error) => (
                self.with_status(self.status.noted(Some(error))),
                ParallelStep::Done(GPIO_IO_ERROR),
            ),
        }
    }

    /// Whether every bit of `mask` is an enabled pin.
    pub open spec fn supports(self, mask: u8) -> bool {
        mask & !self.output_enable_mask == 0
    }

    /// Whether `next` and `step` begin the control-plane operation made of `steps`.
    pub open spec fn begins_control(
        self,
        steps: Seq<ControlStep>,
        next: Self,
        step: ParallelStep,
    ) -> bool {
        &&& next == self.writing()
        &&& step matches ParallelStep::Write(pending)
        &&& pending.data == steps[0].data
        &&& pending.next matches AfterData::Control(run)
        &&& run.steps@ == steps
        &&& run.position == 0
    }

    /// The data byte of the persistent baseline.
    pub open spec fn baseline(self) -> u8 {
        self.outputs.desired_outputs as u8
    }
}

/// The two writes of a binary channel selection: all select bits high, and those of the channel
/// pulled low.
pub open spec fn channel_steps(output: u8, channel: u8) -> Seq<ControlStep> {
    let released = output | BINARY_CHANNEL_MASK;
    seq![
        ControlStep { data: released, settle: None },
        ControlStep { data: released & !(channel << 4u8), settle: None },
    ]
}

/// A word of allowed bits below 256 is the byte it truncates to.
pub proof fn lemma_confined_word_is_a_byte(word: u32, mask: u8)
    requires
        word & !(mask as u32) == 0,
    ensures
        (word as u8) as u32 == word,
        (word as u8) & !mask == 0,
        word & 0x8000_0000 == 0,
{
    assert((word as u8) as u32 == word && (word as u8) & !mask == 0 && word & 0x8000_0000 == 0)
        by (bit_vector)
        requires
            word & !(mask as u32) == 0,
    ;
}

/// A byte of enabled pins is an allowed word.
proof fn lemma_enabled_byte_is_allowed(byte: u8, mask: u8)
    requires
        byte & !mask == 0,
    ensures
        (byte as u32) & !(mask as u32) == 0,
        (byte as u32) & 0x8000_0000 == 0,
        byte as u32 != NOTHING_APPLIED,
{
    assert((byte as u32) & !(mask as u32) == 0 && (byte as u32) & 0x8000_0000 == 0) by (bit_vector)
        requires
            byte & !mask == 0,
    ;
}

/// Publish persistent data output and an optional timed high pulse without I/O.
pub fn publish_outputs(
    board: &mut OutputBoard,
    output_enable_mask: u8,
    action: &ParallelOutputAction,
) -> (code: i32)
    ensures
        is_output_action(*action, output_enable_mask) ==> code == GPIO_OK && final(board)@ == ({
            let published = old(board)@.with_outputs(action.output_mask);
            if action.pulse_duration_milliseconds != 0 || action.cancel_pulse != 0 {
                published.with_pulse(action.pulse_mask, action.pulse_duration_milliseconds, false)
            } else {
                published
            }
        }),
        !is_output_action(*action, output_enable_mask) ==> code == GPIO_INVALID_ARGUMENT && final(
            board)@ == old(board)@,
        board_within(old(board)@, output_enable_mask as u32) ==> board_within(
            final(board)@,
            output_enable_mask as u32,
        ),
{
    if action.struct_size < PARALLEL_OUTPUT_ACTION_SIZE || action.abi_version != ABI_VERSION
        || action.output_mask > 0xff || action.pulse_mask > 0xff || action.cancel_pulse > 1 || (
    action.cancel_pulse != 0 && (action.pulse_duration_milliseconds != 0 || action.pulse_mask != 0))
        || (action.pulse_duration_milliseconds == 0 && action.pulse_mask != 0) || (
    action.pulse_duration_milliseconds != 0 && action.pulse_mask == 0) {
        return GPIO_INVALID_ARGUMENT;
    }
    let output: u8 = action.output_mask as u8;
    let pulse: u8 = action.pulse_mask as u8;
    if output & !output_enable_mask != 0 || pulse & !output_enable_mask != 0 {
        return GPIO_INVALID_ARGUMENT;
    }
    proof {
        lemma_enabled_byte_is_allowed(output, output_enable_mask);
        lemma_enabled_byte_is_allowed(pulse, output_enable_mask);
        if board_within(board@, output_enable_mask as u32) {
            law_published_output_stays_confined(board@, output_enable_mask as u32, output as u32);
            law_published_pulse_stays_confined(
                board@.with_outputs(output as u32),
                output_enable_mask as u32,
                pulse as u32,
                action.pulse_duration_milliseconds,
                false,
            );
        }
    }
    board.desired_outputs = output as u32;
    if action.pulse_duration_milliseconds != 0 || action.cancel_pulse != 0 {
        publish_timed_pulse(
            &mut board.pulse_request,
            &mut board.pulse_generation,
            pulse as u32,
            action.pulse_duration_milliseconds,
            false,
        );
    }
    GPIO_OK
}

/// Publish a timed baseline-inverting pulse without I/O.
pub fn publish_inverting_pulse(
    board: &mut OutputBoard,
    output_enable_mask: u8,
    action: &ParallelInvertingPulseAction,
) -> (code: i32)
    ensures
        is_pulse_action(*action, output_enable_mask) ==> code == GPIO_OK && final(board)@ == (
        if action.pulse_duration_milliseconds != 0 || action.cancel_pulse != 0 {
            old(board)@.with_pulse(action.invert_mask, action.pulse_duration_milliseconds, true)
        } else {
            old(board)@
        }),
        !is_pulse_action(*action, output_enable_mask) ==> code == GPIO_INVALID_ARGUMENT && final(
            board)@ == old(board)@,
        board_within(old(board)@, output_enable_mask as u32) ==> board_within(
            final(board)@,
            output_enable_mask as u32,
        ),
{
    if action.struct_size < PARALLEL_INVERTING_PULSE_ACTION_SIZE || action.abi_version
        != ABI_VERSION || action.invert_mask > 0xff || action.cancel_pulse > 1 || (
    action.cancel_pulse != 0 && (action.pulse_duration_milliseconds != 0 || action.invert_mask
        != 0)) || (action.cancel_pulse == 0 && ((action.pulse_duration_milliseconds == 0) != (
    action.invert_mask == 0))) {
        return GPIO_INVALID_ARGUMENT;
    }
    let mask: u8 = action.invert_mask as u8;
    if mask & !output_enable_mask != 0 {
        return GPIO_INVALID_ARGUMENT;
    }
    if action.pulse_duration_milliseconds != 0 || action.cancel_pulse != 0 {
        proof {
            lemma_enabled_byte_is_allowed(mask, output_enable_mask);
            if board_within(board@, output_enable_mask as u32) {
                law_published_pulse_stays_confined(
                    board@,
                    output_enable_mask as u32,
                    mask as u32,
                    action.pulse_duration_milliseconds,
                    true,
                );
            }
        }
        publish_timed_pulse(
            &mut board.pulse_request,
            &mut board.pulse_generation,
            mask as u32,
            action.pulse_duration_milliseconds,
            true,
        );
    }
    GPIO_OK
}

/// Schedule independently expiring baseline-inverting pulses without I/O.
pub fn schedule_inverting_pulse(
    board: &mut OutputBoard,
    output_enable_mask: u8,
    action: &ParallelScheduledInvertingPulseAction,
) -> (code: i32)
    ensures
        is_schedule_action(*action, output_enable_mask) ==> code == GPIO_OK && final(board)@ == (
        if action.invert_mask != 0 || action.cancel_mask != 0 {
            old(board)@.with_schedule(
                action.invert_mask,
                action.cancel_mask,
                action.pulse_duration_milliseconds,
            )
        } else {
            old(board)@
        }),
        !is_schedule_action(*action, output_enable_mask) ==> code == GPIO_INVALID_ARGUMENT && final(
            board)@ == old(board)@,
        board_within(old(board)@, output_enable_mask as u32) ==> board_within(
            final(board)@,
            output_enable_mask as u32,
        ),
{
    if action.struct_size < PARALLEL_SCHEDULED_INVERTING_PULSE_ACTION_SIZE || action.abi_version
        != ABI_VERSION || action.invert_mask > 0xff || action.cancel_mask > 0xff {
        return GPIO_INVALID_ARGUMENT;
    }
    let schedule: u8 = action.invert_mask as u8;
    let cancel: u8 = action.cancel_mask as u8;
    if schedule & cancel != 0 || (action.pulse_duration_milliseconds == 0 && schedule != 0) || (
    action.pulse_duration_milliseconds != 0 && schedule == 0) || (schedule | cancel)
        & !output_enable_mask != 0 {
        return GPIO_INVALID_ARGUMENT;
    }
    if schedule != 0 || cancel != 0 {
        proof {
            lemma_byte_parts_within(schedule, cancel, output_enable_mask);
            lemma_enabled_byte_is_allowed(schedule, output_enable_mask);
            if board_within(board@, output_enable_mask as u32) {
                law_published_schedule_stays_confined(
                    board@,
                    output_enable_mask as u32,
                    schedule as u32,
                    cancel as u32,
                    action.pulse_duration_milliseconds,
                );
            }
        }
        publish_scheduled_pulse(
            &mut board.scheduled_pulse_durations,
            &mut board.scheduled_pulse_generations,
            schedule as u32,
            cancel as u32,
            action.pulse_duration_milliseconds,
        );
    }
    GPIO_OK
}

impl ParallelDevice {
    /// Construct one open device.
    pub fn new(config: &ValidatedParallelConfig) -> (device: Self)
        requires
            config.well_formed(),
        ensures
            device@.well_formed(),
            device@ == (ParallelDeviceView {
                output_enable_mask: config.output_enable_mask,
                outputs: OutputBoardView::quiet(config.output_initial_mask as u32),
                pulses: PulseEngineView::idle(),
                status: ParallelStatus::opened(),
            }),
    {
        proof {
            let allowed = config.output_enable_mask as u32;
            lemma_enabled_byte_is_allowed(config.output_initial_mask, config.output_enable_mask);
            lemma_nothing_is_within(allowed, config.output_enable_mask);
        }
        ParallelDevice {
            output_enable_mask: config.output_enable_mask,
            outputs: OutputBoard::new(config.output_initial_mask as u32),
            pulses: PulseEngine::new(),
            status: ParallelStatus {
                flushed_outputs: NOTHING_APPLIED,
                input_status: 0,
                output_apply_count: 0,
                input_read_count: 0,
                io_error_count: 0,
                online: true,
                last_io_error: 0,
            },
        }
    }

    /// Publish persistent data output and an optional timed high pulse without I/O.
    pub fn publish_outputs(&mut self, action: &ParallelOutputAction) -> (code: i32)
        ensures
            is_output_action(*action, old(self).output_enable_mask) ==> code == GPIO_OK && final(
                self)@ == old(self)@.with_publications(
                {
                    let published = old(self)@.outputs.with_outputs(action.output_mask);
                    if action.pulse_duration_milliseconds != 0 || action.cancel_pulse != 0 {
                        published.with_pulse(
                            action.pulse_mask,
                            action.pulse_duration_milliseconds,
                            false,
                        )
                    } else {
                        published
                    }
                },
            ),
            !is_output_action(*action, old(self).output_enable_mask) ==> code
                == GPIO_INVALID_ARGUMENT && final(self)@ == old(self)@,
            old(self)@.well_formed() ==> final(self)@.well_formed(),
    {
        publish_outputs(&mut self.outputs, self.output_enable_mask, action)
    }

    /// Publish a timed baseline-inverting pulse without I/O.
    pub fn publish_inverting_pulse(&mut self, action: &ParallelInvertingPulseAction) -> (code: i32)
        ensures
            is_pulse_action(*action, old(self).output_enable_mask) ==> code == GPIO_OK && final(
                self)@ == old(self)@.with_publications(
                if action.pulse_duration_milliseconds != 0 || action.cancel_pulse != 0 {
                    old(self)@.outputs.with_pulse(
                        action.invert_mask,
                        action.pulse_duration_milliseconds,
                        true,
                    )
                } else {
                    old(self)@.outputs
                },
            ),
            !is_pulse_action(*action, old(self).output_enable_mask) ==> code
                == GPIO_INVALID_ARGUMENT && final(self)@ == old(self)@,
            old(self)@.well_formed() ==> final(self)@.well_formed(),
    {
        publish_inverting_pulse(&mut self.outputs, self.output_enable_mask, action)
    }

    /// Schedule independently expiring baseline-inverting pulses without I/O.
    pub fn schedule_inverting_pulse(&mut self, action: &ParallelScheduledInvertingPulseAction)
        -> (code: i32)
        ensures
            is_schedule_action(*action, old(self).output_enable_mask) ==> code == GPIO_OK && final(
                self)@ == old(self)@.with_publications(
                if action.invert_mask != 0 || action.cancel_mask != 0 {
                    old(self)@.outputs.with_schedule(
                        action.invert_mask,
                        action.cancel_mask,
                        action.pulse_duration_milliseconds,
                    )
                } else {
                    old(self)@.outputs
                },
            ),
            !is_schedule_action(*action, old(self).output_enable_mask) ==> code
                == GPIO_INVALID_ARGUMENT && final(self)@ == old(self)@,
            old(self)@.well_formed() ==> final(self)@.well_formed(),
    {
        schedule_inverting_pulse(&mut self.outputs, self.output_enable_mask, action)
    }

    /// Ask the service owner for one data write.
    fn write_data(&mut self, data: u8, next: AfterData) -> (step: ParallelStep)
        ensures
            final(self)@ == old(self)@.writing(),
            step == ParallelStep::Write(PendingData { data, next }),
    {
        self.status.output_apply_count = self.status.output_apply_count.wrapping_add(1);
        ParallelStep::Write(PendingData { data, next })
    }

    /// Ask the service owner for one status read.
    fn read_status(&mut self) -> (step: ParallelStep)
        ensures
            final(self)@ == old(self)@.reading(),
            step == ParallelStep::Read,
    {
        self.status.input_read_count = self.status.input_read_count.wrapping_add(1);
        ParallelStep::Read
    }

    /// Return whether every selected data-register bit belongs to this device.
    pub fn supports_output_bits(&self, mask: u8) -> (supported: bool)
        ensures
            supported == self@.supports(mask),
    {
        mask & !self.output_enable_mask == 0
    }

    /// Begin one service cycle.
    pub fn begin_service(&mut self, now: u64) -> (step: ParallelStep)
        requires
            old(self)@.well_formed(),
        ensures
            (final(self)@, step) == old(self)@.servicing(now),
            final(self)@.well_formed(),
            step.well_formed(final(self).output_enable_mask),
    {
        proof {
            law_effective_output_is_confined(self@.pulses, self@.outputs, self@.allowed(), now);
            lemma_confined_word_is_a_byte(
                self@.pulses.effective(self@.outputs, now),
                self.output_enable_mask,
            );
        }
        let effective: u32 = self.pulses.effective_output(&self.outputs, now);
        let target: u8 = effective as u8;
        if target as u32 != self.status.flushed_outputs {
            self.write_data(target, AfterData::Service)
        } else {
            self.read_status()
        }
    }

    /// Begin deasserting all data pins before the transport is released.
    pub fn begin_close(&mut self) -> (step: ParallelStep)
        requires
            old(self)@.well_formed(),
        ensures
            final(self)@ == old(self)@.with_publications(
                old(self)@.outputs.with_pulses_cancelled(),
            ).writing(),
            step == ParallelStep::Write(PendingData { data: 0, next: AfterData::Close }),
            final(self)@.well_formed(),
            step.well_formed(final(self).output_enable_mask),
    {
        proof {
            law_cancelled_pulses_stay_confined(self@.outputs, self@.allowed());
            lemma_nothing_is_within(self@.allowed(), self.output_enable_mask);
        }
        self.outputs.cancel_pulses();
        self.write_data(0, AfterData::Close)
    }

    /// Go on with a control-plane operation.
    fn continue_control(&mut self, run: ControlRun) -> (step: ParallelStep)
        requires
            run.well_formed(old(self).output_enable_mask),
        ensures
            (final(self)@, step) == old(self)@.controlling(run),
            old(self)@.well_formed() ==> final(self)@.well_formed(),
            step.well_formed(final(self).output_enable_mask),
    {
        if run.position < run.steps.len() {
            let data: u8 = run.steps[run.position].data;
            self.write_data(data, AfterData::Control(run))
        } else {
            ParallelStep::Done(GPIO_OK)
        }
    }

    /// Begin a control-plane operation.
    fn begin_control(&mut self, steps: Vec<ControlStep>) -> (step: ParallelStep)
        requires
            steps@.len() > 0,
            forall|index: int|
                0 <= index < steps@.len() ==> (#[trigger] steps@[index]).data & !old(
                    self).output_enable_mask == 0,
        ensures
            old(self)@.begins_control(steps@, final(self)@, step),
            old(self)@.well_formed() ==> final(self)@.well_formed(),
            step.well_formed(final(self).output_enable_mask),
    {
        self.continue_control(ControlRun { steps, position: 0 })
    }

    /// Begin one control-plane byte write, which becomes the next baseline.
    pub fn begin_control_write_data(&mut self, data: u32) -> (step: ParallelStep)
        ensures
            data <= 0xff && old(self)@.supports(data as u8) ==> old(self)@.begins_control(
                seq![ControlStep { data: data as u8, settle: None }],
                final(self)@,
                step,
            ),
            data > 0xff || !old(self)@.supports(data as u8) ==> final(self)@ == old(self)@ && step
                == ParallelStep::Done(GPIO_INVALID_ARGUMENT),
            old(self)@.well_formed() ==> final(self)@.well_formed(),
            step.well_formed(final(self).output_enable_mask),
    {
        if data > 0xff {
            return ParallelStep::Done(GPIO_INVALID_ARGUMENT);
        }
        let byte: u8 = data as u8;
        if !self.supports_output_bits(byte) {
            return ParallelStep::Done(GPIO_INVALID_ARGUMENT);
        }
        let mut steps: Vec<ControlStep> = Vec::new();
        steps.push(ControlStep { data: byte, settle: None });
        assert(steps@ =~= seq![ControlStep { data: byte, settle: None }]);
        self.begin_control(steps)
    }

    /// Begin latching a four-bit active-low binary channel selection.
    pub fn begin_set_binary_channel(&mut self, channel: u8) -> (step: ParallelStep)
        requires
            old(self)@.well_formed(),
        ensures
            old(self)@.supports(BINARY_CHANNEL_MASK) ==> old(self)@.begins_control(
                channel_steps(old(self)@.baseline(), channel),
                final(self)@,
                step,
            ),
            !old(self)@.supports(BINARY_CHANNEL_MASK) ==> final(self)@ == old(self)@ && step
                == ParallelStep::Done(GPIO_INVALID_ARGUMENT),
            final(self)@.well_formed(),
            step.well_formed(final(self).output_enable_mask),
    {
        if !self.supports_output_bits(BINARY_CHANNEL_MASK) {
            return ParallelStep::Done(GPIO_INVALID_ARGUMENT);
        }
        let baseline: u8 = self.outputs.desired_outputs as u8;
        let released: u8 = baseline | BINARY_CHANNEL_MASK;
        let selected: u8 = released & !(channel << 4);
        proof {
            let mask = self.output_enable_mask;
            let low = channel << 4u8;
            lemma_confined_word_is_a_byte(self.outputs.desired_outputs, mask);
            assert((baseline | 0xf0) & !mask == 0 && ((baseline | 0xf0) & !low) & !mask == 0)
                by (bit_vector)
                requires
                    baseline & !mask == 0,
                    0xf0 & !mask == 0,
            ;
        }
        let mut steps: Vec<ControlStep> = Vec::new();
        steps.push(ControlStep { data: released, settle: None });
        steps.push(ControlStep { data: selected, settle: None });
        assert(steps@ =~= channel_steps(baseline, channel));
        self.begin_control(steps)
    }

    /// Begin programming the RTX reference and synthesizer registers.
    ///
    /// A zero receive frequency is accepted and does nothing. The protocol also accepts a
    /// transmit-power request, and deliberately holds the power line low.
    pub fn begin_program_rtx(
        &mut self,
        state: &mut RtxSerialState,
        rx_frequency_hz: u32,
        tx_frequency_hz: u32,
        transmitting: u32,
        high_power: u32,
    ) -> (step: ParallelStep)
        requires
            old(self)@.well_formed(),
        ensures
            rx_frequency_hz == 0 ==> final(self)@ == old(self)@ && *final(state) == *old(state)
                && step == ParallelStep::Done(GPIO_OK),
            rx_frequency_hz != 0 && !old(self)@.supports(RTX_CONTROL_MASK) ==> final(self)@ == old(
                self)@ && *final(state) == *old(state) && step == ParallelStep::Done(
                GPIO_INVALID_ARGUMENT,
            ),
            rx_frequency_hz != 0 && old(self)@.supports(RTX_CONTROL_MASK) ==> final(
                state).initialized && old(self)@.begins_control(
                program_steps(
                    old(self)@.baseline(),
                    words_for(rx_frequency_hz, tx_frequency_hz, transmitting != 0),
                    old(state).initialized,
                    transmitting != 0,
                ),
                final(self)@,
                step,
            ),
            final(self)@.well_formed(),
            step.well_formed(final(self).output_enable_mask),
    {
        if rx_frequency_hz == 0 {
            return ParallelStep::Done(GPIO_OK);
        }
        if !self.supports_output_bits(RTX_CONTROL_MASK) {
            return ParallelStep::Done(GPIO_INVALID_ARGUMENT);
        }
        let _ = high_power;
        let words = rtx_words(rx_frequency_hz, tx_frequency_hz, transmitting != 0);
        let baseline: u8 = self.outputs.desired_outputs as u8;
        let ghost initialized = state.initialized;
        let steps: Vec<ControlStep> = rtx_program(baseline, words, state, transmitting != 0);
        proof {
            let mask = self.output_enable_mask;
            lemma_confined_word_is_a_byte(self.outputs.desired_outputs, mask);
            assert forall|index: int| 0 <= index < steps@.len() implies (
            #[trigger] steps@[index]).data & !mask == 0 by {
                crate::rtx_laws::law_programming_keeps_other_pins_and_power_low(
                    baseline,
                    words,
                    initialized,
                    transmitting != 0,
                    index,
                );
                let data = steps@[index].data;
                assert(data & !mask == 0) by (bit_vector)
                    requires
                        data & !0x1fu8 == baseline & !0x1fu8,
                        baseline & !mask == 0,
                        0x1fu8 & !mask == 0,
                ;
            }
        }
        self.begin_control(steps)
    }

    /// Begin clearing only the RTX transmit and power bits, without serial traffic.
    pub fn begin_clear_rtx_transmit(&mut self) -> (step: ParallelStep)
        requires
            old(self)@.well_formed(),
        ensures
            old(self)@.supports(RTX_TRANSMIT_MASK | RTX_TRANSMIT_POWER_MASK)
                ==> old(self)@.begins_control(
                seq![
                    ControlStep {
                        data: old(self)@.baseline() & !(RTX_TRANSMIT_MASK
                            | RTX_TRANSMIT_POWER_MASK),
                        settle: None,
                    },
                ],
                final(self)@,
                step,
            ),
            !old(self)@.supports(RTX_TRANSMIT_MASK | RTX_TRANSMIT_POWER_MASK) ==> final(self)@
                == old(self)@ && step == ParallelStep::Done(GPIO_INVALID_ARGUMENT),
            final(self)@.well_formed(),
            step.well_formed(final(self).output_enable_mask),
    {
        let transmit_mask: u8 = RTX_TRANSMIT_MASK | RTX_TRANSMIT_POWER_MASK;
        if !self.supports_output_bits(transmit_mask) {
            return ParallelStep::Done(GPIO_INVALID_ARGUMENT);
        }
        let baseline: u8 = self.outputs.desired_outputs as u8;
        let output: u8 = baseline & !transmit_mask;
        proof {
            let mask = self.output_enable_mask;
            lemma_confined_word_is_a_byte(self.outputs.desired_outputs, mask);
            assert((baseline & !transmit_mask) & !mask == 0) by (bit_vector)
                requires
                    baseline & !mask == 0,
            ;
        }
        let mut steps: Vec<ControlStep> = Vec::new();
        steps.push(ControlStep { data: output, settle: None });
        assert(steps@ =~= seq![ControlStep { data: output, settle: None }]);
        self.begin_control(steps)
    }

    /// Take the outcome of a data write and say what comes next.
    pub fn complete_write(&mut self, pending: PendingData, outcome: Result<(), i32>) -> (step:
        ParallelStep)
        requires
            old(self)@.well_formed(),
            pending.well_formed(old(self).output_enable_mask),
        ensures
            (final(self)@, step) == old(self)@.written(pending, outcome),
            final(self)@.well_formed(),
            step.well_formed(final(self).output_enable_mask),
    {
        proof {
            let mask = self.output_enable_mask;
            lemma_enabled_byte_is_allowed(pending.data, mask);
            lemma_empty_word_is_neutral(!(mask as u32));
            law_published_output_stays_confined(
                self@.outputs,
                self@.allowed(),
                pending.data as u32,
            );
        }
        let failed: bool = outcome.is_err();
        match outcome {
            Ok(()) => self.status.record_result(None),
            Err(error) => self.status.record_result(Some(error)),
        }
        match pending.next {
            AfterData::Service => {
                if failed {
                    return ParallelStep::Done(GPIO_IO_ERROR);
                }
                self.status.flushed_outputs = pending.data as u32;
                self.read_status()
            },
            AfterData::Control(run) => {
                if failed {
                    return ParallelStep::Done(GPIO_IO_ERROR);
                }
                self.outputs.desired_outputs = pending.data as u32;
                self.status.flushed_outputs = pending.data as u32;
                let settle: Option<u32> = run.steps[run.position].settle;
                assert(run.position < run.steps.len());
                let following = ControlRun { position: run.position + 1, steps: run.steps };
                match settle {
                    Some(multiplier) => ParallelStep::Settle { multiplier, run: following },
                    None => self.continue_control(following),
                }
            },
            AfterData::Close => {
                if !failed {
                    self.status.flushed_outputs = 0;
                }
                self.status.online = false;
                ParallelStep::Closed
            },
        }
    }

    /// Take the end of a settling interval and say what comes next.
    pub fn complete_settle(&mut self, run: ControlRun) -> (step: ParallelStep)
        requires
            old(self)@.well_formed(),
            run.well_formed(old(self).output_enable_mask),
        ensures
            (final(self)@, step) == old(self)@.controlling(run),
            final(self)@.well_formed(),
            step.well_formed(final(self).output_enable_mask),
    {
        self.continue_control(run)
    }

    /// Take the outcome of a status read and say what comes next.
    pub fn complete_read(&mut self, outcome: Result<u8, i32>) -> (step: ParallelStep)
        requires
            old(self)@.well_formed(),
        ensures
            (final(self)@, step) == old(self)@.read(outcome),
            final(self)@.well_formed(),
    {
        match outcome {
            Ok(status) => {
                self.status.record_result(None);
                self.status.input_status = status as u32;
                ParallelStep::Done(GPIO_OK)
            },
            Err(error) => {
                self.status.record_result(Some(error));
                ParallelStep::Done(GPIO_IO_ERROR)
            },
        }
    }

    /// Copy the latest status byte.
    pub fn inputs(&self, snapshot: &mut ParallelInputSnapshot) -> (code: i32)
        ensures
            old(snapshot).struct_size >= PARALLEL_INPUT_SNAPSHOT_SIZE ==> code == GPIO_OK
                && *final(snapshot) == self.status.snapshot(*old(snapshot)),
            old(snapshot).struct_size < PARALLEL_INPUT_SNAPSHOT_SIZE ==> code
                == GPIO_INVALID_ARGUMENT && *final(snapshot) == *old(snapshot),
    {
        self.status.inputs(snapshot)
    }

    /// Copy the I/O counters and the latest data output.
    pub fn stats(&self, stats: &mut ParallelStats) -> (code: i32)
        ensures
            old(stats).struct_size >= PARALLEL_STATS_SIZE ==> code == GPIO_OK && *final(stats)
                == self.status.statistics(*old(stats)),
            old(stats).struct_size < PARALLEL_STATS_SIZE ==> code == GPIO_INVALID_ARGUMENT
                && *final(stats) == *old(stats),
    {
        self.status.stats(stats)
    }
}

} // verus!
