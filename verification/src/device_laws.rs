//! What holds of every CM119 operation, whatever the device answers.

use vstd::prelude::*;

#[allow(unused_imports)]
use crate::abi::{
    flag, DeviceStats, EepromImage, InputSnapshot, GPIO_OK, GPIO_USB_ERROR, HID_REPORT_BYTES,
};
#[allow(unused_imports)]
use crate::bits::has_pin;
#[allow(unused_imports)]
use crate::device::{
    blank_image, stamped_image, with_word, AfterFlush, AfterRead, AfterWrite, Cm119Wiring,
    EepromOperation, EepromTransfer, GpioDeviceView, HidStatus, HidStep, PendingRead,
    PendingWrite,
};
#[allow(unused_imports)]
use crate::eeprom::{
    checksum_holds, is_tuning_word, law_stamped_checksum_is_valid, magic_holds, word_in_report,
    EEPROM_MAGIC,
};
#[allow(unused_imports)]
use crate::profile::{
    law_only_ptt_drives_the_ptt_pin, law_packed_inputs_round_trip, law_packed_outputs_round_trip,
    lemma_confined_output_is_packed, packed_output, unpacked_gpio, unpacked_ptt,
    UNFLUSHED_OUTPUT,
};
#[allow(unused_imports)]
use crate::publication_laws::lemma_packed_output_bits;
#[allow(unused_imports)]
use crate::signal_laws::lemma_report_pins;
#[allow(unused_imports)]
use crate::pulse::{OutputBoardView, PulseEngineView};
#[allow(unused_imports)]
use crate::pulse_laws::{
    law_cancelling_all_pulses_restores_the_baseline, law_effective_output_is_confined,
    law_quiet_board_shows_its_output, law_serviced_pulses_keep_their_effect, notices_next_publication,
};

verus! {

/// The output word in effect at `now`.
pub open spec fn effective_outputs(device: GpioDeviceView, now: u64) -> u32 {
    device.pulses.effective(device.outputs, now)
}

/// The word in effect is always a packed word of permitted pins, never the unflushed sentinel.
pub proof fn law_effective_outputs_are_permitted(device: GpioDeviceView, now: u64)
    requires
        device.well_formed(),
    ensures
        effective_outputs(device, now) & !device.wiring.allowed() == 0,
        effective_outputs(device, now) != UNFLUSHED_OUTPUT,
{
    law_effective_output_is_confined(
        device.pulses,
        device.outputs,
        device.wiring.allowed(),
        now,
    );
    let word = effective_outputs(device, now);
    lemma_confined_output_is_packed(word, device.wiring.gpio_output_enable_mask);
    law_packed_outputs_round_trip(unpacked_ptt(word), unpacked_gpio(word));
}

/// An output that was already sent is not sent again; a service cycle only polls.
pub proof fn law_unchanged_output_is_not_resent(device: GpioDeviceView, now: u64)
    requires
        device.flushed_outputs == effective_outputs(device, now),
    ensures
        ({
            let (next, step) = device.flushing(now, AfterFlush::PollInputs { closing: false });
            &&& step == HidStep::Read(PendingRead { next: AfterRead::Inputs { closing: false } })
            &&& next.status.output_apply_count == device.status.output_apply_count
        }),
{
}

/// Every output report that a service cycle sends keys the PTT pin exactly when the logical PTT
/// state and its polarity say so, and drives no pin that was not enabled.
pub proof fn law_sent_reports_are_safe(wiring: Cm119Wiring, pending: PendingWrite)
    requires
        wiring.well_formed(),
        pending.well_formed(wiring),
        pending.next is Flush,
    ensures
        ({
            let desired = pending.next->desired;
            let ptt = wiring.profile.ptt_mask;
            &&& (pending.report[1] & ptt != 0) == (unpacked_ptt(desired) != wiring.ptt_inverted)
            &&& pending.report[1] & !ptt & !wiring.gpio_output_enable_mask == 0
        }),
{
    let desired = pending.next->desired;
    law_only_ptt_drives_the_ptt_pin(
        wiring.profile,
        wiring.ptt_inverted,
        wiring.gpio_output_enable_mask,
        desired,
    );
    lemma_confined_output_is_packed(desired, wiring.gpio_output_enable_mask);
}

/// A failed output operation loses nothing: the next cycle at the same instant sends the same
/// report again.
pub proof fn law_failed_flush_is_retried(
    device: GpioDeviceView,
    now: u64,
    closing: bool,
    error: i32,
    later: u64,
)
    requires
        device.outputs.generations.len() == 32,
        device.flushed_outputs != effective_outputs(device, now),
    ensures
        ({
            let next = AfterFlush::PollInputs { closing };
            let (waiting, step) = device.flushing(now, next);
            let (failed, ended) = waiting.written(step->Write_0, Err(error), later);
            let (again, retry) = failed.flushing(now, next);
            &&& step is Write
            &&& ended == HidStep::Done(GPIO_USB_ERROR)
            &&& failed.outputs == device.outputs
            &&& failed.flushed_outputs == device.flushed_outputs
            &&& failed.status.last_usb_error == error
            &&& failed.status.ptt_applied == device.status.ptt_applied
            &&& retry == step
        }),
{
    law_serviced_pulses_keep_their_effect(device.pulses, device.outputs, now, now);
}

/// A successful output operation is remembered, so that the same output is not sent again.
pub proof fn law_successful_flush_is_remembered(
    device: GpioDeviceView,
    now: u64,
    closing: bool,
    later: u64,
)
    requires
        device.outputs.generations.len() == 32,
        device.flushed_outputs != effective_outputs(device, now),
    ensures
        ({
            let next = AfterFlush::PollInputs { closing };
            let (waiting, step) = device.flushing(now, next);
            let (sent, polling) = waiting.written(step->Write_0, Ok(()), later);
            &&& step is Write
            &&& polling is Read
            &&& sent.flushed_outputs == effective_outputs(device, now)
            &&& sent.status.ptt_applied == unpacked_ptt(effective_outputs(device, now))
            &&& sent.status.last_usb_error == 0
            &&& effective_outputs(sent, now) == sent.flushed_outputs
        }),
{
    law_serviced_pulses_keep_their_effect(device.pulses, device.outputs, now, now);
}

/// Closing puts the unkeyed output in effect: either it is sent, or it was the last one sent.
pub proof fn law_close_unkeys(device: GpioDeviceView, now: u64)
    requires
        device.well_formed(),
        notices_next_publication(device.pulses, device.outputs),
    ensures
        ({
            let idle = packed_output(false, unpacked_gpio(device.outputs.desired_outputs));
            let next = AfterFlush::PollInputs { closing: true };
            let (waiting, step) = device.unkeyed().flushing(now, next);
            &&& effective_outputs(device.unkeyed(), now) == idle
            &&& !unpacked_ptt(idle)
            &&& device.flushed_outputs == idle ==> step == HidStep::Read(
                PendingRead { next: AfterRead::Inputs { closing: true } },
            )
            &&& device.flushed_outputs != idle ==> step == HidStep::Write(
                PendingWrite {
                    report: device.wiring.report(idle),
                    next: AfterWrite::Flush { desired: idle, next },
                },
            )
        }),
{
    let gpio = unpacked_gpio(device.outputs.desired_outputs);
    let idle = packed_output(false, gpio);
    law_packed_outputs_round_trip(false, gpio);
    let released = device.outputs.with_outputs(idle);
    assert(released.with_pulses_cancelled() =~= device.unkeyed().outputs);
    law_cancelling_all_pulses_restores_the_baseline(device.pulses, released, now);
}

/// A closing service cycle ends offline whatever its transfers bring.
pub proof fn law_close_ends_offline(
    device: GpioDeviceView,
    desired: u32,
    report: [u8; HID_REPORT_BYTES],
    error: i32,
    outcome: Result<[u8; HID_REPORT_BYTES], i32>,
    now: u64,
)
    ensures
        ({
            let polling = PendingRead { next: AfterRead::Inputs { closing: true } };
            let (closed, step) = device.read(polling, outcome, now);
            step is Done && !closed.status.online
        }),
        ({
            let flush = PendingWrite {
                report,
                next: AfterWrite::Flush {
                    desired,
                    next: AfterFlush::PollInputs { closing: true },
                },
            };
            let (closed, step) = device.written(flush, Err(error), now);
            step is Done && !closed.status.online
        }),
        ({
            let flush = PendingWrite {
                report,
                next: AfterWrite::Flush {
                    desired,
                    next: AfterFlush::PollInputs { closing: true },
                },
            };
            device.written(flush, Ok(()), now).1 == HidStep::Read(
                PendingRead { next: AfterRead::Inputs { closing: true } },
            )
        }),
{
}

/// A polled report shows its active-low COR and CTCSS inputs and its GPIO byte to observers.
pub proof fn law_polled_inputs_are_observed(
    device: GpioDeviceView,
    closing: bool,
    report: [u8; HID_REPORT_BYTES],
    now: u64,
    request: InputSnapshot,
)
    ensures
        ({
            let profile = device.wiring.profile;
            let polling = PendingRead { next: AfterRead::Inputs { closing } };
            let (polled, step) = device.read(polling, Ok(report), now);
            let snapshot = polled.status.snapshot(request);
            &&& step == HidStep::Done(GPIO_OK)
            &&& snapshot.cor_active == flag(
                report[profile.cor_location as int] & profile.cor_mask == 0,
            )
            &&& snapshot.ctcss_active == flag(
                report[profile.ctcss_location as int] & profile.ctcss_mask == 0,
            )
            &&& snapshot.gpio_input_mask == profile.decoded_gpio(
                report,
                device.wiring.cm108ah_hook_gpio2,
            )
            &&& snapshot.hid_report == report
        }),
{
    let profile = device.wiring.profile;
    law_packed_inputs_round_trip(
        report[profile.cor_location as int] & profile.cor_mask == 0,
        report[profile.ctcss_location as int] & profile.ctcss_mask == 0,
        profile.decoded_gpio(report, device.wiring.cm108ah_hook_gpio2),
    );
}

/// The number of HID operations that can still follow, the pending one included.
pub open spec fn operations_left(step: HidStep) -> int {
    match step {
        HidStep::Write(pending) => match pending.next {
            AfterWrite::Flush { next: AfterFlush::PollInputs { .. }, .. } => 2,
            AfterWrite::Flush { next: AfterFlush::FinishEeprom { .. }, .. } => 1,
            AfterWrite::Eeprom(transfer) => match transfer.operation {
                EepromOperation::Read => 2 * (63 - transfer.address) + 3,
                EepromOperation::Program => (63 - transfer.address) + 2,
            },
        },
        HidStep::Read(pending) => match pending.next {
            AfterRead::Inputs { .. } => 1,
            AfterRead::Eeprom(transfer) => 2 * (63 - transfer.address) + 2,
        },
        _ => 0,
    }
}

/// Every completed operation brings the end nearer: no operation runs forever.
pub proof fn law_every_write_makes_progress(
    device: GpioDeviceView,
    pending: PendingWrite,
    outcome: Result<(), i32>,
    now: u64,
)
    requires
        device.wiring.well_formed(),
        pending.well_formed(device.wiring),
    ensures
        0 <= operations_left(device.written(pending, outcome, now).1) < operations_left(
            HidStep::Write(pending),
        ),
{
}

/// Every completed operation brings the end nearer: no operation runs forever.
pub proof fn law_every_read_makes_progress(
    device: GpioDeviceView,
    pending: PendingRead,
    outcome: Result<[u8; HID_REPORT_BYTES], i32>,
    now: u64,
)
    requires
        pending.well_formed(),
    ensures
        0 <= operations_left(device.read(pending, outcome, now).1) < operations_left(
            HidStep::Read(pending),
        ),
{
}

/// A pending EEPROM command reads or programs one word of the user tuning region, and an output
/// flush is no EEPROM command: manufacturer words are never read or written.
pub proof fn law_only_tuning_words_are_addressed(wiring: Cm119Wiring, pending: PendingWrite)
    requires
        pending.well_formed(wiring),
    ensures
        pending.report[0] == 0x80 <==> pending.next is Eeprom,
        pending.report[0] == 0x80 ==> 51 <= pending.report[3] & 0x3f <= 63,
        pending.report[0] != 0x80 ==> pending.report[0] == 0,
{
    if let AfterWrite::Eeprom(transfer) = pending.next {
        lemma_command_address(transfer.address);
    }
}

/// A command names the address it was made for, and says which way the word moves.
proof fn lemma_command_address(address: u8)
    requires
        is_tuning_word(address as int),
    ensures
        (0x80u8 | (address & 0x3f)) & 0x3f == address,
        (0x80u8 | (address & 0x3f)) & 0xc0 == 0x80,
        (0xc0u8 | (address & 0x3f)) & 0x3f == address,
        (0xc0u8 | (address & 0x3f)) & 0xc0 == 0xc0,
        0x80u8 | (address & 0x3f) == 0x80 + address,
        0xc0u8 | (address & 0x3f) == 0xc0 + address,
{
    assert((0x80u8 | (address & 0x3f)) & 0x3f == address && (0x80u8 | (address & 0x3f)) & 0xc0
        == 0x80 && (0xc0u8 | (address & 0x3f)) & 0x3f == address && (0xc0u8 | (address & 0x3f))
        & 0xc0 == 0xc0 && 0x80u8 | (address & 0x3f) == 0x80 + address && 0xc0u8 | (address & 0x3f)
        == 0xc0 + address) by (bit_vector)
        requires
            51 <= address <= 63,
    ;
}

/// A failed EEPROM operation still puts the newest outputs back on the pins, and the failure
/// is what the caller hears.
pub proof fn law_failed_eeprom_traffic_restores_outputs(
    device: GpioDeviceView,
    transfer: EepromTransfer,
    error: i32,
    now: u64,
    outcome: Result<(), i32>,
    later: u64,
)
    requires
        device.well_formed(),
    ensures
        ({
            let desired = effective_outputs(device, now);
            let restoring = PendingWrite {
                report: device.wiring.report(desired),
                next: AfterWrite::Flush {
                    desired,
                    next: AfterFlush::FinishEeprom { transfer, transferred: false },
                },
            };
            let command = PendingWrite {
                report: transfer.command(),
                next: AfterWrite::Eeprom(transfer),
            };
            let answer = PendingRead { next: AfterRead::Eeprom(transfer) };
            let (refused, write_step) = device.written(command, Err(error), now);
            let (silent, read_step) = device.read(answer, Err(error), now);
            &&& write_step == HidStep::Write(restoring)
            &&& read_step == HidStep::Write(restoring)
            &&& refused.written(restoring, outcome, later).1 == (HidStep::EepromDone {
                code: GPIO_USB_ERROR,
                image: transfer.image,
            })
            &&& silent.written(restoring, outcome, later).1 == (HidStep::EepromDone {
                code: GPIO_USB_ERROR,
                image: transfer.image,
            })
        }),
{
    law_effective_outputs_are_permitted(device, now);
}

/// A failed restoration is reported even though every EEPROM word has moved.
pub proof fn law_failed_restoration_is_reported(
    device: GpioDeviceView,
    transfer: EepromTransfer,
    desired: u32,
    report: [u8; HID_REPORT_BYTES],
    error: i32,
    now: u64,
)
    ensures
        device.written(
            PendingWrite {
                report,
                next: AfterWrite::Flush {
                    desired,
                    next: AfterFlush::FinishEeprom { transfer, transferred: true },
                },
            },
            Err(error),
            now,
        ).1 == (HidStep::EepromDone { code: GPIO_USB_ERROR, image: transfer.image }),
{
}

/// An EEPROM behind HID reports: it keeps the words that it was told, and answers with the word
/// that it was last asked for.
#[verifier::ext_equal]
pub struct TuningChip {
    /// All physical words.
    pub words: Seq<u16>,
    /// The word that the next input report carries.
    pub selected: int,
}

impl TuningChip {
    /// The chip after it received an output report.
    pub open spec fn received(self, report: [u8; HID_REPORT_BYTES]) -> Self {
        let address = (report[3] & 0x3f) as int;
        if report[0] != 0x80 {
            self
        } else if report[3] & 0xc0 == 0xc0 {
            TuningChip { words: self.words.update(address, word_in_report(report)), ..self }
        } else if report[3] & 0xc0 == 0x80 {
            TuningChip { selected: address, ..self }
        } else {
            self
        }
    }

    /// The input report that the chip answers with.
    pub open spec fn answer(self) -> [u8; HID_REPORT_BYTES] {
        let word = self.words[self.selected];
        [0, word as u8, (word >> 8) as u8, 0]
    }
}

/// Carry out up to `limit` HID operations against a chip on which every transfer succeeds.
pub open spec fn run(
    device: GpioDeviceView,
    step: HidStep,
    chip: TuningChip,
    clock: spec_fn(nat) -> u64,
    limit: nat,
) -> (GpioDeviceView, HidStep, TuningChip)
    decreases limit,
{
    if limit == 0 {
        (device, step, chip)
    } else {
        match step {
            HidStep::Write(pending) => {
                let (next, following) = device.written(pending, Ok(()), clock(limit));
                run(next, following, chip.received(pending.report), clock, (limit - 1) as nat)
            },
            HidStep::Read(pending) => {
                let (next, following) = device.read(pending, Ok(chip.answer()), clock(limit));
                run(next, following, chip, clock, (limit - 1) as nat)
            },
            _ => (device, step, chip),
        }
    }
}

/// The words of `base` with those from `from` up to the checksum taken from `source`.
pub open spec fn with_tuning_words(base: Seq<u16>, source: Seq<u16>, from: int) -> Seq<u16> {
    Seq::new(
        64,
        |address: int|
            if from <= address <= 63 {
                source[address]
            } else {
                base[address]
            },
    )
}

/// A word survives its trip through two report bytes, the low one first.
proof fn lemma_word_round_trip(value: u16, low: u8, high: u8)
    ensures
        ((value as u8) as u16) | ((((value >> 8) as u8) as u16) << 8) == value,
        (value as u8) + 256 * ((value >> 8) as u8) == value,
        (low as u16) | ((high as u16) << 8) == low + 256 * high,
{
    assert(((value as u8) as u16) | ((((value >> 8) as u8) as u16) << 8) == value && (value as u8)
        + 256 * ((value >> 8) as u8) == value && (low as u16) | ((high as u16) << 8) == low + 256
        * high) by (bit_vector);
}

/// Restoration ends a transfer with the newest outputs sent.
proof fn lemma_restoration_run(
    device: GpioDeviceView,
    transfer: EepromTransfer,
    chip: TuningChip,
    now: u64,
    clock: spec_fn(nat) -> u64,
    limit: nat,
)
    requires
        device.well_formed(),
        limit >= 1,
    ensures
        ({
            let (restoring, step) = device.restoring(transfer, true, now);
            let (end, last, kept) = run(restoring, step, chip, clock, limit);
            &&& last == (HidStep::EepromDone { code: GPIO_OK, image: transfer.finished_image() })
            &&& kept == chip
            &&& end.flushed_outputs == effective_outputs(device, now)
            &&& end.wiring == device.wiring
            &&& end.outputs == device.outputs
            &&& end.well_formed()
        }),
{
    reveal_with_fuel(run, 3);
    law_effective_outputs_are_permitted(device, now);
    law_effective_output_is_confined(
        device.pulses,
        device.outputs,
        device.wiring.allowed(),
        now,
    );
}

/// Programming from `transfer.address` on stores exactly the remaining tuning words.
proof fn lemma_program_run(
    device: GpioDeviceView,
    transfer: EepromTransfer,
    chip: TuningChip,
    clock: spec_fn(nat) -> u64,
    limit: nat,
)
    requires
        device.well_formed(),
        transfer.well_formed(),
        transfer.operation == EepromOperation::Program,
        chip.words.len() == 64,
        limit >= 63 - transfer.address + 2,
    ensures
        ({
            let (waiting, step) = device.transferring(transfer);
            let (end, last, kept) = run(waiting, step, chip, clock, limit);
            &&& last == (HidStep::EepromDone {
                code: GPIO_OK,
                image: (EepromTransfer { address: 63, ..transfer }).finished_image(),
            })
            &&& kept.words == with_tuning_words(
                chip.words,
                transfer.image.words@,
                transfer.address as int,
            )
            &&& end.well_formed()
            &&& end.wiring == device.wiring
            &&& end.outputs == device.outputs
            &&& end.flushed_outputs != UNFLUSHED_OUTPUT
        }),
    decreases 63 - transfer.address,
{
    let value = transfer.image.words[transfer.address as int];
    lemma_word_round_trip(value, 0, 0);
    lemma_command_address(transfer.address);
    let (waiting, step) = device.transferring(transfer);
    let pending = step->Write_0;
    let after = chip.received(pending.report);
    let (sent, following) = waiting.written(pending, Ok(()), clock(limit));
    let counted = waiting.with_status(
        HidStatus {
            last_usb_error: 0,
            eeprom_write_count: crate::bits::wrapping_next(waiting.status.eeprom_write_count),
            ..waiting.status
        },
    );
    assert(run(waiting, step, chip, clock, limit) == run(
        sent,
        following,
        after,
        clock,
        (limit - 1) as nat,
    ));
    assert((sent, following) == counted.transferred(transfer, clock(limit)));
    assert(after.words == chip.words.update(transfer.address as int, value));
    if transfer.address == 63 {
        lemma_restoration_run(
            counted,
            transfer,
            after,
            clock(limit),
            clock,
            (limit - 1) as nat,
        );
        law_effective_outputs_are_permitted(counted, clock(limit));
        assert(after.words =~= with_tuning_words(chip.words, transfer.image.words@, 63));
    } else {
        let rest = EepromTransfer { address: (transfer.address + 1) as u8, ..transfer };
        lemma_program_run(counted, rest, after, clock, (limit - 1) as nat);
        assert(with_tuning_words(after.words, transfer.image.words@, transfer.address + 1)
            =~= with_tuning_words(chip.words, transfer.image.words@, transfer.address as int));
    }
}

/// Reading from `transfer.address` on fills exactly the remaining tuning words.
proof fn lemma_read_run(
    device: GpioDeviceView,
    transfer: EepromTransfer,
    chip: TuningChip,
    clock: spec_fn(nat) -> u64,
    limit: nat,
)
    requires
        device.well_formed(),
        transfer.well_formed(),
        transfer.operation == EepromOperation::Read,
        chip.words.len() == 64,
        limit >= 2 * (63 - transfer.address) + 3,
    ensures
        ({
            let (waiting, step) = device.transferring(transfer);
            let (end, last, kept) = run(waiting, step, chip, clock, limit);
            let words = with_tuning_words(
                transfer.image.words@,
                chip.words,
                transfer.address as int,
            );
            &&& last matches HidStep::EepromDone { code, image }
            &&& code == GPIO_OK
            &&& image.words@ == words
            &&& image.struct_size == transfer.image.struct_size
            &&& image.abi_version == transfer.image.abi_version
            &&& image.checksum_valid == flag(checksum_holds(words))
            &&& image.magic_valid == flag(magic_holds(words))
            &&& kept.words == chip.words
            &&& end.well_formed()
            &&& end.wiring == device.wiring
            &&& end.outputs == device.outputs
            &&& end.flushed_outputs != UNFLUSHED_OUTPUT
        }),
    decreases 63 - transfer.address,
{
    reveal_with_fuel(run, 3);
    let value = chip.words[transfer.address as int];
    lemma_word_round_trip(value, 0, 0);
    lemma_command_address(transfer.address);
    let (waiting, step) = device.transferring(transfer);
    let pending = step->Write_0;
    let asked = chip.received(pending.report);
    let (polling, answer_step) = waiting.written(pending, Ok(()), clock(limit));
    let answer = answer_step->Read_0;
    let rest_limit = (limit - 2) as nat;
    let instant = clock((limit - 1) as nat);
    let (sent, following) = polling.read(answer, Ok(asked.answer()), instant);
    let filled = EepromTransfer {
        image: with_word(transfer.image, transfer.address, value),
        ..transfer
    };
    let counted = polling.with_status(
        HidStatus {
            last_usb_error: 0,
            eeprom_read_count: crate::bits::wrapping_next(polling.status.eeprom_read_count),
            ..polling.status
        },
    );
    assert(asked.selected == transfer.address);
    assert(word_in_report(asked.answer()) == value);
    assert((sent, following) == counted.transferred(filled, instant));
    assert(run(waiting, step, chip, clock, limit) == run(
        sent,
        following,
        asked,
        clock,
        rest_limit,
    ));
    assert(filled.image.words@ == transfer.image.words@.update(transfer.address as int, value));
    if transfer.address == 63 {
        lemma_restoration_run(counted, filled, asked, instant, clock, rest_limit);
        law_effective_outputs_are_permitted(counted, instant);
        assert(filled.image.words@ =~= with_tuning_words(
            transfer.image.words@,
            chip.words,
            63,
        ));
    } else {
        let rest = EepromTransfer { address: (transfer.address + 1) as u8, ..filled };
        lemma_read_run(counted, rest, asked, clock, rest_limit);
        assert(with_tuning_words(filled.image.words@, chip.words, transfer.address + 1)
            =~= with_tuning_words(
            transfer.image.words@,
            chip.words,
            transfer.address as int,
        ));
    }
}

/// On a chip that keeps its words, a programmed image reads back: every tuning word returns, the
/// magic and the checksum are valid, all other words of the chip stay as they were, and the
/// outputs are on the pins again.
pub proof fn law_eeprom_reads_back_what_was_written(
    device: GpioDeviceView,
    image: EepromImage,
    reader: EepromImage,
    chip: TuningChip,
    clock: spec_fn(nat) -> u64,
)
    requires
        device.well_formed(),
        chip.words.len() == 64,
    ensures
        ({
            let (writing, first) = device.transferring(
                EepromTransfer {
                    operation: EepromOperation::Program,
                    image: stamped_image(image),
                    address: 51,
                },
            );
            let (programmed, written, stored) = run(writing, first, chip, clock, 14);
            let (reading, second) = programmed.transferring(
                EepromTransfer {
                    operation: EepromOperation::Read,
                    image: blank_image(reader),
                    address: 51,
                },
            );
            let (end, read, kept) = run(reading, second, stored, clock, 27);
            &&& written matches HidStep::EepromDone { code: write_code, image: write_image }
            &&& write_code == GPIO_OK
            &&& write_image.words == stamped_image(image).words
            &&& write_image.checksum_valid == 1 && write_image.magic_valid == 1
            &&& read matches HidStep::EepromDone { code: read_code, image: read_image }
            &&& read_code == GPIO_OK
            &&& read_image.checksum_valid == 1 && read_image.magic_valid == 1
            &&& forall|address: int|
                0 <= address < 64 ==> #[trigger] read_image.words@[address] == (
                if 51 <= address <= 63 {
                    stamped_image(image).words@[address]
                } else {
                    0
                })
            &&& forall|address: int|
                0 <= address < 51 ==> #[trigger] kept.words[address]
                    == chip.words[address]
            &&& end.flushed_outputs != UNFLUSHED_OUTPUT
        }),
{
    let stamped = stamped_image(image);
    let program = EepromTransfer {
        operation: EepromOperation::Program,
        image: stamped,
        address: 51,
    };
    let retrieve = EepromTransfer {
        operation: EepromOperation::Read,
        image: blank_image(reader),
        address: 51,
    };
    lemma_program_run(device, program, chip, clock, 14);
    let (writing, first) = device.transferring(program);
    let (programmed, written, stored) = run(writing, first, chip, clock, 14);
    lemma_read_run(programmed, retrieve, stored, clock, 27);
    let words = with_tuning_words(blank_image(reader).words@, stored.words, 51);
    law_stamped_image_is_valid(image);
    lemma_tuning_words_decide(words, stamped.words@);
}

/// Whether an image is valid depends on its tuning words alone.
proof fn lemma_tuning_words_decide(left: Seq<u16>, right: Seq<u16>)
    requires
        forall|address: int| 51 <= address <= 63 ==> left[address] == right[address],
    ensures
        checksum_holds(left) == checksum_holds(right),
        magic_holds(left) == magic_holds(right),
{
    crate::eeprom::lemma_sum_frame(left, right, 51, 64);
}

/// A stamped image carries the magic and a valid checksum, and the caller's other words.
pub proof fn law_stamped_image_is_valid(image: EepromImage)
    ensures
        magic_holds(stamped_image(image).words@),
        checksum_holds(stamped_image(image).words@),
        forall|address: int|
            0 <= address < 64 && address != 51 && address != 63
                ==> #[trigger] stamped_image(image).words@[address] == image.words@[address],
{
    let marked = with_word(image, 51, EEPROM_MAGIC);
    law_stamped_checksum_is_valid(marked.words@);
}

/// A counter that was advanced, or not; it starts over behind the largest value.
pub open spec fn counted(count: u64, advanced: bool) -> int {
    if advanced {
        (count + 1) % 0x1_0000_0000_0000_0000
    } else {
        count as int
    }
}

/// Beginning an output flush counts the one operation that it asks for and nothing else.
pub proof fn law_begun_operations_are_counted(device: GpioDeviceView, now: u64, next: AfterFlush)
    requires
        next matches AfterFlush::PollInputs { closing } ==> !closing,
    ensures
        ({
            let (after, step) = device.flushing(now, next);
            let before = device.status;
            &&& after.status.output_apply_count == counted(before.output_apply_count, step is Write)
            &&& after.status.input_read_count == counted(before.input_read_count, step is Read)
            &&& after.status == (HidStatus {
                output_apply_count: after.status.output_apply_count,
                input_read_count: after.status.input_read_count,
                ..before
            })
            &&& after.wiring == device.wiring
            &&& after.outputs == device.outputs
            &&& after.flushed_outputs == device.flushed_outputs
        }),
{
}

/// Every completed output operation is accounted for: a failure is counted and its error shown
/// until a transfer succeeds, the next operation is counted when it is asked for, and a programmed
/// EEPROM word is counted once it was sent. Inputs stay as they were.
pub proof fn law_completed_writes_are_counted(
    device: GpioDeviceView,
    pending: PendingWrite,
    outcome: Result<(), i32>,
    now: u64,
)
    ensures
        ({
            let (after, step) = device.written(pending, outcome, now);
            let before = device.status;
            let programmed = outcome is Ok && (pending.next matches AfterWrite::Eeprom(transfer)
                && transfer.operation == EepromOperation::Program);
            let flushed = outcome is Ok && pending.next is Flush;
            &&& after.status.usb_error_count == counted(before.usb_error_count, outcome is Err)
            &&& outcome matches Err(error) ==> after.status.last_usb_error == error
            &&& outcome is Ok ==> after.status.last_usb_error == 0
            &&& after.status.output_apply_count == counted(before.output_apply_count, step is Write)
            &&& after.status.input_read_count == counted(before.input_read_count, step is Read)
            &&& after.status.eeprom_write_count == counted(before.eeprom_write_count, programmed)
            &&& after.status.eeprom_read_count == before.eeprom_read_count
            &&& after.status.input_state == before.input_state
            &&& after.status.input_report == before.input_report
            &&& flushed ==> after.status.ptt_applied == (pending.next->desired & 1 != 0)
            &&& flushed ==> after.flushed_outputs == pending.next->desired
            &&& !flushed ==> after.status.ptt_applied == before.ptt_applied
            &&& after.outputs == device.outputs
            &&& after.wiring == device.wiring
        }),
{
}

/// Every completed input operation is accounted for in the same way; an EEPROM word is counted
/// once it was received, and inputs change only when a poll succeeds.
pub proof fn law_completed_reads_are_counted(
    device: GpioDeviceView,
    pending: PendingRead,
    outcome: Result<[u8; HID_REPORT_BYTES], i32>,
    now: u64,
)
    ensures
        ({
            let (after, step) = device.read(pending, outcome, now);
            let before = device.status;
            &&& after.status.usb_error_count == counted(before.usb_error_count, outcome is Err)
            &&& outcome matches Err(error) ==> after.status.last_usb_error == error
            &&& outcome is Ok ==> after.status.last_usb_error == 0
            &&& after.status.output_apply_count == counted(before.output_apply_count, step is Write)
            &&& after.status.input_read_count == before.input_read_count
            &&& after.status.eeprom_read_count == counted(
                before.eeprom_read_count,
                outcome is Ok && pending.next is Eeprom,
            )
            &&& after.status.eeprom_write_count == before.eeprom_write_count
            &&& outcome is Err || pending.next is Eeprom ==> after.status.input_state
                == before.input_state && after.status.input_report == before.input_report
            &&& after.status.ptt_applied == before.ptt_applied
            &&& after.outputs == device.outputs
            &&& after.wiring == device.wiring
        }),
{
}

/// A poll that fails ends the cycle with the USB error; a device stays online through every cycle
/// but its closing one.
pub proof fn law_polls_end_a_cycle(
    device: GpioDeviceView,
    closing: bool,
    outcome: Result<[u8; HID_REPORT_BYTES], i32>,
    now: u64,
)
    ensures
        ({
            let polling = PendingRead { next: AfterRead::Inputs { closing } };
            let (after, step) = device.read(polling, outcome, now);
            &&& outcome is Ok ==> step == HidStep::Done(GPIO_OK)
            &&& outcome is Err ==> step == HidStep::Done(GPIO_USB_ERROR)
            &&& closing ==> !after.status.online
            &&& !closing ==> after.status.online == device.status.online
            &&& after.flushed_outputs == device.flushed_outputs
        }),
{
}

/// A device that was just opened is online with every counter at zero, and its first cycle sends
/// its initial GPIO pins with PTT released.
pub proof fn law_opened_device_sends_its_initial_output(
    wiring: Cm119Wiring,
    initial: u8,
    now: u64,
    bit: u32,
)
    requires
        bit < 32,
    ensures
        ({
            let opened = GpioDeviceView {
                wiring,
                outputs: OutputBoardView::quiet(packed_output(false, initial)),
                pulses: PulseEngineView::idle(),
                flushed_outputs: UNFLUSHED_OUTPUT,
                status: HidStatus::opened(),
            };
            let (after, step) = opened.flushing(now, AfterFlush::PollInputs { closing: false });
            let desired = effective_outputs(opened, now);
            &&& has_pin(desired, bit) == (8 <= bit < 16 && has_pin(
                initial as u32,
                (bit - 8) as u32,
            ))
            &&& step matches HidStep::Write(pending)
            &&& pending.report == wiring.report(desired)
            &&& opened.status.online
            &&& !opened.status.ptt_applied
            &&& opened.status.input_state == 0
            &&& opened.status.input_read_count == 0
            &&& opened.status.output_apply_count == 0
            &&& opened.status.usb_error_count == 0
            &&& opened.status.last_usb_error == 0
            &&& opened.status.eeprom_read_count == 0
            &&& opened.status.eeprom_write_count == 0
        }),
{
    law_quiet_board_shows_its_output(packed_output(false, initial), now);
    law_packed_outputs_round_trip(false, initial);
    lemma_packed_output_bits(false, initial, bit);
}

/// EEPROM words move in order, one command each: the command names its word in its last byte and
/// carries the value to program low byte first.
pub proof fn law_commands_name_their_word(transfer: EepromTransfer)
    requires
        51 <= transfer.address <= 63,
    ensures
        ({
            let command = transfer.command();
            let value = transfer.image.words@[transfer.address as int];
            &&& command[0] == 0x80
            &&& transfer.operation == EepromOperation::Read ==> command[1] == 0 && command[2] == 0
                && command[3] == 0x80 + transfer.address
            &&& transfer.operation == EepromOperation::Program ==> command[1] + 256 * command[2]
                == value && command[3] == 0xc0 + transfer.address
        }),
{
    lemma_command_address(transfer.address);
    lemma_word_round_trip(transfer.image.words@[transfer.address as int], 0, 0);
}

/// Behind a word that has moved comes the next one, and behind the last one the output in effect
/// goes back on the pins. A word that was read is stored low byte first and no other word changes.
pub proof fn law_words_move_in_order(
    device: GpioDeviceView,
    transfer: EepromTransfer,
    report: [u8; HID_REPORT_BYTES],
    now: u64,
)
    requires
        device.well_formed(),
        51 <= transfer.address <= 63,
    ensures
        ({
            let command = PendingWrite {
                report: transfer.command(),
                next: AfterWrite::Eeprom(transfer),
            };
            let step = device.written(command, Ok(()), now).1;
            let moved = EepromTransfer { address: (transfer.address + 1) as u8, ..transfer };
            transfer.operation == EepromOperation::Program ==> {
                &&& transfer.address < 63 ==> step == HidStep::Write(
                    PendingWrite { report: moved.command(), next: AfterWrite::Eeprom(moved) },
                )
                &&& transfer.address == 63 ==> step == restoration(device, transfer, now)
            }
        }),
        ({
            let command = PendingWrite {
                report: transfer.command(),
                next: AfterWrite::Eeprom(transfer),
            };
            transfer.operation == EepromOperation::Read ==> device.written(
                command,
                Ok(()),
                now,
            ).1 == HidStep::Read(PendingRead { next: AfterRead::Eeprom(transfer) })
        }),
        ({
            let answer = PendingRead { next: AfterRead::Eeprom(transfer) };
            let step = device.read(answer, Ok(report), now).1;
            let image = with_word(transfer.image, transfer.address, word_in_report(report));
            let filled = EepromTransfer { image, ..transfer };
            let moved = EepromTransfer { address: (transfer.address + 1) as u8, ..filled };
            &&& transfer.address < 63 ==> step == HidStep::Write(
                PendingWrite { report: moved.command(), next: AfterWrite::Eeprom(moved) },
            )
            &&& transfer.address == 63 ==> step == restoration(device, filled, now)
            &&& image.words@[transfer.address as int] == report[1] + 256 * report[2]
            &&& forall|address: int|
                0 <= address < 64 && address != transfer.address
                    ==> #[trigger] image.words@[address] == transfer.image.words@[address]
            &&& image.checksum_valid == transfer.image.checksum_valid
            &&& image.magic_valid == transfer.image.magic_valid
        }),
{
    law_effective_outputs_are_permitted(device, now);
    lemma_word_round_trip(0, report[1], report[2]);
}

/// The step that puts the output in effect back behind a complete transfer.
pub open spec fn restoration(device: GpioDeviceView, transfer: EepromTransfer, now: u64) -> HidStep {
    let desired = effective_outputs(device, now);
    HidStep::Write(
        PendingWrite {
            report: device.wiring.report(desired),
            next: AfterWrite::Flush {
                desired,
                next: AfterFlush::FinishEeprom { transfer, transferred: true },
            },
        },
    )
}

/// A transfer whose words have moved and whose outputs are back succeeds. A read image says whether
/// its checksum and its magic are valid, a programmed one that both are, and no word changes.
pub proof fn law_finished_transfers_succeed(
    device: GpioDeviceView,
    transfer: EepromTransfer,
    desired: u32,
    report: [u8; HID_REPORT_BYTES],
    now: u64,
)
    ensures
        ({
            let pending = PendingWrite {
                report,
                next: AfterWrite::Flush {
                    desired,
                    next: AfterFlush::FinishEeprom { transfer, transferred: true },
                },
            };
            let step = device.written(pending, Ok(()), now).1;
            let words = transfer.image.words@;
            &&& step matches HidStep::EepromDone { code, image }
            &&& code == GPIO_OK
            &&& image.words@ == words
            &&& image.struct_size == transfer.image.struct_size
            &&& image.abi_version == transfer.image.abi_version
            &&& transfer.operation == EepromOperation::Program ==> image.checksum_valid == 1
                && image.magic_valid == 1
            &&& transfer.operation == EepromOperation::Read ==> {
                &&& image.checksum_valid == (if checksum_holds(words) { 1u32 } else { 0u32 })
                &&& image.magic_valid == (if words[51] == 34329 { 1u32 } else { 0u32 })
            }
        }),
{
}

/// A read starts from an image without words and without valid marks; a write programs the
/// caller's words with the magic in front and the checksum behind them.
pub proof fn law_transfers_start_from_these_images(image: EepromImage, address: int)
    requires
        0 <= address < 64,
    ensures
        blank_image(image).words@[address] == 0,
        blank_image(image).checksum_valid == 0,
        blank_image(image).magic_valid == 0,
        blank_image(image).abi_version == 1,
        blank_image(image).struct_size == image.struct_size,
        stamped_image(image).words@[51] == 34329,
        address != 51 && address != 63 ==> stamped_image(image).words@[address]
            == image.words@[address],
        checksum_holds(stamped_image(image).words@),
        stamped_image(image).checksum_valid == image.checksum_valid,
        stamped_image(image).magic_valid == image.magic_valid,
        stamped_image(image).abi_version == image.abi_version,
        stamped_image(image).struct_size == image.struct_size,
{
    law_stamped_image_is_valid(image);
}

/// Statistics are the counters as they stand; the two EEPROM counters only where the caller
/// declared room for them, and otherwise what the caller had there.
pub proof fn law_statistics_show_the_counters(status: HidStatus, request: DeviceStats)
    ensures
        ({
            let stats = status.statistics(request);
            &&& stats.struct_size == request.struct_size
            &&& stats.abi_version == 1
            &&& stats.input_read_count == status.input_read_count
            &&& stats.output_apply_count == status.output_apply_count
            &&& stats.usb_error_count == status.usb_error_count
            &&& stats.ptt_applied == (if status.ptt_applied { 1u32 } else { 0u32 })
            &&& stats.online == (if status.online { 1u32 } else { 0u32 })
            &&& stats.last_usb_error == status.last_usb_error
            &&& request.struct_size >= 64 ==> stats.eeprom_read_count == status.eeprom_read_count
                && stats.eeprom_write_count == status.eeprom_write_count
            &&& request.struct_size < 64 ==> stats.eeprom_read_count == request.eeprom_read_count
                && stats.eeprom_write_count == request.eeprom_write_count
        }),
{
}

/// Closing releases PTT and keeps every GPIO pin as it was published, whatever pulsed before.
pub proof fn law_close_keeps_gpio_pins(device: GpioDeviceView, now: u64, bit: u32)
    requires
        device.well_formed(),
        notices_next_publication(device.pulses, device.outputs),
        bit < 32,
    ensures
        has_pin(effective_outputs(device.unkeyed(), now), bit) == (8 <= bit < 16 && has_pin(
            device.outputs.desired_outputs,
            bit,
        )),
{
    let desired = device.outputs.desired_outputs;
    law_close_unkeys(device, now);
    lemma_packed_output_bits(false, unpacked_gpio(desired), bit);
    if 8 <= bit < 16 {
        lemma_report_pins(desired, 0, 0, 0, (bit - 8) as u32);
    }
}

} // verus!
