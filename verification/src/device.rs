//! One CM119 device: what it publishes, what it does next and what it reports.
//!
//! All decisions of the single service owner are here. An operation begins
//! with a `begin_*` call, which returns the first [`HidStep`]. The owner
//! performs the HID transfer that the step names and hands its outcome to
//! [`GpioDevice::complete_write`] or [`GpioDevice::complete_read`], which
//! returns the next step, until a step says that the operation is done.

use vstd::prelude::*;

use crate::abi::{
    to_flag, DeviceStats, EepromImage, InputSnapshot, InvertingPulseAction, OutputAction,
    ScheduledInvertingPulseAction, ABI_VERSION, DEVICE_STATS_PREFIX_SIZE, DEVICE_STATS_SIZE,
    EEPROM_IMAGE_SIZE, EEPROM_WORD_COUNT, GPIO_INVALID_ARGUMENT, GPIO_OK, GPIO_USB_ERROR,
    HID_REPORT_BYTES, INPUT_SNAPSHOT_SIZE,
};
#[allow(unused_imports)]
use crate::abi::flag;
#[allow(unused_imports)]
use crate::bits::{lemma_nothing_is_within, wrapping_next};
use crate::config::ValidatedConfig;
use crate::eeprom::{
    eeprom_checksum_is_valid, eeprom_checksum_word, eeprom_read_command, eeprom_word_from_report,
    eeprom_write_command, EEPROM_CHECKSUM_WORD, EEPROM_MAGIC, EEPROM_MAGIC_WORD,
    EEPROM_START_WORD,
};
#[allow(unused_imports)]
use crate::eeprom::{
    checksum_holds, checksum_of, is_tuning_word, magic_holds, read_command, word_in_report,
    write_command,
};
use crate::identity::CM108AH_PRODUCT_ID;
use crate::profile::{
    pack_output, unpack_gpio, Cm119Profile, INPUT_COR_BIT, INPUT_CTCSS_BIT, INPUT_GPIO_SHIFT,
    OUTPUT_PTT_BIT, UNFLUSHED_OUTPUT,
};
#[allow(unused_imports)]
use crate::profile::{
    allowed_outputs, lemma_confined_output_is_packed, packed_output, unpacked_gpio, unpacked_ptt,
};
use crate::publication;
#[allow(unused_imports)]
use crate::publication::{
    cancel_word, is_output_action, is_pulse_action, is_schedule_action,
    lemma_permitted_word_is_allowed, output_word, pulse_is_published, pulse_word, schedule_word,
};
use crate::pulse::{OutputBoard, PulseEngine};
#[allow(unused_imports)]
use crate::pulse::{OutputBoardView, PulseEngineView};
#[allow(unused_imports)]
use crate::pulse_laws::{
    board_within, engine_within, law_cancelled_pulses_stay_confined,
    law_effective_output_is_confined,
};

verus! {

/// Immutable wiring of one opened device.
#[derive(Clone, Copy, Debug)]
pub struct Cm119Wiring {
    /// Wiring map selected before the device opens.
    pub profile: Cm119Profile,
    /// Whether the CM108AH HOOK input stands for logical GPIO2.
    pub cm108ah_hook_gpio2: bool,
    /// Ordinary GPIO bits that the configuration permits to change.
    pub gpio_output_enable_mask: u8,
    /// Logical PTT polarity.
    pub ptt_inverted: bool,
}

impl Cm119Wiring {
    /// Only pins that the profile exposes are enabled.
    pub open spec fn well_formed(self) -> bool {
        &&& self.profile.well_formed()
        &&& self.gpio_output_enable_mask & !self.profile.valid_gpio_mask == 0
    }

    /// The output bits that this wiring may ever drive.
    pub open spec fn allowed(self) -> u32 {
        allowed_outputs(self.gpio_output_enable_mask)
    }

    /// The report that puts a packed output word on the pins.
    pub open spec fn report(self, packed: u32) -> [u8; HID_REPORT_BYTES] {
        self.profile.encoded_outputs(self.ptt_inverted, self.gpio_output_enable_mask, packed)
    }
}

/// Everything that observers may read of a device.
#[derive(Clone, Copy, Debug)]
pub struct HidStatus {
    /// Latest decoded COR, CTCSS and GPIO input word.
    pub input_state: u32,
    /// Complete latest raw HID input report.
    pub input_report: [u8; HID_REPORT_BYTES],
    /// Number of HID input operations attempted.
    pub input_read_count: u64,
    /// Number of HID output operations attempted.
    pub output_apply_count: u64,
    /// Number of failed HID operations.
    pub usb_error_count: u64,
    /// Latest successfully applied logical PTT state.
    pub ptt_applied: bool,
    /// True only while the exclusive HID interface is owned.
    pub online: bool,
    /// Last transfer error, reset to zero after a successful transfer.
    pub last_usb_error: i32,
    /// EEPROM words successfully read.
    pub eeprom_read_count: u64,
    /// EEPROM words successfully programmed.
    pub eeprom_write_count: u64,
}

impl HidStatus {
    /// The status of a device that was just opened.
    pub open spec fn opened() -> Self {
        HidStatus {
            input_state: 0,
            input_report: [0, 0, 0, 0],
            input_read_count: 0,
            output_apply_count: 0,
            usb_error_count: 0,
            ptt_applied: false,
            online: true,
            last_usb_error: 0,
            eeprom_read_count: 0,
            eeprom_write_count: 0,
        }
    }

    /// The status after a transfer ended, with its error if it failed.
    pub open spec fn noted(self, error: Option<i32>) -> Self {
        match error {
            Some(code) => HidStatus {
                usb_error_count: wrapping_next(self.usb_error_count),
                last_usb_error: code,
                ..self
            },
            None => HidStatus { last_usb_error: 0, ..self },
        }
    }

    /// The snapshot that a caller receives.
    pub open spec fn snapshot(self, request: InputSnapshot) -> InputSnapshot {
        InputSnapshot {
            struct_size: request.struct_size,
            abi_version: ABI_VERSION,
            online: flag(self.online),
            cor_active: flag(self.input_state & INPUT_COR_BIT != 0),
            ctcss_active: flag(self.input_state & INPUT_CTCSS_BIT != 0),
            gpio_input_mask: self.input_state >> INPUT_GPIO_SHIFT,
            hid_report: self.input_report,
        }
    }

    /// The statistics that a caller receives; the EEPROM counters only where there is room.
    pub open spec fn statistics(self, request: DeviceStats) -> DeviceStats {
        DeviceStats {
            struct_size: request.struct_size,
            abi_version: ABI_VERSION,
            input_read_count: self.input_read_count,
            output_apply_count: self.output_apply_count,
            usb_error_count: self.usb_error_count,
            ptt_applied: flag(self.ptt_applied),
            online: flag(self.online),
            last_usb_error: self.last_usb_error,
            eeprom_read_count: if request.struct_size >= DEVICE_STATS_SIZE {
                self.eeprom_read_count
            } else {
                request.eeprom_read_count
            },
            eeprom_write_count: if request.struct_size >= DEVICE_STATS_SIZE {
                self.eeprom_write_count
            } else {
                request.eeprom_write_count
            },
        }
    }

    /// Remember one failed HID operation.
    fn note_usb_error(&mut self, error: i32)
        ensures
            *final(self) == old(self).noted(Some(error)),
    {
        self.usb_error_count = self.usb_error_count.wrapping_add(1);
        self.last_usb_error = error;
    }

    /// Record a successful HID operation.
    fn note_usb_success(&mut self)
        ensures
            *final(self) == old(self).noted(None),
    {
        self.last_usb_error = 0;
    }

    /// Copy the latest input report.
    pub fn inputs(&self, snapshot: &mut InputSnapshot) -> (code: i32)
        ensures
            old(snapshot).struct_size >= INPUT_SNAPSHOT_SIZE ==> code == GPIO_OK && *final(snapshot)
                == self.snapshot(*old(snapshot)),
            old(snapshot).struct_size < INPUT_SNAPSHOT_SIZE ==> code == GPIO_INVALID_ARGUMENT
                && *final(snapshot) == *old(snapshot),
    {
        if snapshot.struct_size < INPUT_SNAPSHOT_SIZE {
            return GPIO_INVALID_ARGUMENT;
        }
        let state: u32 = self.input_state;
        snapshot.abi_version = ABI_VERSION;
        snapshot.online = to_flag(self.online);
        snapshot.cor_active = to_flag(state & INPUT_COR_BIT != 0);
        snapshot.ctcss_active = to_flag(state & INPUT_CTCSS_BIT != 0);
        snapshot.gpio_input_mask = state >> INPUT_GPIO_SHIFT;
        snapshot.hid_report = self.input_report;
        GPIO_OK
    }

    /// Copy the service statistics.
    pub fn stats(&self, stats: &mut DeviceStats) -> (code: i32)
        ensures
            old(stats).struct_size >= DEVICE_STATS_PREFIX_SIZE ==> code == GPIO_OK && *final(stats)
                == self.statistics(*old(stats)),
            old(stats).struct_size < DEVICE_STATS_PREFIX_SIZE ==> code == GPIO_INVALID_ARGUMENT
                && *final(stats) == *old(stats),
    {
        if stats.struct_size < DEVICE_STATS_PREFIX_SIZE {
            return GPIO_INVALID_ARGUMENT;
        }
        stats.abi_version = ABI_VERSION;
        stats.input_read_count = self.input_read_count;
        stats.output_apply_count = self.output_apply_count;
        stats.usb_error_count = self.usb_error_count;
        stats.ptt_applied = to_flag(self.ptt_applied);
        stats.online = to_flag(self.online);
        stats.last_usb_error = self.last_usb_error;
        if stats.struct_size >= DEVICE_STATS_SIZE {
            stats.eeprom_read_count = self.eeprom_read_count;
            stats.eeprom_write_count = self.eeprom_write_count;
        }
        GPIO_OK
    }
}

/// Which way an EEPROM transfer moves its words.
#[derive(Clone, Copy, Debug, PartialEq, Eq, Structural)]
pub enum EepromOperation {
    /// Words travel from the device into the image.
    Read,
    /// Words travel from the image to the device.
    Program,
}

/// An EEPROM transfer between two of its HID operations.
#[derive(Clone, Copy, Debug)]
pub struct EepromTransfer {
    /// Direction of the transfer.
    pub operation: EepromOperation,
    /// The caller's image so far.
    pub image: EepromImage,
    /// The word that the pending HID operation moves.
    pub address: u8,
}

impl EepromTransfer {
    /// A transfer only ever addresses the user tuning region.
    pub open spec fn well_formed(self) -> bool {
        is_tuning_word(self.address as int)
    }

    /// The output report that starts moving the current word.
    pub open spec fn command(self) -> [u8; HID_REPORT_BYTES] {
        match self.operation {
            EepromOperation::Read => read_command(self.address),
            EepromOperation::Program => write_command(
                self.address,
                self.image.words[self.address as int],
            ),
        }
    }

    /// The image once every word has moved and the outputs are back.
    pub open spec fn finished_image(self) -> EepromImage {
        match self.operation {
            EepromOperation::Read => EepromImage {
                checksum_valid: flag(checksum_holds(self.image.words@)),
                magic_valid: flag(magic_holds(self.image.words@)),
                ..self.image
            },
            EepromOperation::Program => EepromImage {
                checksum_valid: 1,
                magic_valid: 1,
                ..self.image
            },
        }
    }
}

/// What follows an output flush.
#[derive(Clone, Copy, Debug)]
pub enum AfterFlush {
    /// Poll one input report; a closing device goes offline behind it.
    PollInputs { closing: bool },
    /// Report an EEPROM transfer, whose words have all moved if `transferred`.
    FinishEeprom { transfer: EepromTransfer, transferred: bool },
}

/// What follows a HID output operation.
#[derive(Clone, Copy, Debug)]
pub enum AfterWrite {
    /// The output word `desired` was sent.
    Flush { desired: u32, next: AfterFlush },
    /// An EEPROM command was sent.
    Eeprom(EepromTransfer),
}

/// What follows a HID input operation.
#[derive(Clone, Copy, Debug)]
pub enum AfterRead {
    /// The report holds logical inputs.
    Inputs { closing: bool },
    /// The report holds an EEPROM word.
    Eeprom(EepromTransfer),
}

/// A HID output operation that the service owner is to perform.
#[derive(Clone, Copy, Debug)]
pub struct PendingWrite {
    /// The report to submit.
    pub report: [u8; HID_REPORT_BYTES],
    /// What the outcome is for.
    pub next: AfterWrite,
}

/// A HID input operation that the service owner is to perform.
#[derive(Clone, Copy, Debug)]
pub struct PendingRead {
    /// What the outcome is for.
    pub next: AfterRead,
}

/// What the service owner does next.
#[derive(Clone, Copy, Debug)]
pub enum HidStep {
    /// Submit one output report and complete it.
    Write(PendingWrite),
    /// Read one input report and complete it.
    Read(PendingRead),
    /// The operation ended with this result.
    Done(i32),
    /// The EEPROM operation ended with this result and image.
    EepromDone { code: i32, image: EepromImage },
}

impl AfterFlush {
    /// A transfer inside is well formed.
    pub open spec fn well_formed(self) -> bool {
        self matches AfterFlush::FinishEeprom { transfer, .. } ==> transfer.well_formed()
    }
}

impl PendingWrite {
    /// The report is the one its purpose calls for, and only allowed outputs are flushed.
    pub open spec fn well_formed(self, wiring: Cm119Wiring) -> bool {
        match self.next {
            AfterWrite::Flush { desired, next } => {
                &&& desired & !wiring.allowed() == 0
                &&& self.report == wiring.report(desired)
                &&& next.well_formed()
            },
            AfterWrite::Eeprom(transfer) => {
                &&& transfer.well_formed()
                &&& self.report == transfer.command()
            },
        }
    }
}

impl PendingRead {
    /// A word is only read back for a read transfer of the tuning region.
    pub open spec fn well_formed(self) -> bool {
        self.next matches AfterRead::Eeprom(transfer) ==> transfer.well_formed()
            && transfer.operation == EepromOperation::Read
    }
}

impl HidStep {
    /// The pending operation inside is well formed.
    pub open spec fn well_formed(self, wiring: Cm119Wiring) -> bool {
        match self {
            HidStep::Write(pending) => pending.well_formed(wiring),
            HidStep::Read(pending) => pending.well_formed(),
            _ => true,
        }
    }
}

/// The error of a transfer, if it failed.
pub open spec fn error_of<T>(outcome: Result<T, i32>) -> Option<i32> {
    match outcome {
        Ok(_) => None,
        Err(error) => Some(error),
    }
}

/// One CM119 device.
#[derive(Clone, Copy, Debug)]
pub struct GpioDevice {
    /// Immutable wiring.
    pub wiring: Cm119Wiring,
    /// What publishers ask for.
    pub outputs: OutputBoard,
    /// Service-owner pulse timing.
    pub pulses: PulseEngine,
    /// Latest output word sent, or the unflushed sentinel.
    pub flushed_outputs: u32,
    /// What observers may read.
    pub status: HidStatus,
}

/// One CM119 device as mathematical values.
#[verifier::ext_equal]
pub struct GpioDeviceView {
    /// Immutable wiring.
    pub wiring: Cm119Wiring,
    /// What publishers ask for.
    pub outputs: OutputBoardView,
    /// Service-owner pulse timing.
    pub pulses: PulseEngineView,
    /// Latest output word sent, or the unflushed sentinel.
    pub flushed_outputs: u32,
    /// What observers may read.
    pub status: HidStatus,
}

impl View for GpioDevice {
    type V = GpioDeviceView;

    open spec fn view(&self) -> GpioDeviceView {
        GpioDeviceView {
            wiring: self.wiring,
            outputs: self.outputs@,
            pulses: self.pulses@,
            flushed_outputs: self.flushed_outputs,
            status: self.status,
        }
    }
}

impl GpioDeviceView {
    /// The wiring is safe, nothing published, pulsing or sent reaches beyond it, and the PTT
    /// state that observers see is the one last sent.
    pub open spec fn well_formed(self) -> bool {
        &&& self.wiring.well_formed()
        &&& board_within(self.outputs, self.wiring.allowed())
        &&& engine_within(self.pulses, self.wiring.allowed())
        &&& self.pulses.timed.well_formed()
        &&& self.flushed_outputs != UNFLUSHED_OUTPUT ==> {
            &&& self.flushed_outputs & !self.wiring.allowed() == 0
            &&& self.status.ptt_applied == unpacked_ptt(self.flushed_outputs)
        }
    }

    /// The device with its EEPROM and HID counters and errors replaced.
    pub open spec fn with_status(self, status: HidStatus) -> Self {
        GpioDeviceView { status, ..self }
    }

    /// Ask for one output report.
    pub open spec fn writing(self, report: [u8; HID_REPORT_BYTES], next: AfterWrite) -> (
        Self,
        HidStep,
    ) {
        (
            self.with_status(
                HidStatus {
                    output_apply_count: wrapping_next(self.status.output_apply_count),
                    ..self.status
                },
            ),
            HidStep::Write(PendingWrite { report, next }),
        )
    }

    /// Ask for one input report.
    pub open spec fn reading(self, next: AfterRead) -> (Self, HidStep) {
        (
            self.with_status(
                HidStatus {
                    input_read_count: wrapping_next(self.status.input_read_count),
                    ..self.status
                },
            ),
            HidStep::Read(PendingRead { next }),
        )
    }

    /// End a service cycle.
    pub open spec fn serviced(self, closing: bool, code: i32) -> (Self, HidStep) {
        (
            if closing {
                self.with_status(HidStatus { online: false, ..self.status })
            } else {
                self
            },
            HidStep::Done(code),
        )
    }

    /// Go on behind an output flush that succeeded or failed.
    pub open spec fn flushed(self, succeeded: bool, next: AfterFlush) -> (Self, HidStep) {
        match next {
            AfterFlush::PollInputs { closing } => if succeeded {
                self.reading(AfterRead::Inputs { closing })
            } else {
                self.serviced(closing, GPIO_USB_ERROR)
            },
            AfterFlush::FinishEeprom { transfer, transferred } => if succeeded && transferred {
                (self, HidStep::EepromDone { code: GPIO_OK, image: transfer.finished_image() })
            } else {
                (self, HidStep::EepromDone { code: GPIO_USB_ERROR, image: transfer.image })
            },
        }
    }

    /// Send the output word in effect at `now` unless it was the last one sent.
    pub open spec fn flushing(self, now: u64, next: AfterFlush) -> (Self, HidStep) {
        let desired = self.pulses.effective(self.outputs, now);
        let observed = GpioDeviceView { pulses: self.pulses.serviced(self.outputs, now), ..self };
        if desired == self.flushed_outputs {
            observed.flushed(true, next)
        } else {
            observed.writing(
                self.wiring.report(desired),
                AfterWrite::Flush { desired, next },
            )
        }
    }

    /// Put the outputs back after EEPROM traffic, whether or not it succeeded.
    pub open spec fn restoring(self, transfer: EepromTransfer, transferred: bool, now: u64) -> (
        Self,
        HidStep,
    ) {
        GpioDeviceView { flushed_outputs: UNFLUSHED_OUTPUT, ..self }.flushing(
            now,
            AfterFlush::FinishEeprom { transfer, transferred },
        )
    }

    /// Start moving the transfer's current word.
    pub open spec fn transferring(self, transfer: EepromTransfer) -> (Self, HidStep) {
        self.writing(transfer.command(), AfterWrite::Eeprom(transfer))
    }

    /// Go on behind a word that has moved.
    pub open spec fn transferred(self, transfer: EepromTransfer, now: u64) -> (Self, HidStep) {
        if transfer.address == EEPROM_CHECKSUM_WORD {
            self.restoring(transfer, true, now)
        } else {
            self.transferring(
                EepromTransfer { address: (transfer.address + 1) as u8, ..transfer },
            )
        }
    }

    /// The device and its next step once an output operation has ended.
    pub open spec fn written(self, pending: PendingWrite, outcome: Result<(), i32>, now: u64) -> (
        Self,
        HidStep,
    ) {
        let noted = self.with_status(self.status.noted(error_of(outcome)));
        match pending.next {
            AfterWrite::Flush { desired, next } => if outcome is Ok {
                GpioDeviceView {
                    flushed_outputs: desired,
                    status: HidStatus { ptt_applied: unpacked_ptt(desired), ..noted.status },
                    ..noted
                }.flushed(true, next)
            } else {
                noted.flushed(false, next)
            },
            AfterWrite::Eeprom(transfer) => if outcome is Err {
                noted.restoring(transfer, false, now)
            } else if transfer.operation == EepromOperation::Read {
                noted.reading(AfterRead::Eeprom(transfer))
            } else {
                noted.with_status(
                    HidStatus {
                        eeprom_write_count: wrapping_next(noted.status.eeprom_write_count),
                        ..noted.status
                    },
                ).transferred(transfer, now)
            },
        }
    }

    /// The device and its next step once an input operation has ended.
    pub open spec fn read(
        self,
        pending: PendingRead,
        outcome: Result<[u8; HID_REPORT_BYTES], i32>,
        now: u64,
    ) -> (Self, HidStep) {
        let noted = self.with_status(self.status.noted(error_of(outcome)));
        match (pending.next, outcome) {
            (AfterRead::Inputs { closing }, Ok(report)) => noted.with_status(
                HidStatus {
                    input_report: report,
                    input_state: self.wiring.profile.decoded_inputs(
                        report,
                        self.wiring.cm108ah_hook_gpio2,
                    ),
                    ..noted.status
                },
            ).serviced(closing, GPIO_OK),
            (AfterRead::Inputs { closing }, Err(_)) => noted.serviced(closing, GPIO_USB_ERROR),
            (AfterRead::Eeprom(transfer), Ok(report)) => noted.with_status(
                HidStatus {
                    eeprom_read_count: wrapping_next(noted.status.eeprom_read_count),
                    ..noted.status
                },
            ).transferred(
                EepromTransfer {
                    image: with_word(transfer.image, transfer.address, word_in_report(report)),
                    ..transfer
                },
                now,
            ),
            (AfterRead::Eeprom(transfer), Err(_)) => noted.restoring(transfer, false, now),
        }
    }
}

/// An image with one word replaced.
pub open spec fn with_word(image: EepromImage, address: u8, value: u16) -> EepromImage {
    EepromImage {
        words: vstd::array::spec_array_update(image.words, address as int, value),
        ..image
    }
}

/// The image that an EEPROM read fills.
pub open spec fn blank_image(image: EepromImage) -> EepromImage {
    EepromImage {
        struct_size: image.struct_size,
        abi_version: ABI_VERSION,
        checksum_valid: 0,
        magic_valid: 0,
        words: [0u16; EEPROM_WORD_COUNT],
    }
}

/// The image that an EEPROM write programs: the caller's words under the magic and checksum.
pub open spec fn stamped_image(image: EepromImage) -> EepromImage {
    let marked = with_word(image, 51, EEPROM_MAGIC);
    with_word(marked, 63, checksum_of(marked.words@))
}

impl GpioDevice {
    /// Construct a device for an interface that was just claimed.
    pub fn new(config: &ValidatedConfig, product_id: u16) -> (device: Self)
        requires
            config.well_formed(),
        ensures
            device@.well_formed(),
            device@ == (GpioDeviceView {
                wiring: Cm119Wiring {
                    profile: config.profile,
                    cm108ah_hook_gpio2: product_id == CM108AH_PRODUCT_ID,
                    gpio_output_enable_mask: config.gpio_output_enable_mask,
                    ptt_inverted: config.ptt_inverted,
                },
                outputs: OutputBoardView::quiet(
                    packed_output(false, config.gpio_output_initial_mask),
                ),
                pulses: PulseEngineView::idle(),
                flushed_outputs: UNFLUSHED_OUTPUT,
                status: HidStatus::opened(),
            }),
    {
        let desired: u32 = pack_output(false, config.gpio_output_initial_mask);
        proof {
            lemma_permitted_word_is_allowed(
                false,
                config.gpio_output_initial_mask,
                config.gpio_output_enable_mask,
            );
            let allowed = allowed_outputs(config.gpio_output_enable_mask);
            lemma_nothing_is_within(allowed, config.gpio_output_enable_mask);
        }
        GpioDevice {
            wiring: Cm119Wiring {
                profile: config.profile,
                cm108ah_hook_gpio2: product_id == CM108AH_PRODUCT_ID,
                gpio_output_enable_mask: config.gpio_output_enable_mask,
                ptt_inverted: config.ptt_inverted,
            },
            outputs: OutputBoard::new(desired),
            pulses: PulseEngine::new(),
            flushed_outputs: UNFLUSHED_OUTPUT,
            status: HidStatus {
                input_state: 0,
                input_report: [0, 0, 0, 0],
                input_read_count: 0,
                output_apply_count: 0,
                usb_error_count: 0,
                ptt_applied: false,
                online: true,
                last_usb_error: 0,
                eeprom_read_count: 0,
                eeprom_write_count: 0,
            },
        }
    }

    /// Ask the service owner for one output report.
    fn write_report(&mut self, report: [u8; HID_REPORT_BYTES], next: AfterWrite) -> (step: HidStep)
        ensures
            (final(self)@, step) == old(self)@.writing(report, next),
    {
        self.status.output_apply_count = self.status.output_apply_count.wrapping_add(1);
        HidStep::Write(PendingWrite { report, next })
    }

    /// Ask the service owner for one input report.
    fn read_report(&mut self, next: AfterRead) -> (step: HidStep)
        ensures
            (final(self)@, step) == old(self)@.reading(next),
    {
        self.status.input_read_count = self.status.input_read_count.wrapping_add(1);
        HidStep::Read(PendingRead { next })
    }

    /// End a service cycle.
    fn finish_service(&mut self, closing: bool, code: i32) -> (step: HidStep)
        ensures
            (final(self)@, step) == old(self)@.serviced(closing, code),
    {
        if closing {
            self.status.online = false;
        }
        HidStep::Done(code)
    }

    /// Go on behind an output flush.
    fn after_flush(&mut self, succeeded: bool, next: AfterFlush) -> (step: HidStep)
        ensures
            (final(self)@, step) == old(self)@.flushed(succeeded, next),
    {
        match next {
            AfterFlush::PollInputs { closing } => {
                if succeeded {
                    self.read_report(AfterRead::Inputs { closing })
                } else {
                    self.finish_service(closing, GPIO_USB_ERROR)
                }
            },
            AfterFlush::FinishEeprom { transfer, transferred } => {
                let mut image: EepromImage = transfer.image;
                if !transferred || !succeeded {
                    return HidStep::EepromDone { code: GPIO_USB_ERROR, image };
                }
                match transfer.operation {
                    EepromOperation::Read => {
                        image.checksum_valid = to_flag(eeprom_checksum_is_valid(&image.words));
                        image.magic_valid = to_flag(image.words[EEPROM_MAGIC_WORD] == EEPROM_MAGIC);
                    },
                    EepromOperation::Program => {
                        image.checksum_valid = 1;
                        image.magic_valid = 1;
                    },
                }
                HidStep::EepromDone { code: GPIO_OK, image }
            },
        }
    }

    /// Flush the effective logical PTT and GPIO output when it changed.
    fn flush_outputs_at(&mut self, now: u64, next: AfterFlush) -> (step: HidStep)
        requires
            old(self)@.well_formed(),
            next.well_formed(),
        ensures
            (final(self)@, step) == old(self)@.flushing(now, next),
            final(self)@.well_formed(),
            step.well_formed(final(self)@.wiring),
    {
        proof {
            law_effective_output_is_confined(
                self@.pulses,
                self@.outputs,
                self@.wiring.allowed(),
                now,
            );
        }
        let desired: u32 = self.pulses.effective_output(&self.outputs, now);
        if desired == self.flushed_outputs {
            return self.after_flush(true, next);
        }
        let report = self.wiring.profile.encode_outputs(
            self.wiring.ptt_inverted,
            self.wiring.gpio_output_enable_mask,
            desired,
        );
        self.write_report(report, AfterWrite::Flush { desired, next })
    }

    /// Restore the most recently published logical outputs after EEPROM traffic.
    fn restore_outputs_after_eeprom(
        &mut self,
        transfer: EepromTransfer,
        transferred: bool,
        now: u64,
    ) -> (step: HidStep)
        requires
            old(self)@.well_formed(),
            transfer.well_formed(),
        ensures
            (final(self)@, step) == old(self)@.restoring(transfer, transferred, now),
            final(self)@.well_formed(),
            step.well_formed(final(self)@.wiring),
    {
        self.flushed_outputs = UNFLUSHED_OUTPUT;
        self.flush_outputs_at(now, AfterFlush::FinishEeprom { transfer, transferred })
    }

    /// Start moving one EEPROM word.
    fn transfer_word(&mut self, transfer: EepromTransfer) -> (step: HidStep)
        requires
            transfer.well_formed(),
        ensures
            (final(self)@, step) == old(self)@.transferring(transfer),
            old(self)@.well_formed() ==> final(self)@.well_formed(),
            step.well_formed(final(self)@.wiring),
    {
        let command = match transfer.operation {
            EepromOperation::Read => eeprom_read_command(transfer.address),
            EepromOperation::Program => eeprom_write_command(
                transfer.address,
                transfer.image.words[transfer.address as usize],
            ),
        };
        self.write_report(command, AfterWrite::Eeprom(transfer))
    }

    /// Go on behind an EEPROM word that has moved.
    fn after_word(&mut self, transfer: EepromTransfer, now: u64) -> (step: HidStep)
        requires
            old(self)@.well_formed(),
            transfer.well_formed(),
        ensures
            (final(self)@, step) == old(self)@.transferred(transfer, now),
            final(self)@.well_formed(),
            step.well_formed(final(self)@.wiring),
    {
        if transfer.address as usize == EEPROM_CHECKSUM_WORD {
            return self.restore_outputs_after_eeprom(transfer, true, now);
        }
        let following = EepromTransfer {
            operation: transfer.operation,
            image: transfer.image,
            address: transfer.address + 1,
        };
        self.transfer_word(following)
    }

    /// Begin one service cycle: flush the newest effective output and poll one input report.
    pub fn begin_service(&mut self, now: u64) -> (step: HidStep)
        requires
            old(self)@.well_formed(),
        ensures
            (final(self)@, step) == old(self)@.flushing(
                now,
                AfterFlush::PollInputs { closing: false },
            ),
            final(self)@.well_formed(),
            step.well_formed(final(self)@.wiring),
    {
        self.flush_outputs_at(now, AfterFlush::PollInputs { closing: false })
    }

    /// Begin the best-effort physical unkey before the exclusive interface is released.
    pub fn begin_close(&mut self, now: u64) -> (step: HidStep)
        requires
            old(self)@.well_formed(),
        ensures
            (final(self)@, step) == old(self)@.unkeyed().flushing(
                now,
                AfterFlush::PollInputs { closing: true },
            ),
            final(self)@.well_formed(),
            step.well_formed(final(self)@.wiring),
    {
        self.outputs.cancel_pulses();
        self.outputs.desired_outputs = pack_output(false, unpack_gpio(self.outputs.desired_outputs));
        proof {
            lemma_unkeyed_is_well_formed(old(self)@);
        }
        self.flush_outputs_at(now, AfterFlush::PollInputs { closing: true })
    }

    /// Begin reading the user tuning region.
    pub fn begin_read_eeprom(&mut self, image: EepromImage) -> (step: HidStep)
        requires
            old(self)@.well_formed(),
        ensures
            image.struct_size >= EEPROM_IMAGE_SIZE ==> (final(self)@, step)
                == old(self)@.transferring(
                EepromTransfer {
                    operation: EepromOperation::Read,
                    image: blank_image(image),
                    address: 51,
                },
            ),
            image.struct_size < EEPROM_IMAGE_SIZE ==> final(self)@ == old(self)@ && step == (
            HidStep::EepromDone { code: GPIO_INVALID_ARGUMENT, image }),
            final(self)@.well_formed(),
            step.well_formed(final(self)@.wiring),
    {
        if image.struct_size < EEPROM_IMAGE_SIZE {
            return HidStep::EepromDone { code: GPIO_INVALID_ARGUMENT, image };
        }
        let blank = EepromImage {
            struct_size: image.struct_size,
            abi_version: ABI_VERSION,
            checksum_valid: 0,
            magic_valid: 0,
            words: [0; EEPROM_WORD_COUNT],
        };
        self.transfer_word(
            EepromTransfer {
                operation: EepromOperation::Read,
                image: blank,
                address: EEPROM_START_WORD as u8,
            },
        )
    }

    /// Begin programming the user tuning region under its magic and checksum.
    pub fn begin_write_eeprom(&mut self, image: EepromImage) -> (step: HidStep)
        requires
            old(self)@.well_formed(),
        ensures
            image.struct_size >= EEPROM_IMAGE_SIZE && image.abi_version == ABI_VERSION ==> (
            final(self)@, step) == old(self)@.transferring(
                EepromTransfer {
                    operation: EepromOperation::Program,
                    image: stamped_image(image),
                    address: 51,
                },
            ),
            image.struct_size < EEPROM_IMAGE_SIZE || image.abi_version != ABI_VERSION
                ==> final(self)@ == old(self)@ && step == (HidStep::EepromDone {
                code: GPIO_INVALID_ARGUMENT,
                image,
            }),
            final(self)@.well_formed(),
            step.well_formed(final(self)@.wiring),
    {
        if image.struct_size < EEPROM_IMAGE_SIZE || image.abi_version != ABI_VERSION {
            return HidStep::EepromDone { code: GPIO_INVALID_ARGUMENT, image };
        }
        let mut stamped: EepromImage = image;
        stamped.words[EEPROM_MAGIC_WORD] = EEPROM_MAGIC;
        let checksum: u16 = eeprom_checksum_word(&stamped.words);
        stamped.words[EEPROM_CHECKSUM_WORD] = checksum;
        assert(stamped.words =~= stamped_image(image).words);
        self.transfer_word(
            EepromTransfer {
                operation: EepromOperation::Program,
                image: stamped,
                address: EEPROM_START_WORD as u8,
            },
        )
    }

    /// Take the outcome of a HID output operation and say what comes next.
    pub fn complete_write(&mut self, pending: PendingWrite, outcome: Result<(), i32>, now: u64)
        -> (step: HidStep)
        requires
            old(self)@.well_formed(),
            pending.well_formed(old(self)@.wiring),
        ensures
            (final(self)@, step) == old(self)@.written(pending, outcome, now),
            final(self)@.well_formed(),
            step.well_formed(final(self)@.wiring),
    {
        match outcome {
            Ok(()) => self.status.note_usb_success(),
            Err(error) => self.status.note_usb_error(error),
        }
        match pending.next {
            AfterWrite::Flush { desired, next } => {
                if outcome.is_err() {
                    return self.after_flush(false, next);
                }
                self.flushed_outputs = desired;
                self.status.ptt_applied = desired & OUTPUT_PTT_BIT != 0;
                self.after_flush(true, next)
            },
            AfterWrite::Eeprom(transfer) => {
                if outcome.is_err() {
                    return self.restore_outputs_after_eeprom(transfer, false, now);
                }
                match transfer.operation {
                    EepromOperation::Read => self.read_report(AfterRead::Eeprom(transfer)),
                    EepromOperation::Program => {
                        self.status.eeprom_write_count =
                        self.status.eeprom_write_count.wrapping_add(1);
                        self.after_word(transfer, now)
                    },
                }
            },
        }
    }

    /// Take the outcome of a HID input operation and say what comes next.
    pub fn complete_read(
        &mut self,
        pending: PendingRead,
        outcome: Result<[u8; HID_REPORT_BYTES], i32>,
        now: u64,
    ) -> (step: HidStep)
        requires
            old(self)@.well_formed(),
            pending.well_formed(),
        ensures
            (final(self)@, step) == old(self)@.read(pending, outcome, now),
            final(self)@.well_formed(),
            step.well_formed(final(self)@.wiring),
    {
        match outcome {
            Ok(_) => self.status.note_usb_success(),
            Err(error) => self.status.note_usb_error(error),
        }
        match pending.next {
            AfterRead::Inputs { closing } => match outcome {
                Ok(report) => {
                    self.status.input_report = report;
                    self.status.input_state = self.wiring.profile.decode_inputs(
                        report,
                        self.wiring.cm108ah_hook_gpio2,
                    );
                    self.finish_service(closing, GPIO_OK)
                },
                Err(_) => self.finish_service(closing, GPIO_USB_ERROR),
            },
            AfterRead::Eeprom(transfer) => match outcome {
                Ok(report) => {
                    self.status.eeprom_read_count = self.status.eeprom_read_count.wrapping_add(1);
                    let mut following: EepromTransfer = transfer;
                    following.image.words[transfer.address as usize] = eeprom_word_from_report(report);
                    assert(following.image.words =~= with_word(
                        transfer.image,
                        transfer.address,
                        word_in_report(report),
                    ).words);
                    self.after_word(following, now)
                },
                Err(_) => self.restore_outputs_after_eeprom(transfer, false, now),
            },
        }
    }

    /// Publish a prepared logical action without touching the device.
    pub fn publish_outputs(&mut self, action: &OutputAction) -> (code: i32)
        ensures
            is_output_action(*action, old(self).wiring.gpio_output_enable_mask) ==> code == GPIO_OK
                && final(self)@ == (GpioDeviceView {
                outputs: old(self)@.outputs.with_outputs(output_word(*action)),
                ..old(self)@
            }),
            !is_output_action(*action, old(self).wiring.gpio_output_enable_mask) ==> code
                == GPIO_INVALID_ARGUMENT && final(self)@ == old(self)@,
            old(self)@.well_formed() ==> final(self)@.well_formed(),
    {
        publication::publish_outputs(
            &mut self.outputs,
            self.wiring.gpio_output_enable_mask,
            action,
        )
    }

    /// Publish one timed logical output inversion without touching the device.
    pub fn publish_inverting_pulse(&mut self, action: &InvertingPulseAction) -> (code: i32)
        ensures
            is_pulse_action(*action, old(self).wiring.gpio_output_enable_mask) ==> code == GPIO_OK
                && final(self)@ == (GpioDeviceView {
                outputs: if pulse_is_published(*action) {
                    old(self)@.outputs.with_pulse(
                        pulse_word(*action),
                        action.pulse_duration_milliseconds,
                        true,
                    )
                } else {
                    old(self)@.outputs
                },
                ..old(self)@
            }),
            !is_pulse_action(*action, old(self).wiring.gpio_output_enable_mask) ==> code
                == GPIO_INVALID_ARGUMENT && final(self)@ == old(self)@,
            old(self)@.well_formed() ==> final(self)@.well_formed(),
    {
        publication::publish_inverting_pulse(
            &mut self.outputs,
            self.wiring.gpio_output_enable_mask,
            action,
        )
    }

    /// Schedule selected logical PTT/GPIO inversions without touching the device.
    pub fn schedule_inverting_pulse(&mut self, action: &ScheduledInvertingPulseAction) -> (code:
        i32)
        ensures
            is_schedule_action(*action, old(self).wiring.gpio_output_enable_mask) ==> code
                == GPIO_OK && final(self)@ == (GpioDeviceView {
                outputs: if schedule_word(*action) != 0 || cancel_word(*action) != 0 {
                    old(self)@.outputs.with_schedule(
                        schedule_word(*action),
                        cancel_word(*action),
                        action.pulse_duration_milliseconds,
                    )
                } else {
                    old(self)@.outputs
                },
                ..old(self)@
            }),
            !is_schedule_action(*action, old(self).wiring.gpio_output_enable_mask) ==> code
                == GPIO_INVALID_ARGUMENT && final(self)@ == old(self)@,
            old(self)@.well_formed() ==> final(self)@.well_formed(),
    {
        publication::schedule_inverting_pulse(
            &mut self.outputs,
            self.wiring.gpio_output_enable_mask,
            action,
        )
    }

    /// Copy the latest input report.
    pub fn inputs(&self, snapshot: &mut InputSnapshot) -> (code: i32)
        ensures
            old(snapshot).struct_size >= INPUT_SNAPSHOT_SIZE ==> code == GPIO_OK && *final(snapshot)
                == self.status.snapshot(*old(snapshot)),
            old(snapshot).struct_size < INPUT_SNAPSHOT_SIZE ==> code == GPIO_INVALID_ARGUMENT
                && *final(snapshot) == *old(snapshot),
    {
        self.status.inputs(snapshot)
    }

    /// Copy the service statistics.
    pub fn stats(&self, stats: &mut DeviceStats) -> (code: i32)
        ensures
            old(stats).struct_size >= DEVICE_STATS_PREFIX_SIZE ==> code == GPIO_OK && *final(stats)
                == self.status.statistics(*old(stats)),
            old(stats).struct_size < DEVICE_STATS_PREFIX_SIZE ==> code == GPIO_INVALID_ARGUMENT
                && *final(stats) == *old(stats),
    {
        self.status.stats(stats)
    }
}

impl GpioDeviceView {
    /// The device with every pulse cancelled and PTT released; ordinary outputs stay.
    pub open spec fn unkeyed(self) -> Self {
        GpioDeviceView {
            outputs: self.outputs.with_pulses_cancelled().with_outputs(
                packed_output(false, unpacked_gpio(self.outputs.desired_outputs)),
            ),
            ..self
        }
    }
}

/// Unkeying keeps a device well formed.
proof fn lemma_unkeyed_is_well_formed(device: GpioDeviceView)
    requires
        device.well_formed(),
    ensures
        device.unkeyed().well_formed(),
{
    law_cancelled_pulses_stay_confined(device.outputs, device.wiring.allowed());
    lemma_confined_output_is_packed(
        device.outputs.desired_outputs,
        device.wiring.gpio_output_enable_mask,
    );
    lemma_permitted_word_is_allowed(
        false,
        unpacked_gpio(device.outputs.desired_outputs),
        device.wiring.gpio_output_enable_mask,
    );
}

} // verus!
