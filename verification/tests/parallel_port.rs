//! Parallel-port behaviour over deterministic in-memory transports.

use std::collections::VecDeque;

use rptadv_gpio_adapter::abi::{
    ABI_VERSION, DEVICE_CONFIG_SIZE, DEVICE_INFO_PREFIX_SIZE, DEVICE_INFO_SIZE, DEVICE_LIST_SIZE,
    DEVICE_STATS_PREFIX_SIZE, DEVICE_STATS_SIZE, EEPROM_IMAGE_SIZE, GPIO_INVALID_ARGUMENT,
    GPIO_IO_ERROR, GPIO_OK, GPIO_UNSUPPORTED, INVERTING_PULSE_ACTION_SIZE,
    SCHEDULED_INVERTING_PULSE_ACTION_SIZE,
};
use rptadv_gpio_adapter::parallel::{ParallelDevice, ParallelStep};
use rptadv_gpio_adapter::parallel_abi::{
    ParallelConfig, ParallelInputSnapshot, ParallelInvertingPulseAction, ParallelOutputAction,
    ParallelScheduledInvertingPulseAction, ParallelStats, PARALLEL_CONFIG_SIZE,
    PARALLEL_INPUT_SNAPSHOT_SIZE, PARALLEL_INVERTING_PULSE_ACTION_SIZE,
    PARALLEL_OUTPUT_ACTION_SIZE, PARALLEL_SCHEDULED_INVERTING_PULSE_ACTION_SIZE,
    PARALLEL_STATS_SIZE, PARALLEL_TRANSPORT_AUTO, PARALLEL_TRANSPORT_PPDEV,
    PARALLEL_TRANSPORT_RAW_IO,
};
use rptadv_gpio_adapter::parallel_config::{
    exact_raw_io_byte, OpenAttempt, ValidatedParallelConfig,
};
use rptadv_gpio_adapter::rtx::{
    rtx_delay, rtx_initial_delay_multiplier, rtx_initial_delay_multiplier_for, rtx_shift_word,
    rtx_words, RtxSerialState, RtxWords, RTX_CLOCK_MASK, RTX_REGISTER_BITS, RTX_TRANSMIT_MASK,
};
use rptadv_gpio_adapter::transport::{
    ppdev_outcome, raw_io_data_offset, raw_io_status_offset, PpdevStep,
};

/// Nanoseconds in one millisecond.
const MILLISECOND: u64 = 1_000_000;

/// An arbitrary start of time.
const START: u64 = 7_000_000_000;

/// Scripted parallel port and what it has seen.
#[derive(Default)]
struct FakePort {
    writes: Vec<u8>,
    settles: Vec<u32>,
    reads: VecDeque<Result<u8, i32>>,
    next_write_error: Option<i32>,
    write_results: VecDeque<Result<(), i32>>,
}

impl FakePort {
    fn write_data(&mut self, data: u8) -> Result<(), i32> {
        self.write_results.pop_front().unwrap_or(Ok(()))?;
        if let Some(error) = self.next_write_error.take() {
            return Err(error);
        }
        self.writes.push(data);
        Ok(())
    }

    fn read_status(&mut self) -> Result<u8, i32> {
        self.reads.pop_front().unwrap_or(Ok(0xff))
    }
}

/// Perform every pending operation of one step and its successors.
fn drive(device: &mut ParallelDevice, first: ParallelStep, port: &mut FakePort) -> Option<i32> {
    let mut step = first;
    loop {
        step = match step {
            ParallelStep::Write(pending) => {
                let outcome = port.write_data(pending.data);
                device.complete_write(pending, outcome)
            }
            ParallelStep::Read => {
                let outcome = port.read_status();
                device.complete_read(outcome)
            }
            ParallelStep::Settle { multiplier, run } => {
                port.settles.push(multiplier);
                device.complete_settle(run)
            }
            ParallelStep::Done(code) => return Some(code),
            ParallelStep::Closed => return None,
        };
    }
}

fn service_at(device: &mut ParallelDevice, port: &mut FakePort, now: u64) -> i32 {
    let first = device.begin_service(now);
    drive(device, first, port).expect("a service cycle has a result")
}

fn control_write_data(device: &mut ParallelDevice, port: &mut FakePort, data: u32) -> i32 {
    let first = device.begin_control_write_data(data);
    drive(device, first, port).expect("a control write has a result")
}

fn set_binary_channel(device: &mut ParallelDevice, port: &mut FakePort, channel: u8) -> i32 {
    let first = device.begin_set_binary_channel(channel);
    drive(device, first, port).expect("a channel selection has a result")
}

fn program_rtx(
    device: &mut ParallelDevice,
    port: &mut FakePort,
    rx_frequency_hz: u32,
    tx_frequency_hz: u32,
    transmitting: u32,
    high_power: u32,
) -> i32 {
    let mut state = RtxSerialState { initialized: false };
    let first = device.begin_program_rtx(
        &mut state,
        rx_frequency_hz,
        tx_frequency_hz,
        transmitting,
        high_power,
    );
    drive(device, first, port).expect("RTX programming has a result")
}

fn clear_rtx_transmit(device: &mut ParallelDevice, port: &mut FakePort) -> i32 {
    let first = device.begin_clear_rtx_transmit();
    drive(device, first, port).expect("a transmit clear has a result")
}

fn close(device: &mut ParallelDevice, port: &mut FakePort) {
    let first = device.begin_close();
    assert_eq!(drive(device, first, port), None);
}

fn ordinary_config() -> ParallelConfig {
    ParallelConfig {
        struct_size: PARALLEL_CONFIG_SIZE,
        abi_version: ABI_VERSION,
        transport: PARALLEL_TRANSPORT_PPDEV,
        ppdev_path: Some(b"/dev/parport0".to_vec()),
        raw_io_base: 0,
        output_enable_mask: 0x0f,
        output_initial_mask: 0x01,
    }
}

fn protocol_config(initial_output_mask: u32) -> ParallelConfig {
    let mut config = ordinary_config();
    config.output_enable_mask = u32::from(u8::MAX);
    config.output_initial_mask = initial_output_mask;
    config
}

fn validated(config: &ParallelConfig) -> ValidatedParallelConfig {
    ValidatedParallelConfig::from_ffi(Some(config)).expect("valid parallel config")
}

fn accepts(config: &ParallelConfig) -> bool {
    ValidatedParallelConfig::from_ffi(Some(config)).is_some()
}

fn fake_device(config: &ParallelConfig) -> (ParallelDevice, FakePort) {
    (ParallelDevice::new(&validated(config)), FakePort::default())
}

fn action(output_mask: u32) -> ParallelOutputAction {
    ParallelOutputAction {
        struct_size: PARALLEL_OUTPUT_ACTION_SIZE,
        abi_version: ABI_VERSION,
        output_mask,
        pulse_mask: 0,
        pulse_duration_milliseconds: 0,
        cancel_pulse: 0,
    }
}

fn inverting_pulse(mask: u32, duration_milliseconds: u32) -> ParallelInvertingPulseAction {
    ParallelInvertingPulseAction {
        struct_size: PARALLEL_INVERTING_PULSE_ACTION_SIZE,
        abi_version: ABI_VERSION,
        invert_mask: mask,
        pulse_duration_milliseconds: duration_milliseconds,
        cancel_pulse: 0,
    }
}

fn scheduled_inverting_pulse(
    invert_mask: u32,
    duration_milliseconds: u32,
    cancel_mask: u32,
) -> ParallelScheduledInvertingPulseAction {
    ParallelScheduledInvertingPulseAction {
        struct_size: PARALLEL_SCHEDULED_INVERTING_PULSE_ACTION_SIZE,
        abi_version: ABI_VERSION,
        invert_mask,
        pulse_duration_milliseconds: duration_milliseconds,
        cancel_mask,
    }
}

fn empty_inputs() -> ParallelInputSnapshot {
    ParallelInputSnapshot {
        struct_size: PARALLEL_INPUT_SNAPSHOT_SIZE,
        abi_version: 0,
        online: 0,
        status_mask: 0,
    }
}

fn empty_stats() -> ParallelStats {
    ParallelStats {
        struct_size: PARALLEL_STATS_SIZE,
        abi_version: 0,
        input_read_count: 0,
        output_apply_count: 0,
        io_error_count: 0,
        online: 0,
        last_io_error: 0,
        applied_output_mask: 0,
    }
}

/// Scripted ppdev node and what it has seen.
#[derive(Default)]
struct FakePpdev {
    open_result: i32,
    claim_result: i32,
    write_results: VecDeque<i32>,
    read_results: VecDeque<Result<u8, i32>>,
    opens: usize,
    closes: Vec<i32>,
    release_count: u32,
    writes: Vec<u8>,
}

impl FakePpdev {
    /// Open and claim the node as the library decides.
    fn open(&mut self) -> Result<i32, i32> {
        let mut step = PpdevStep::Open;
        let mut descriptor = -1;
        loop {
            step = match step {
                PpdevStep::Open => {
                    self.opens += 1;
                    descriptor = self.open_result;
                    step.resume(descriptor)
                }
                PpdevStep::Claim => step.resume(self.claim_result),
                PpdevStep::CloseUnclaimed => {
                    self.closes.push(descriptor);
                    step.resume(0)
                }
                PpdevStep::Claimed => return Ok(descriptor),
                PpdevStep::Refused(code) => return Err(code),
            };
        }
    }

    fn write_data(&mut self, data: u8) -> Result<(), i32> {
        let result = self.write_results.pop_front().unwrap_or(0);
        if result >= 0 {
            self.writes.push(data);
        }
        ppdev_outcome(result)
    }

    fn read_status(&mut self) -> Result<u8, i32> {
        match self.read_results.pop_front().unwrap_or(Ok(0xff)) {
            Ok(status) => ppdev_outcome(0).map(|()| status),
            Err(error) => ppdev_outcome(error).map(|()| 0),
        }
    }

    fn release(&mut self, descriptor: i32) {
        self.release_count += 1;
        self.closes.push(descriptor);
    }

    /// Perform every pending operation of one step and its successors.
    fn drive(&mut self, device: &mut ParallelDevice, first: ParallelStep) -> Option<i32> {
        let mut step = first;
        loop {
            step = match step {
                ParallelStep::Write(pending) => {
                    let outcome = self.write_data(pending.data);
                    device.complete_write(pending, outcome)
                }
                ParallelStep::Read => {
                    let outcome = self.read_status();
                    device.complete_read(outcome)
                }
                ParallelStep::Settle { run, .. } => device.complete_settle(run),
                ParallelStep::Done(code) => return Some(code),
                ParallelStep::Closed => return None,
            };
        }
    }
}

/// Try the transports of a configuration in the order that the library chooses.
fn open_transport(
    config: &ValidatedParallelConfig,
    ppdev: &mut FakePpdev,
    raw_io: Result<(), i32>,
) -> Result<OpenAttempt, i32> {
    let mut attempt = config.begin_open(true);
    loop {
        let outcome = match attempt {
            OpenAttempt::Ppdev => ppdev.open().map(|_| ()),
            OpenAttempt::RawIo(_) => raw_io,
            OpenAttempt::Refused(code) => return Err(code),
        };
        match outcome {
            Ok(()) => return Ok(attempt),
            Err(error) => attempt = config.next_open(attempt, error, true),
        }
    }
}

#[test]
fn ppdev_backend_opens_services_and_closes_through_the_descriptor() {
    let mut ppdev = FakePpdev {
        open_result: 42,
        ..FakePpdev::default()
    };
    let config = validated(&ordinary_config());
    assert_eq!(config.begin_open(true), OpenAttempt::Ppdev);
    let descriptor = ppdev.open().expect("claimed ppdev");
    let mut device = ParallelDevice::new(&config);

    assert_eq!(device.publish_outputs(&action(0x02)), GPIO_OK);
    let step = device.begin_service(START);
    assert_eq!(ppdev.drive(&mut device, step), Some(GPIO_OK));
    let step = device.begin_control_write_data(0x03);
    assert_eq!(ppdev.drive(&mut device, step), Some(GPIO_OK));
    let step = device.begin_close();
    assert_eq!(ppdev.drive(&mut device, step), None);
    ppdev.release(descriptor);

    assert_eq!(ppdev.opens, 1);
    assert_eq!(ppdev.writes, [0x02, 0x03, 0x00]);
    assert_eq!(ppdev.release_count, 1);
    assert_eq!(ppdev.closes, [42]);
}

#[test]
fn ppdev_backend_exposes_each_control_plane_and_service_error() {
    let mut ppdev = FakePpdev {
        open_result: -1,
        ..FakePpdev::default()
    };
    let config = validated(&ordinary_config());
    assert_eq!(
        open_transport(&config, &mut ppdev, Ok(())),
        Err(GPIO_IO_ERROR)
    );
    assert_eq!(ppdev.open(), Err(GPIO_IO_ERROR));

    ppdev.open_result = 42;
    ppdev.claim_result = -1;
    assert_eq!(ppdev.open(), Err(GPIO_IO_ERROR));

    ppdev.claim_result = 0;
    ppdev.write_results.push_back(-1);
    ppdev.read_results.push_back(Err(-1));
    let descriptor = ppdev.open().expect("claim synthetic ppdev");
    assert_eq!(ppdev.write_data(0x01), Err(GPIO_IO_ERROR));
    assert_eq!(ppdev.read_status(), Err(GPIO_IO_ERROR));
    ppdev.release(descriptor);

    assert_eq!(ppdev.closes, [42, 42]);
    assert_eq!(ppdev.release_count, 1);
}

#[test]
fn configuration_requires_an_explicit_safe_transport() {
    let mut config = ordinary_config();
    config.abi_version = ABI_VERSION + 1;
    assert!(!accepts(&config));

    config = ordinary_config();
    config.output_initial_mask = 0x10;
    assert!(!accepts(&config));

    config = ordinary_config();
    config.output_enable_mask = u32::from(u8::MAX) + 1;
    assert!(!accepts(&config));

    config = ordinary_config();
    config.output_initial_mask = u32::from(u8::MAX) + 1;
    assert!(!accepts(&config));

    config = ordinary_config();
    config.ppdev_path = Some(b"".to_vec());
    assert!(!accepts(&config));

    config = ordinary_config();
    config.ppdev_path = Some(b"parport0".to_vec());
    assert!(!accepts(&config));

    config = ordinary_config();
    config.transport = PARALLEL_TRANSPORT_RAW_IO;
    config.raw_io_base = 0;
    assert!(!accepts(&config));

    config.raw_io_base = u32::from(u16::MAX);
    assert!(!accepts(&config));

    config.raw_io_base = 0x378;
    assert!(accepts(&config));

    config = ordinary_config();
    config.transport = PARALLEL_TRANSPORT_PPDEV;
    config.ppdev_path = None;
    assert!(!accepts(&config));

    config = ordinary_config();
    config.transport = 99;
    assert!(!accepts(&config));

    config = ordinary_config();
    config.transport = PARALLEL_TRANSPORT_AUTO;
    config.ppdev_path = None;
    config.raw_io_base = 0x378;
    assert!(accepts(&config));

    config.raw_io_base = 0;
    assert!(!accepts(&config));

    config = ordinary_config();
    config.transport = PARALLEL_TRANSPORT_AUTO;
    assert!(accepts(&config));

    let (mut device, _) = fake_device(&ordinary_config());
    let mut malformed_action = action(0);
    malformed_action.struct_size = 0;
    assert_eq!(
        device.publish_outputs(&malformed_action),
        GPIO_INVALID_ARGUMENT
    );
    malformed_action = action(0);
    malformed_action.abi_version = ABI_VERSION + 1;
    assert_eq!(
        device.publish_outputs(&malformed_action),
        GPIO_INVALID_ARGUMENT
    );
    malformed_action = action(0);
    malformed_action.output_mask = u32::from(u8::MAX) + 1;
    assert_eq!(
        device.publish_outputs(&malformed_action),
        GPIO_INVALID_ARGUMENT
    );
    malformed_action = action(0);
    malformed_action.pulse_mask = u32::from(u8::MAX) + 1;
    assert_eq!(
        device.publish_outputs(&malformed_action),
        GPIO_INVALID_ARGUMENT
    );
    malformed_action = action(0);
    malformed_action.cancel_pulse = 2;
    assert_eq!(
        device.publish_outputs(&malformed_action),
        GPIO_INVALID_ARGUMENT
    );
    malformed_action = action(0);
    malformed_action.pulse_mask = 1;
    assert_eq!(
        device.publish_outputs(&malformed_action),
        GPIO_INVALID_ARGUMENT
    );
    malformed_action = action(0);
    malformed_action.pulse_duration_milliseconds = 1;
    assert_eq!(
        device.publish_outputs(&malformed_action),
        GPIO_INVALID_ARGUMENT
    );
    malformed_action = action(0x10);
    assert_eq!(
        device.publish_outputs(&malformed_action),
        GPIO_INVALID_ARGUMENT
    );
    malformed_action = action(0);
    malformed_action.pulse_mask = 0x10;
    malformed_action.pulse_duration_milliseconds = 1;
    assert_eq!(
        device.publish_outputs(&malformed_action),
        GPIO_INVALID_ARGUMENT
    );
    let mut conflicting_action = action(0);
    conflicting_action.cancel_pulse = 1;
    conflicting_action.pulse_mask = 1;
    assert_eq!(
        device.publish_outputs(&conflicting_action),
        GPIO_INVALID_ARGUMENT
    );
    conflicting_action.pulse_duration_milliseconds = 1;
    assert_eq!(
        device.publish_outputs(&conflicting_action),
        GPIO_INVALID_ARGUMENT
    );
}

#[test]
fn service_applies_output_pulse_and_status_snapshots() {
    let (mut device, mut port) = fake_device(&ordinary_config());
    port.reads
        .extend([Ok(0xa5), Ok(0x5a), Ok(0x3c), Ok(0x3c), Ok(0x3c)]);

    assert_eq!(service_at(&mut device, &mut port, START), GPIO_OK);
    let mut request = action(0x04);
    request.pulse_mask = 0x02;
    request.pulse_duration_milliseconds = 10;
    assert_eq!(device.publish_outputs(&request), GPIO_OK);
    assert_eq!(
        service_at(&mut device, &mut port, START + MILLISECOND),
        GPIO_OK
    );
    let mut cancel = action(0x04);
    cancel.cancel_pulse = 1;
    assert_eq!(device.publish_outputs(&cancel), GPIO_OK);
    assert_eq!(
        service_at(&mut device, &mut port, START + 2 * MILLISECOND),
        GPIO_OK
    );
    assert_eq!(device.publish_outputs(&request), GPIO_OK);
    assert_eq!(
        service_at(&mut device, &mut port, START + 3 * MILLISECOND),
        GPIO_OK
    );
    assert_eq!(
        service_at(&mut device, &mut port, START + 14 * MILLISECOND),
        GPIO_OK
    );

    assert_eq!(port.writes, [0x01, 0x06, 0x04, 0x06, 0x04]);
    let mut inputs = empty_inputs();
    assert_eq!(device.inputs(&mut inputs), GPIO_OK);
    assert_eq!(inputs.abi_version, ABI_VERSION);
    assert_eq!(inputs.online, 1);
    assert_eq!(inputs.status_mask, 0x3c);
}

#[test]
fn inverting_pulse_flips_the_parallel_baseline_and_restores_it() {
    let (mut device, mut port) = fake_device(&ordinary_config());

    assert_eq!(service_at(&mut device, &mut port, START), GPIO_OK);
    let request = inverting_pulse(0x03, 10);
    assert_eq!(device.publish_inverting_pulse(&request), GPIO_OK);
    assert_eq!(
        service_at(&mut device, &mut port, START + MILLISECOND),
        GPIO_OK
    );
    let mut cancel = inverting_pulse(0, 0);
    cancel.cancel_pulse = 1;
    assert_eq!(device.publish_inverting_pulse(&cancel), GPIO_OK);
    assert_eq!(
        service_at(&mut device, &mut port, START + 2 * MILLISECOND),
        GPIO_OK
    );
    assert_eq!(device.publish_inverting_pulse(&request), GPIO_OK);
    assert_eq!(
        service_at(&mut device, &mut port, START + 3 * MILLISECOND),
        GPIO_OK
    );
    assert_eq!(
        service_at(&mut device, &mut port, START + 14 * MILLISECOND),
        GPIO_OK
    );
    assert_eq!(port.writes, [0x01, 0x02, 0x01, 0x02, 0x01]);
}

#[test]
fn scheduled_inverting_pulses_overlap_and_expire_independently() {
    let (mut device, mut port) = fake_device(&ordinary_config());

    assert_eq!(service_at(&mut device, &mut port, START), GPIO_OK);
    assert_eq!(
        device.schedule_inverting_pulse(&scheduled_inverting_pulse(0x02, 10, 0)),
        GPIO_OK
    );
    assert_eq!(
        device.schedule_inverting_pulse(&scheduled_inverting_pulse(0x04, 20, 0)),
        GPIO_OK
    );
    assert_eq!(
        service_at(&mut device, &mut port, START + MILLISECOND),
        GPIO_OK
    );
    assert_eq!(
        device.schedule_inverting_pulse(&scheduled_inverting_pulse(0, 0, 0x02)),
        GPIO_OK
    );
    assert_eq!(
        service_at(&mut device, &mut port, START + 2 * MILLISECOND),
        GPIO_OK
    );
    assert_eq!(
        service_at(&mut device, &mut port, START + 21 * MILLISECOND),
        GPIO_OK
    );

    assert_eq!(port.writes, [0x01, 0x07, 0x05, 0x01]);
}

#[test]
fn scheduled_inverting_pulse_validates_selected_bits_and_deadlines() {
    let (mut device, _) = fake_device(&ordinary_config());
    let mut request = scheduled_inverting_pulse(0x02, 10, 0);
    request.struct_size = 0;
    assert_eq!(
        device.schedule_inverting_pulse(&request),
        GPIO_INVALID_ARGUMENT
    );
    request.struct_size = PARALLEL_SCHEDULED_INVERTING_PULSE_ACTION_SIZE;
    request.abi_version = ABI_VERSION + 1;
    assert_eq!(
        device.schedule_inverting_pulse(&request),
        GPIO_INVALID_ARGUMENT
    );
    request.abi_version = ABI_VERSION;
    request.invert_mask = u32::from(u8::MAX) + 1;
    assert_eq!(
        device.schedule_inverting_pulse(&request),
        GPIO_INVALID_ARGUMENT
    );
    request.invert_mask = 0x10;
    assert_eq!(
        device.schedule_inverting_pulse(&request),
        GPIO_INVALID_ARGUMENT
    );
    request.invert_mask = 0x02;
    request.cancel_mask = 0x02;
    assert_eq!(
        device.schedule_inverting_pulse(&request),
        GPIO_INVALID_ARGUMENT
    );
    request.cancel_mask = 0;
    request.pulse_duration_milliseconds = 0;
    assert_eq!(
        device.schedule_inverting_pulse(&request),
        GPIO_INVALID_ARGUMENT
    );
    request.invert_mask = 0;
    request.cancel_mask = 0x10;
    assert_eq!(
        device.schedule_inverting_pulse(&request),
        GPIO_INVALID_ARGUMENT
    );
    request.cancel_mask = 0;
    assert_eq!(device.schedule_inverting_pulse(&request), GPIO_OK);
}

#[test]
fn inverting_pulse_validates_mask_duration_and_cancel_contract() {
    let (mut device, mut port) = fake_device(&ordinary_config());
    let mut request = inverting_pulse(0x02, 10);
    request.struct_size = 0;
    assert_eq!(
        device.publish_inverting_pulse(&request),
        GPIO_INVALID_ARGUMENT
    );
    request.struct_size = PARALLEL_INVERTING_PULSE_ACTION_SIZE;
    request.abi_version = ABI_VERSION + 1;
    assert_eq!(
        device.publish_inverting_pulse(&request),
        GPIO_INVALID_ARGUMENT
    );
    request.abi_version = ABI_VERSION;
    request.invert_mask = u32::from(u8::MAX) + 1;
    assert_eq!(
        device.publish_inverting_pulse(&request),
        GPIO_INVALID_ARGUMENT
    );
    request.invert_mask = 0x10;
    assert_eq!(
        device.publish_inverting_pulse(&request),
        GPIO_INVALID_ARGUMENT
    );
    request.invert_mask = 0x02;
    request.pulse_duration_milliseconds = 0;
    assert_eq!(
        device.publish_inverting_pulse(&request),
        GPIO_INVALID_ARGUMENT
    );
    request.pulse_duration_milliseconds = 10;
    request.cancel_pulse = 1;
    assert_eq!(
        device.publish_inverting_pulse(&request),
        GPIO_INVALID_ARGUMENT
    );
    request.invert_mask = 0;
    request.pulse_duration_milliseconds = 0;
    assert_eq!(device.publish_inverting_pulse(&request), GPIO_OK);

    assert_eq!(service_at(&mut device, &mut port, START), GPIO_OK);
    assert_eq!(port.writes, [0x01]);
}

#[test]
fn service_retries_after_io_failure_and_reports_statistics() {
    let (mut device, mut port) = fake_device(&ordinary_config());
    port.next_write_error = Some(-71);
    assert_eq!(service_at(&mut device, &mut port, START), GPIO_IO_ERROR);
    assert_eq!(
        service_at(&mut device, &mut port, START + MILLISECOND),
        GPIO_OK
    );
    port.reads.push_back(Err(-72));
    assert_eq!(
        service_at(&mut device, &mut port, START + 2 * MILLISECOND),
        GPIO_IO_ERROR
    );

    let mut stats = empty_stats();
    assert_eq!(device.stats(&mut stats), GPIO_OK);
    assert_eq!(stats.input_read_count, 2);
    assert_eq!(stats.output_apply_count, 2);
    assert_eq!(stats.io_error_count, 2);
    assert_eq!(stats.last_io_error, -72);
    assert_eq!(stats.applied_output_mask, 0x01);
}

#[test]
fn control_write_updates_the_next_service_baseline_and_close_is_safe() {
    let (mut device, mut port) = fake_device(&ordinary_config());
    assert_eq!(service_at(&mut device, &mut port, START), GPIO_OK);
    assert_eq!(
        control_write_data(&mut device, &mut port, u32::from(u8::MAX) + 1),
        GPIO_INVALID_ARGUMENT
    );
    port.next_write_error = Some(-71);
    assert_eq!(
        control_write_data(&mut device, &mut port, 0x08),
        GPIO_IO_ERROR
    );
    assert_eq!(control_write_data(&mut device, &mut port, 0x08), GPIO_OK);
    assert_eq!(
        service_at(&mut device, &mut port, START + MILLISECOND),
        GPIO_OK
    );
    assert_eq!(
        control_write_data(&mut device, &mut port, 0x10),
        GPIO_INVALID_ARGUMENT
    );
    close(&mut device, &mut port);

    assert_eq!(port.writes, [0x01, 0x08, 0x00]);
    let mut inputs = empty_inputs();
    inputs.online = 1;
    assert_eq!(device.inputs(&mut inputs), GPIO_OK);
    assert_eq!(inputs.online, 0);
}

#[test]
fn rtx_word_calculation_matches_the_legacy_protocol() {
    assert_eq!(
        rtx_words(146_940_000, 146_340_000, false),
        RtxWords {
            reference: 6_401,
            synthesizer: 108_896,
        }
    );
    assert_eq!(
        rtx_words(146_940_000, 146_340_000, true),
        RtxWords {
            reference: 6_401,
            synthesizer: 117_032,
        }
    );
    assert_eq!(
        rtx_words(444_500_000, 449_500_000, false),
        RtxWords {
            reference: 2_563,
            synthesizer: 135_280,
        }
    );
}

#[test]
fn rtx_settle_state_and_busy_spin_interval_match_the_legacy_protocol() {
    let mut initialized = false;
    assert_eq!(rtx_initial_delay_multiplier_for(&mut initialized), 200);
    assert_eq!(rtx_initial_delay_multiplier_for(&mut initialized), 4);
    assert_eq!(rtx_delay(0), 0);
    assert_eq!(rtx_delay(1), 100_000);
}

#[test]
fn rtx_serial_word_preserves_bit_order_and_settling_intervals() {
    let word = 0x5_4321;
    let mut output = 0xe0;
    let steps = rtx_shift_word(&mut output, word, 200);
    let writes: Vec<u8> = steps.iter().map(|step| step.data).collect();
    let delays: Vec<u32> = steps.iter().filter_map(|step| step.settle).collect();

    assert_eq!(writes.len(), 64);
    assert_eq!(delays.len(), 62);
    assert_eq!(delays[0], 200);
    assert!(delays[1..].iter().all(|&multiplier| multiplier == 1));
    assert_eq!(writes[0], 0xe0);
    for (index, bit_index) in (0..RTX_REGISTER_BITS).rev().enumerate() {
        let data = if word & (1_u32 << bit_index) != 0 {
            0xe2
        } else {
            0xe0
        };
        let offset = 1 + index * 3;
        assert_eq!(writes[offset], data);
        assert_eq!(writes[offset + 1], data | RTX_CLOCK_MASK);
        assert_eq!(writes[offset + 2], data);
    }
    assert_eq!(&writes[61..], &[0xe0, 0xe4, 0xe0]);
    assert_eq!(output, 0xe0);

    let (mut device, mut port) = fake_device(&protocol_config(0));
    port.next_write_error = Some(-91);
    assert_eq!(
        program_rtx(&mut device, &mut port, 146_940_000, 146_340_000, 0, 0),
        GPIO_IO_ERROR
    );
    assert!(port.settles.is_empty());
    let mut stats = empty_stats();
    assert_eq!(device.stats(&mut stats), GPIO_OK);
    assert_eq!(stats.last_io_error, -91);
}

#[test]
fn legacy_binary_and_rtx_operations_preserve_parallel_output_behavior() {
    let (mut device, mut port) = fake_device(&protocol_config(0x0f));
    assert_eq!(set_binary_channel(&mut device, &mut port, 5), GPIO_OK);
    assert_eq!(port.writes, [0xff, 0xaf]);

    let (mut device, mut port) = fake_device(&protocol_config(0xe0));
    assert_eq!(
        program_rtx(&mut device, &mut port, 146_940_000, 146_340_000, 1, 1),
        GPIO_OK
    );
    assert_eq!(port.writes.len(), 129);
    assert_eq!(port.writes[0], 0xe0);
    assert_eq!(port.writes[128], 0xe8);

    let (mut device, mut port) = fake_device(&protocol_config(0xff));
    assert_eq!(
        program_rtx(&mut device, &mut port, 444_500_000, 449_500_000, 0, 1),
        GPIO_OK
    );
    assert_eq!(port.writes[128] & 0x18, 0);

    let (mut device, mut port) = fake_device(&protocol_config(0xff));
    assert_eq!(clear_rtx_transmit(&mut device, &mut port), GPIO_OK);
    assert_eq!(port.writes, [0xe7]);
}

#[test]
fn protocol_write_failures_stop_before_later_control_bytes() {
    for failing_write in [0, 1] {
        let (mut device, mut port) = fake_device(&protocol_config(0));
        port.write_results = std::iter::repeat_n(Ok(()), failing_write)
            .chain([Err(-5)])
            .collect();
        assert_eq!(set_binary_channel(&mut device, &mut port, 5), GPIO_IO_ERROR);
        assert_eq!(port.writes.len(), failing_write);
    }
    for failing_write in [0, 64, 128] {
        let (mut device, mut port) = fake_device(&protocol_config(0));
        port.write_results = std::iter::repeat_n(Ok(()), failing_write)
            .chain([Err(-5)])
            .collect();
        assert_eq!(
            program_rtx(&mut device, &mut port, 146_940_000, 146_340_000, 0, 0),
            GPIO_IO_ERROR
        );
        assert_eq!(port.writes.len(), failing_write);
    }
    for transmitting in [0, 1] {
        let (mut device, mut port) = fake_device(&protocol_config(0));
        assert_eq!(
            program_rtx(
                &mut device,
                &mut port,
                146_940_000,
                146_340_000,
                transmitting,
                0
            ),
            GPIO_OK
        );
        assert_eq!(port.writes.len(), 129);
        assert_eq!(
            port.writes[128] & RTX_TRANSMIT_MASK != 0,
            transmitting != 0
        );
    }
    let (mut device, mut port) = fake_device(&protocol_config(0xff));
    port.next_write_error = Some(-5);
    assert_eq!(clear_rtx_transmit(&mut device, &mut port), GPIO_IO_ERROR);
    assert!(port.writes.is_empty());
}

#[test]
fn pulse_noops_and_remaining_invalid_fields_do_not_publish_io() {
    let (mut device, port) = fake_device(&ordinary_config());
    let mut pulse = inverting_pulse(0, 0);
    pulse.cancel_pulse = 2;
    assert_eq!(
        device.publish_inverting_pulse(&pulse),
        GPIO_INVALID_ARGUMENT
    );
    pulse.cancel_pulse = 1;
    pulse.invert_mask = 1;
    assert_eq!(
        device.publish_inverting_pulse(&pulse),
        GPIO_INVALID_ARGUMENT
    );
    pulse.cancel_pulse = 0;
    pulse.invert_mask = 0;
    assert_eq!(device.publish_inverting_pulse(&pulse), GPIO_OK);
    assert_eq!(device.outputs.pulse_generation, 0);
    let mut scheduled = scheduled_inverting_pulse(0, 0, 256);
    assert_eq!(
        device.schedule_inverting_pulse(&scheduled),
        GPIO_INVALID_ARGUMENT
    );
    scheduled.cancel_mask = 0;
    scheduled.pulse_duration_milliseconds = 1;
    assert_eq!(
        device.schedule_inverting_pulse(&scheduled),
        GPIO_INVALID_ARGUMENT
    );
    assert!(device
        .outputs
        .scheduled_pulse_generations
        .iter()
        .all(|generation| *generation == 0));
    assert!(port.writes.is_empty());
}

#[test]
fn legacy_binary_and_rtx_operations_validate_protocol_pin_ownership() {
    let (mut device, mut port) = fake_device(&ordinary_config());
    assert_eq!(
        set_binary_channel(&mut device, &mut port, 5),
        GPIO_INVALID_ARGUMENT
    );
    assert_eq!(
        program_rtx(&mut device, &mut port, 0, 146_340_000, 0, 0),
        GPIO_OK
    );
    assert_eq!(
        program_rtx(&mut device, &mut port, 146_940_000, 146_340_000, 0, 0),
        GPIO_INVALID_ARGUMENT
    );
    assert_eq!(
        clear_rtx_transmit(&mut device, &mut port),
        GPIO_INVALID_ARGUMENT
    );
}

#[test]
fn ffi_operates_a_fake_parallel_device_and_transfers_ownership() {
    let (mut device, mut port) = fake_device(&ordinary_config());
    assert_eq!(device.publish_outputs(&action(0x02)), GPIO_OK);
    assert_eq!(service_at(&mut device, &mut port, START), GPIO_OK);
    assert_eq!(
        set_binary_channel(&mut device, &mut port, 5),
        GPIO_INVALID_ARGUMENT
    );
    assert_eq!(
        program_rtx(&mut device, &mut port, 0, 146_340_000, 0, 0),
        GPIO_OK
    );
    assert_eq!(
        clear_rtx_transmit(&mut device, &mut port),
        GPIO_INVALID_ARGUMENT
    );
    assert_eq!(
        device.publish_inverting_pulse(&inverting_pulse(0x02, 1)),
        GPIO_OK
    );
    assert_eq!(service_at(&mut device, &mut port, START), GPIO_OK);
    assert_eq!(
        device.schedule_inverting_pulse(&scheduled_inverting_pulse(0, 0, 0)),
        GPIO_OK
    );

    let mut inputs = empty_inputs();
    let mut stats = empty_stats();
    assert_eq!(device.inputs(&mut inputs), GPIO_OK);
    assert_eq!(device.stats(&mut stats), GPIO_OK);
    assert_eq!(inputs.online, 1);
    assert_eq!(stats.applied_output_mask, 0x00);

    close(&mut device, &mut port);
    assert_eq!(port.writes, [0x02, 0x00, 0x00]);
}

#[test]
fn ffi_schedules_a_parallel_baseline_xor_pulse() {
    let (mut device, mut port) = fake_device(&ordinary_config());
    let request = scheduled_inverting_pulse(0x02, 10, 0);

    assert_eq!(device.schedule_inverting_pulse(&request), GPIO_OK);
    assert_eq!(service_at(&mut device, &mut port, START), GPIO_OK);
    close(&mut device, &mut port);
    assert_eq!(port.writes, [0x03, 0x00]);
}

#[test]
fn accessors_and_transport_selection_report_invalid_or_unavailable_resources() {
    let config = ordinary_config();
    let (device, _) = fake_device(&config);
    let mut inputs = empty_inputs();
    inputs.struct_size = 0;
    let mut stats = empty_stats();
    stats.struct_size = 0;
    assert_eq!(device.inputs(&mut inputs), GPIO_INVALID_ARGUMENT);
    assert_eq!(device.stats(&mut stats), GPIO_INVALID_ARGUMENT);

    let selection = |transport: u32, path: Option<Vec<u8>>, base: Option<u16>| {
        ValidatedParallelConfig {
            transport,
            ppdev_path: path,
            raw_io_base: base,
            output_enable_mask: 0xff,
            output_initial_mask: 0,
        }
    };
    let mut ppdev = FakePpdev {
        open_result: 42,
        ..FakePpdev::default()
    };
    let without_path = selection(PARALLEL_TRANSPORT_PPDEV, None, None);
    assert_eq!(
        open_transport(&without_path, &mut ppdev, Ok(())),
        Err(GPIO_INVALID_ARGUMENT)
    );
    assert!(open_transport(&validated(&config), &mut ppdev, Ok(())).is_ok());
    let raw = selection(PARALLEL_TRANSPORT_RAW_IO, None, Some(0x378));
    assert_eq!(
        open_transport(&raw, &mut ppdev, Ok(())),
        Ok(OpenAttempt::RawIo(0x378))
    );
    let automatic = selection(
        PARALLEL_TRANSPORT_AUTO,
        Some(b"/dev/null".to_vec()),
        Some(0x378),
    );
    assert_eq!(
        open_transport(&automatic, &mut ppdev, Ok(())),
        Ok(OpenAttempt::Ppdev)
    );
    ppdev.open_result = -1;
    assert_eq!(
        open_transport(&automatic, &mut ppdev, Ok(())),
        Ok(OpenAttempt::RawIo(0x378))
    );
    assert_eq!(
        open_transport(&automatic, &mut ppdev, Err(GPIO_IO_ERROR)),
        Err(GPIO_IO_ERROR)
    );
    let unsupported = selection(99, None, None);
    assert_eq!(
        open_transport(&unsupported, &mut ppdev, Ok(())),
        Err(GPIO_INVALID_ARGUMENT)
    );
    let no_base = selection(PARALLEL_TRANSPORT_RAW_IO, None, None);
    assert_eq!(
        open_transport(&no_base, &mut ppdev, Ok(())),
        Err(GPIO_INVALID_ARGUMENT)
    );
}

#[test]
fn raw_io_moves_exactly_one_byte_at_adjacent_registers() {
    assert_eq!(raw_io_data_offset(0x378), 0x378);
    assert_eq!(raw_io_status_offset(0x378), 0x379);
    assert_eq!(exact_raw_io_byte::<i32>(Ok(1)), Ok(()));
    assert_eq!(exact_raw_io_byte::<i32>(Ok(0)), Err(GPIO_IO_ERROR));
    assert_eq!(exact_raw_io_byte::<i32>(Ok(2)), Err(GPIO_IO_ERROR));
    assert_eq!(exact_raw_io_byte::<i32>(Err(-9)), Err(GPIO_IO_ERROR));
}

#[test]
fn the_process_settles_long_in_front_of_its_first_word_only() {
    let mut state = RtxSerialState { initialized: false };
    let (mut device, mut port) = fake_device(&protocol_config(0));
    let step = device.begin_program_rtx(&mut state, 146_940_000, 146_340_000, 0, 0);
    assert_eq!(drive(&mut device, step, &mut port), Some(GPIO_OK));
    let step = device.begin_program_rtx(&mut state, 146_940_000, 146_340_000, 0, 0);
    assert_eq!(drive(&mut device, step, &mut port), Some(GPIO_OK));
    let long: Vec<u32> = port
        .settles
        .iter()
        .copied()
        .filter(|multiplier| *multiplier != 1)
        .collect();
    assert_eq!(long, [200, 4, 4, 4]);
    assert_eq!(rtx_initial_delay_multiplier(&mut state), 4);
}

#[test]
fn a_receiver_on_the_lines_latches_both_words() {
    let (mut device, mut port) = fake_device(&protocol_config(0xa0));
    assert_eq!(
        program_rtx(&mut device, &mut port, 146_940_000, 146_340_000, 1, 0),
        GPIO_OK
    );
    let (mut clock, mut enable, mut shifted) = (false, false, 0_u64);
    let mut latched = Vec::new();
    for data in &port.writes {
        if data & 1 != 0 && !clock {
            shifted = (shifted << 1) | u64::from(data & 2 != 0);
        }
        if data & 4 != 0 && !enable {
            latched.push(shifted & 0xf_ffff);
        }
        clock = data & 1 != 0;
        enable = data & 4 != 0;
        assert_eq!(data & 0xe0, 0xa0);
        assert_eq!(data & 0x10, 0);
    }
    assert_eq!(latched, [6_401, 117_032]);
    assert_eq!(port.writes.iter().filter(|data| *data & 8 != 0).count(), 1);
    assert_eq!(port.writes[128], 0xa8);
}

#[test]
fn a_receive_frequency_below_the_intermediate_frequency_wraps_around() {
    assert_eq!(
        rtx_words(1, 0, false),
        RtxWords {
            reference: 6_401,
            synthesizer: 3_427_370,
        }
    );
}

#[test]
fn channel_bits_are_active_low_and_leave_the_low_nibble() {
    for channel in 0..=15_u8 {
        let (mut device, mut port) = fake_device(&protocol_config(0x35));
        assert_eq!(set_binary_channel(&mut device, &mut port, channel), GPIO_OK);
        assert_eq!(port.writes, [0xf5, ((!channel & 0x0f) << 4) | 0x05]);
    }
}

#[test]
fn closing_is_recorded_even_when_the_port_fails() {
    let (mut device, mut port) = fake_device(&ordinary_config());
    assert_eq!(service_at(&mut device, &mut port, START), GPIO_OK);
    port.next_write_error = Some(-6);
    close(&mut device, &mut port);
    let mut stats = empty_stats();
    assert_eq!(device.stats(&mut stats), GPIO_OK);
    assert_eq!(stats.applied_output_mask, 0x01);
    assert_eq!(stats.output_apply_count, 2);
    assert_eq!(stats.online, 0);
    assert_eq!(stats.last_io_error, -6);

    let (mut device, mut port) = fake_device(&ordinary_config());
    assert_eq!(service_at(&mut device, &mut port, START), GPIO_OK);
    close(&mut device, &mut port);
    assert_eq!(device.stats(&mut stats), GPIO_OK);
    assert_eq!(stats.applied_output_mask, 0);
    assert_eq!(stats.online, 0);
    assert_eq!(stats.last_io_error, 0);
}

#[test]
fn targets_without_direct_io_answer_raw_selections_as_unsupported() {
    let mut config = ordinary_config();
    config.transport = PARALLEL_TRANSPORT_AUTO;
    let only_node = validated(&config);
    assert_eq!(only_node.begin_open(false), OpenAttempt::Ppdev);
    assert_eq!(
        only_node.next_open(OpenAttempt::Ppdev, GPIO_IO_ERROR, false),
        OpenAttempt::Refused(GPIO_UNSUPPORTED)
    );
    assert_eq!(
        only_node.next_open(OpenAttempt::Ppdev, GPIO_IO_ERROR, true),
        OpenAttempt::Refused(GPIO_INVALID_ARGUMENT)
    );

    config.raw_io_base = 0x378;
    let both = validated(&config);
    assert_eq!(
        both.next_open(OpenAttempt::Ppdev, GPIO_IO_ERROR, false),
        OpenAttempt::Refused(GPIO_UNSUPPORTED)
    );
    config.transport = PARALLEL_TRANSPORT_RAW_IO;
    let raw = validated(&config);
    assert_eq!(
        raw.begin_open(false),
        OpenAttempt::Refused(GPIO_UNSUPPORTED)
    );
    assert_eq!(raw.begin_open(true), OpenAttempt::RawIo(0x378));
    let node = validated(&ordinary_config());
    assert_eq!(
        node.next_open(OpenAttempt::Ppdev, GPIO_IO_ERROR, false),
        OpenAttempt::Refused(GPIO_IO_ERROR)
    );
}

#[test]
fn a_ppdev_path_is_absolute_and_has_no_terminator() {
    let mut config = ordinary_config();
    config.ppdev_path = Some(b"dev/parport0".to_vec());
    assert!(!accepts(&config));
    config.ppdev_path = Some(b"./dev/parport0".to_vec());
    assert!(!accepts(&config));
    config.ppdev_path = Some(b"/dev/\0parport0".to_vec());
    assert!(!accepts(&config));
    config.transport = PARALLEL_TRANSPORT_AUTO;
    config.raw_io_base = 0x278;
    let setup = validated(&config);
    assert_eq!(setup.ppdev_path, None);
    assert_eq!(setup.begin_open(true), OpenAttempt::RawIo(0x278));
}

#[test]
fn declared_sizes_are_those_of_the_lp64_layouts() {
    assert_eq!(DEVICE_CONFIG_SIZE, 40);
    assert_eq!(DEVICE_INFO_SIZE, 160);
    assert_eq!(DEVICE_INFO_PREFIX_SIZE, 31);
    assert_eq!(DEVICE_LIST_SIZE, 2576);
    assert_eq!(EEPROM_IMAGE_SIZE, 144);
    assert_eq!(DEVICE_STATS_SIZE, 64);
    assert_eq!(DEVICE_STATS_PREFIX_SIZE, 48);
    assert_eq!(INVERTING_PULSE_ACTION_SIZE, 24);
    assert_eq!(SCHEDULED_INVERTING_PULSE_ACTION_SIZE, 28);
    assert_eq!(PARALLEL_CONFIG_SIZE, 40);
    assert_eq!(PARALLEL_INPUT_SNAPSHOT_SIZE, 16);
    assert_eq!(PARALLEL_OUTPUT_ACTION_SIZE, 24);
    assert_eq!(PARALLEL_INVERTING_PULSE_ACTION_SIZE, 20);
    assert_eq!(PARALLEL_SCHEDULED_INVERTING_PULSE_ACTION_SIZE, 20);
    assert_eq!(PARALLEL_STATS_SIZE, 48);
}
