//! CM119 behaviour over a deterministic in-memory HID transport.

use std::collections::VecDeque;

use rptadv_gpio_adapter::abi::{
    DeviceConfig, DeviceStats, EepromImage, InputSnapshot, InvertingPulseAction, OutputAction,
    ScheduledInvertingPulseAction, ABI_VERSION, DEVICE_CONFIG_SIZE, DEVICE_STATS_PREFIX_SIZE,
    DEVICE_STATS_SIZE, EEPROM_IMAGE_SIZE, EEPROM_WORD_COUNT, GPIO_INVALID_ARGUMENT, GPIO_OK,
    GPIO_USB_ERROR, HID_REPORT_BYTES, INPUT_SNAPSHOT_SIZE, INVERTING_PULSE_ACTION_SIZE,
    OUTPUT_ACTION_SIZE, SCHEDULED_INVERTING_PULSE_ACTION_SIZE,
};
use rptadv_gpio_adapter::config::ValidatedConfig;
use rptadv_gpio_adapter::device::{GpioDevice, HidStep};
use rptadv_gpio_adapter::eeprom::{
    eeprom_checksum_is_valid, eeprom_checksum_word, EEPROM_CHECKSUM_WORD, EEPROM_MAGIC,
    EEPROM_MAGIC_WORD, EEPROM_START_WORD,
};
use rptadv_gpio_adapter::identity::{product_matches, CM108AH_PRODUCT_ID, CMEDIA_VENDOR_ID};
use rptadv_gpio_adapter::profile::{pack_output, unpack_gpio, Cm119Profile};
use rptadv_gpio_adapter::topology::UsbPortPath;

/// Nanoseconds in one millisecond.
const MILLISECOND: u64 = 1_000_000;

/// An arbitrary start of time.
const START: u64 = 5_000_000_000;

/// Scripted HID transport and what it has seen.
#[derive(Default)]
struct FakeHid {
    writes: Vec<[u8; HID_REPORT_BYTES]>,
    reads: VecDeque<Result<[u8; HID_REPORT_BYTES], i32>>,
    next_write_error: Option<i32>,
    fail_on_write: Option<usize>,
    write_count: usize,
}

impl FakeHid {
    fn write_report(&mut self, report: [u8; HID_REPORT_BYTES]) -> Result<(), i32> {
        self.write_count += 1;
        if let Some(error) = self.next_write_error.take() {
            return Err(error);
        }
        if self.fail_on_write == Some(self.write_count) {
            return Err(-73);
        }
        self.writes.push(report);
        Ok(())
    }

    fn read_report(&mut self) -> Result<[u8; HID_REPORT_BYTES], i32> {
        self.reads
            .pop_front()
            .unwrap_or(Ok([u8::MAX; HID_REPORT_BYTES]))
    }
}

/// Perform every pending HID operation of one step and its successors.
fn drive(device: &mut GpioDevice, first: HidStep, hid: &mut FakeHid, now: u64) -> HidStep {
    let mut step = first;
    loop {
        step = match step {
            HidStep::Write(pending) => {
                let outcome = hid.write_report(pending.report);
                device.complete_write(pending, outcome, now)
            }
            HidStep::Read(pending) => {
                let outcome = hid.read_report();
                device.complete_read(pending, outcome, now)
            }
            ended => return ended,
        };
    }
}

/// Run one service cycle.
fn service_at(device: &mut GpioDevice, hid: &mut FakeHid, now: u64) -> i32 {
    let first = device.begin_service(now);
    match drive(device, first, hid, now) {
        HidStep::Done(code) => code,
        other => panic!("a service cycle ended with {other:?}"),
    }
}

/// Close a device.
fn close(device: &mut GpioDevice, hid: &mut FakeHid, now: u64) {
    let first = device.begin_close(now);
    assert!(matches!(
        drive(device, first, hid, now),
        HidStep::Done(_)
    ));
}

/// Run one EEPROM read.
fn read_eeprom(device: &mut GpioDevice, hid: &mut FakeHid, image: &mut EepromImage) -> i32 {
    let first = device.begin_read_eeprom(*image);
    match drive(device, first, hid, START) {
        HidStep::EepromDone { code, image: filled } => {
            *image = filled;
            code
        }
        other => panic!("an EEPROM read ended with {other:?}"),
    }
}

/// Run one EEPROM write.
fn write_eeprom(device: &mut GpioDevice, hid: &mut FakeHid, image: &mut EepromImage) -> i32 {
    let first = device.begin_write_eeprom(*image);
    match drive(device, first, hid, START) {
        HidStep::EepromDone { code, image: stamped } => {
            *image = stamped;
            code
        }
        other => panic!("an EEPROM write ended with {other:?}"),
    }
}

/// A configuration matching the ordinary CM119 profile.
fn ordinary_config() -> DeviceConfig {
    DeviceConfig {
        struct_size: DEVICE_CONFIG_SIZE,
        abi_version: ABI_VERSION,
        usb_port_path: Some(b"3-1:1.0".to_vec()),
        vendor_id: 0,
        product_id: 0,
        profile: 0,
        ptt_inverted: 0,
        gpio_output_enable_mask: 1,
        gpio_output_initial_mask: 1,
    }
}

fn validated(config: &DeviceConfig) -> ValidatedConfig {
    ValidatedConfig::from_ffi(Some(config)).expect("valid CM119 configuration")
}

fn fake_device(config: &DeviceConfig) -> (GpioDevice, FakeHid) {
    fake_device_with_product(config, 0x0008)
}

fn fake_device_with_product(config: &DeviceConfig, product_id: u16) -> (GpioDevice, FakeHid) {
    (
        GpioDevice::new(&validated(config), product_id),
        FakeHid::default(),
    )
}

fn fake_device_failing_on_write(
    config: &DeviceConfig,
    fail_on_write: usize,
) -> (GpioDevice, FakeHid) {
    let (device, mut hid) = fake_device(config);
    hid.fail_on_write = Some(fail_on_write);
    (device, hid)
}

fn eeprom_image(abi_version: u32) -> EepromImage {
    EepromImage {
        struct_size: EEPROM_IMAGE_SIZE,
        abi_version,
        checksum_valid: 0,
        magic_valid: 0,
        words: [0; EEPROM_WORD_COUNT],
    }
}

fn queue_eeprom_reads(hid: &mut FakeHid, words: &[u16; EEPROM_WORD_COUNT]) {
    for value in &words[EEPROM_START_WORD..=EEPROM_CHECKSUM_WORD] {
        hid.reads
            .push_back(Ok([0, *value as u8, (*value >> 8) as u8, 0]));
    }
}

fn empty_inputs() -> InputSnapshot {
    InputSnapshot {
        struct_size: INPUT_SNAPSHOT_SIZE,
        abi_version: 0,
        online: 0,
        cor_active: 0,
        ctcss_active: 0,
        gpio_input_mask: 0,
        hid_report: [0; HID_REPORT_BYTES],
    }
}

fn empty_stats() -> DeviceStats {
    DeviceStats {
        struct_size: DEVICE_STATS_SIZE,
        abi_version: 0,
        input_read_count: 0,
        output_apply_count: 0,
        usb_error_count: 0,
        ptt_applied: 0,
        online: 0,
        last_usb_error: 0,
        eeprom_read_count: 0,
        eeprom_write_count: 0,
    }
}

#[test]
fn configuration_uses_a_stable_topology_and_default_cmedia_family() {
    let config = ordinary_config();
    let validated = validated(&config);
    assert_eq!(validated.vendor_id, CMEDIA_VENDOR_ID);
    assert_eq!(validated.product_id, None);
    assert_eq!(
        validated.usb_port_path,
        UsbPortPath {
            bus: 3,
            ports: vec![1]
        }
    );
    assert!(product_matches(None, 0x0008));
    assert!(product_matches(None, 0x013c));
    assert!(product_matches(None, 0x6a42));
    assert!(!product_matches(None, 0x9999));
    assert!(product_matches(Some(0x0008), 0x0008));
    assert!(!product_matches(Some(0x0008), 0x000c));
}

#[test]
fn configuration_rejects_unsafe_or_malformed_gpio_selection() {
    let mut config = ordinary_config();
    config.usb_port_path = Some(b"3-0".to_vec());
    assert!(ValidatedConfig::from_ffi(Some(&config)).is_none());

    config = ordinary_config();
    config.profile = 99;
    assert!(ValidatedConfig::from_ffi(Some(&config)).is_none());

    config = ordinary_config();
    config.gpio_output_enable_mask = 0x04;
    assert!(ValidatedConfig::from_ffi(Some(&config)).is_none());

    config = ordinary_config();
    config.gpio_output_initial_mask = 0x02;
    assert!(ValidatedConfig::from_ffi(Some(&config)).is_none());
}

#[test]
fn service_translates_logical_ptt_gpio_cor_and_ctcss_without_a_lock() {
    let config = ordinary_config();
    let (mut device, mut hid) = fake_device(&config);
    hid.reads.push_back(Ok([0x00, 0xa5, 0x00, 0x00]));

    assert_eq!(service_at(&mut device, &mut hid, START), GPIO_OK);
    let action = OutputAction {
        struct_size: OUTPUT_ACTION_SIZE,
        abi_version: ABI_VERSION,
        ptt_asserted: 1,
        gpio_output_mask: 0,
    };
    assert_eq!(device.publish_outputs(&action), GPIO_OK);
    assert_eq!(service_at(&mut device, &mut hid, START), GPIO_OK);

    assert_eq!(hid.writes, vec![[0, 0x01, 0x05, 0], [0, 0x04, 0x05, 0]]);

    let mut inputs = empty_inputs();
    assert_eq!(device.inputs(&mut inputs), GPIO_OK);
    assert_eq!(inputs.abi_version, ABI_VERSION);
    assert_eq!(inputs.online, 1);
    assert_eq!(inputs.cor_active, 0);
    assert_eq!(inputs.ctcss_active, 0);
    assert_eq!(inputs.gpio_input_mask, u32::from(u8::MAX));
    assert_eq!(inputs.hid_report, [u8::MAX; HID_REPORT_BYTES]);

    let mut stats = empty_stats();
    assert_eq!(device.stats(&mut stats), GPIO_OK);
    assert_eq!(stats.input_read_count, 2);
    assert_eq!(stats.output_apply_count, 2);
    assert_eq!(stats.usb_error_count, 0);
    assert_eq!(stats.ptt_applied, 1);
    assert_eq!(stats.online, 1);
}

#[test]
fn cm119_inverting_pulse_flips_ptt_and_gpio_then_restores_the_baseline() {
    let config = ordinary_config();
    let (mut device, mut hid) = fake_device(&config);

    assert_eq!(service_at(&mut device, &mut hid, START), GPIO_OK);
    let pulse = InvertingPulseAction {
        struct_size: INVERTING_PULSE_ACTION_SIZE,
        abi_version: ABI_VERSION,
        ptt_invert: 1,
        gpio_invert_mask: 1,
        pulse_duration_milliseconds: 10,
        cancel_pulse: 0,
    };
    assert_eq!(device.publish_inverting_pulse(&pulse), GPIO_OK);
    assert_eq!(
        service_at(&mut device, &mut hid, START + MILLISECOND),
        GPIO_OK
    );

    let mut stats = empty_stats();
    assert_eq!(device.stats(&mut stats), GPIO_OK);
    assert_eq!(stats.ptt_applied, 1);
    let cancel = InvertingPulseAction {
        struct_size: INVERTING_PULSE_ACTION_SIZE,
        abi_version: ABI_VERSION,
        ptt_invert: 0,
        gpio_invert_mask: 0,
        pulse_duration_milliseconds: 0,
        cancel_pulse: 1,
    };
    assert_eq!(device.publish_inverting_pulse(&cancel), GPIO_OK);
    assert_eq!(
        service_at(&mut device, &mut hid, START + 2 * MILLISECOND),
        GPIO_OK
    );
    assert_eq!(device.stats(&mut stats), GPIO_OK);
    assert_eq!(stats.ptt_applied, 0);
    assert_eq!(device.publish_inverting_pulse(&pulse), GPIO_OK);
    assert_eq!(
        service_at(&mut device, &mut hid, START + 3 * MILLISECOND),
        GPIO_OK
    );
    assert_eq!(
        service_at(&mut device, &mut hid, START + 14 * MILLISECOND),
        GPIO_OK
    );
    assert_eq!(device.stats(&mut stats), GPIO_OK);
    assert_eq!(stats.ptt_applied, 0);
    assert_eq!(
        hid.writes,
        [
            [0, 0x01, 0x05, 0],
            [0, 0x04, 0x05, 0],
            [0, 0x01, 0x05, 0],
            [0, 0x04, 0x05, 0],
            [0, 0x01, 0x05, 0],
        ]
    );
}

#[test]
fn cm119_scheduled_inverting_pulses_overlap_and_expire_independently() {
    let config = ordinary_config();
    let (mut device, mut hid) = fake_device(&config);

    assert_eq!(service_at(&mut device, &mut hid, START), GPIO_OK);
    let gpio = ScheduledInvertingPulseAction {
        struct_size: SCHEDULED_INVERTING_PULSE_ACTION_SIZE,
        abi_version: ABI_VERSION,
        ptt_invert: 0,
        gpio_invert_mask: 1,
        pulse_duration_milliseconds: 10,
        ptt_cancel: 0,
        gpio_cancel_mask: 0,
    };
    assert_eq!(device.schedule_inverting_pulse(&gpio), GPIO_OK);
    let ptt = ScheduledInvertingPulseAction {
        struct_size: SCHEDULED_INVERTING_PULSE_ACTION_SIZE,
        abi_version: ABI_VERSION,
        ptt_invert: 1,
        gpio_invert_mask: 0,
        pulse_duration_milliseconds: 20,
        ptt_cancel: 0,
        gpio_cancel_mask: 0,
    };
    assert_eq!(device.schedule_inverting_pulse(&ptt), GPIO_OK);
    assert_eq!(
        service_at(&mut device, &mut hid, START + MILLISECOND),
        GPIO_OK
    );

    let cancel_ptt = ScheduledInvertingPulseAction {
        struct_size: SCHEDULED_INVERTING_PULSE_ACTION_SIZE,
        abi_version: ABI_VERSION,
        ptt_invert: 0,
        gpio_invert_mask: 0,
        pulse_duration_milliseconds: 0,
        ptt_cancel: 1,
        gpio_cancel_mask: 0,
    };
    assert_eq!(device.schedule_inverting_pulse(&cancel_ptt), GPIO_OK);
    assert_eq!(
        service_at(&mut device, &mut hid, START + 2 * MILLISECOND),
        GPIO_OK
    );
    assert_eq!(
        service_at(&mut device, &mut hid, START + 11 * MILLISECOND),
        GPIO_OK
    );

    assert_eq!(
        hid.writes,
        [
            [0, 0x01, 0x05, 0],
            [0, 0x04, 0x05, 0],
            [0, 0x00, 0x05, 0],
            [0, 0x01, 0x05, 0],
        ]
    );
}

#[test]
fn cm119_scheduled_pulse_preserves_active_low_ptt_wiring() {
    let mut config = ordinary_config();
    config.ptt_inverted = 1;
    let (mut device, mut hid) = fake_device(&config);
    let pulse = ScheduledInvertingPulseAction {
        struct_size: SCHEDULED_INVERTING_PULSE_ACTION_SIZE,
        abi_version: ABI_VERSION,
        ptt_invert: 1,
        gpio_invert_mask: 0,
        pulse_duration_milliseconds: 10,
        ptt_cancel: 0,
        gpio_cancel_mask: 0,
    };

    assert_eq!(service_at(&mut device, &mut hid, START), GPIO_OK);
    assert_eq!(device.schedule_inverting_pulse(&pulse), GPIO_OK);
    assert_eq!(
        service_at(&mut device, &mut hid, START + MILLISECOND),
        GPIO_OK
    );
    assert_eq!(
        service_at(&mut device, &mut hid, START + 11 * MILLISECOND),
        GPIO_OK
    );
    assert_eq!(
        hid.writes,
        [[0, 0x05, 0x05, 0], [0, 0x01, 0x05, 0], [0, 0x05, 0x05, 0]]
    );
}

#[test]
fn cm119_scheduled_inverting_pulse_validates_selected_bits_and_deadlines() {
    let config = ordinary_config();
    let (mut device, _) = fake_device(&config);
    let mut action = ScheduledInvertingPulseAction {
        struct_size: SCHEDULED_INVERTING_PULSE_ACTION_SIZE,
        abi_version: ABI_VERSION,
        ptt_invert: 0,
        gpio_invert_mask: 1,
        pulse_duration_milliseconds: 10,
        ptt_cancel: 0,
        gpio_cancel_mask: 0,
    };
    action.struct_size = 0;
    assert_eq!(
        device.schedule_inverting_pulse(&action),
        GPIO_INVALID_ARGUMENT
    );
    action.struct_size = SCHEDULED_INVERTING_PULSE_ACTION_SIZE;
    action.abi_version = ABI_VERSION + 1;
    assert_eq!(
        device.schedule_inverting_pulse(&action),
        GPIO_INVALID_ARGUMENT
    );
    action.abi_version = ABI_VERSION;
    action.ptt_invert = 2;
    assert_eq!(
        device.schedule_inverting_pulse(&action),
        GPIO_INVALID_ARGUMENT
    );
    action.ptt_invert = 0;
    action.gpio_invert_mask = 2;
    assert_eq!(
        device.schedule_inverting_pulse(&action),
        GPIO_INVALID_ARGUMENT
    );
    action.gpio_invert_mask = 1;
    action.gpio_cancel_mask = 1;
    assert_eq!(
        device.schedule_inverting_pulse(&action),
        GPIO_INVALID_ARGUMENT
    );
    action.gpio_cancel_mask = 0;
    action.pulse_duration_milliseconds = 0;
    assert_eq!(
        device.schedule_inverting_pulse(&action),
        GPIO_INVALID_ARGUMENT
    );
    action.gpio_invert_mask = 0;
    action.ptt_cancel = 2;
    assert_eq!(
        device.schedule_inverting_pulse(&action),
        GPIO_INVALID_ARGUMENT
    );
    action.ptt_cancel = 0;
    assert_eq!(device.schedule_inverting_pulse(&action), GPIO_OK);
}

#[test]
fn cm119_inverting_pulse_validates_its_mask_duration_and_cancel_contract() {
    let config = ordinary_config();
    let (mut device, mut hid) = fake_device(&config);
    let mut pulse = InvertingPulseAction {
        struct_size: INVERTING_PULSE_ACTION_SIZE,
        abi_version: ABI_VERSION,
        ptt_invert: 0,
        gpio_invert_mask: 1,
        pulse_duration_milliseconds: 10,
        cancel_pulse: 0,
    };
    pulse.struct_size = 0;
    assert_eq!(
        device.publish_inverting_pulse(&pulse),
        GPIO_INVALID_ARGUMENT
    );
    pulse.struct_size = INVERTING_PULSE_ACTION_SIZE;
    pulse.abi_version = ABI_VERSION + 1;
    assert_eq!(
        device.publish_inverting_pulse(&pulse),
        GPIO_INVALID_ARGUMENT
    );
    pulse.abi_version = ABI_VERSION;
    pulse.ptt_invert = 2;
    assert_eq!(
        device.publish_inverting_pulse(&pulse),
        GPIO_INVALID_ARGUMENT
    );
    pulse.ptt_invert = 0;
    pulse.gpio_invert_mask = 2;
    assert_eq!(
        device.publish_inverting_pulse(&pulse),
        GPIO_INVALID_ARGUMENT
    );
    pulse.gpio_invert_mask = 1;
    pulse.pulse_duration_milliseconds = 0;
    assert_eq!(
        device.publish_inverting_pulse(&pulse),
        GPIO_INVALID_ARGUMENT
    );
    pulse.pulse_duration_milliseconds = 10;
    pulse.cancel_pulse = 1;
    assert_eq!(
        device.publish_inverting_pulse(&pulse),
        GPIO_INVALID_ARGUMENT
    );
    pulse.gpio_invert_mask = 0;
    pulse.pulse_duration_milliseconds = 0;
    assert_eq!(device.publish_inverting_pulse(&pulse), GPIO_OK);

    assert_eq!(service_at(&mut device, &mut hid, START), GPIO_OK);
    assert_eq!(hid.writes, [[0, 0x01, 0x05, 0]]);
}

#[test]
fn service_publishes_active_low_hardware_signaling() {
    let config = ordinary_config();
    let (mut device, mut hid) = fake_device(&config);
    hid.reads.push_back(Ok([0xfc, 0x5a, 0x00, 0x00]));
    assert_eq!(service_at(&mut device, &mut hid, START), GPIO_OK);

    let mut inputs = empty_inputs();
    assert_eq!(device.inputs(&mut inputs), GPIO_OK);
    assert_eq!(inputs.cor_active, 1);
    assert_eq!(inputs.ctcss_active, 1);
    assert_eq!(inputs.gpio_input_mask, 0x5a);
    assert_eq!(inputs.hid_report, [0xfc, 0x5a, 0x00, 0x00]);
}

#[test]
fn cm108ah_hook_is_normalized_as_logical_gpio2() {
    let config = ordinary_config();
    let (mut device, mut hid) = fake_device_with_product(&config, CM108AH_PRODUCT_ID);
    let mut inputs = empty_inputs();

    hid.reads.push_back(Ok([0x00, 0x00, 0x00, 0x00]));
    assert_eq!(service_at(&mut device, &mut hid, START), GPIO_OK);
    assert_eq!(device.inputs(&mut inputs), GPIO_OK);
    assert_eq!(inputs.gpio_input_mask, 0x02);
    assert_eq!(inputs.hid_report, [0x00, 0x00, 0x00, 0x00]);

    hid.reads.push_back(Ok([0x10, 0xff, 0x00, 0x00]));
    assert_eq!(service_at(&mut device, &mut hid, START), GPIO_OK);
    assert_eq!(device.inputs(&mut inputs), GPIO_OK);
    assert_eq!(inputs.gpio_input_mask, 0xfd);
    assert_eq!(inputs.hid_report, [0x10, 0xff, 0x00, 0x00]);
}

#[test]
fn output_publication_validates_before_an_atomic_update() {
    let config = ordinary_config();
    let (mut device, mut hid) = fake_device(&config);
    let invalid = OutputAction {
        struct_size: OUTPUT_ACTION_SIZE,
        abi_version: ABI_VERSION,
        ptt_asserted: 2,
        gpio_output_mask: 0,
    };
    assert_eq!(device.publish_outputs(&invalid), GPIO_INVALID_ARGUMENT);
    assert_eq!(service_at(&mut device, &mut hid, START), GPIO_OK);
    assert_eq!(hid.writes, vec![[0, 0x01, 0x05, 0]]);
}

#[test]
fn service_reports_transport_failures_and_recovers_on_the_next_service() {
    let config = ordinary_config();
    let (mut device, mut hid) = fake_device(&config);
    hid.next_write_error = Some(-71);
    assert_eq!(service_at(&mut device, &mut hid, START), GPIO_USB_ERROR);
    assert_eq!(service_at(&mut device, &mut hid, START), GPIO_OK);
    hid.reads.push_back(Err(-72));
    assert_eq!(service_at(&mut device, &mut hid, START), GPIO_USB_ERROR);

    let mut stats = empty_stats();
    assert_eq!(device.stats(&mut stats), GPIO_OK);
    assert_eq!(stats.output_apply_count, 2);
    assert_eq!(stats.input_read_count, 2);
    assert_eq!(stats.usb_error_count, 2);
    assert_eq!(stats.last_usb_error, -72);
}

#[test]
fn close_unkeys_and_marks_the_device_offline() {
    let config = ordinary_config();
    let (mut device, mut hid) = fake_device(&config);
    let key = OutputAction {
        struct_size: OUTPUT_ACTION_SIZE,
        abi_version: ABI_VERSION,
        ptt_asserted: 1,
        gpio_output_mask: 0,
    };
    assert_eq!(device.publish_outputs(&key), GPIO_OK);
    assert_eq!(service_at(&mut device, &mut hid, START), GPIO_OK);
    let scheduled_unkey = ScheduledInvertingPulseAction {
        struct_size: SCHEDULED_INVERTING_PULSE_ACTION_SIZE,
        abi_version: ABI_VERSION,
        ptt_invert: 1,
        gpio_invert_mask: 0,
        pulse_duration_milliseconds: 1_000,
        ptt_cancel: 0,
        gpio_cancel_mask: 0,
    };
    assert_eq!(device.schedule_inverting_pulse(&scheduled_unkey), GPIO_OK);
    assert_eq!(service_at(&mut device, &mut hid, START), GPIO_OK);
    close(&mut device, &mut hid, START);
    assert_eq!(hid.writes, vec![[0, 0x04, 0x05, 0], [0, 0x00, 0x05, 0]]);
    let mut inputs = empty_inputs();
    assert_eq!(device.inputs(&mut inputs), GPIO_OK);
    assert_eq!(inputs.online, 0);
}

#[test]
fn eeprom_read_reports_validity_and_restores_latest_gpio_outputs() {
    let config = ordinary_config();
    let (mut device, mut hid) = fake_device(&config);
    let mut expected = [0; EEPROM_WORD_COUNT];
    expected[EEPROM_MAGIC_WORD] = EEPROM_MAGIC;
    expected[EEPROM_START_WORD + 1] = 711;
    expected[EEPROM_START_WORD + 2] = 412;
    expected[EEPROM_CHECKSUM_WORD] = eeprom_checksum_word(&expected);
    queue_eeprom_reads(&mut hid, &expected);

    let mut image = eeprom_image(0);
    assert_eq!(read_eeprom(&mut device, &mut hid, &mut image), GPIO_OK);
    assert_eq!(image.abi_version, ABI_VERSION);
    assert_eq!(image.words, expected);
    assert_eq!(image.magic_valid, 1);
    assert_eq!(image.checksum_valid, 1);

    let writes = &hid.writes;
    assert_eq!(writes.len(), EEPROM_CHECKSUM_WORD - EEPROM_START_WORD + 2);
    for (offset, report) in writes[..=EEPROM_CHECKSUM_WORD - EEPROM_START_WORD]
        .iter()
        .enumerate()
    {
        assert_eq!(
            *report,
            [0x80, 0, 0, 0x80 | (EEPROM_START_WORD + offset) as u8]
        );
    }
    assert_eq!(writes.last(), Some(&[0, 0x01, 0x05, 0]));

    let mut stats = empty_stats();
    assert_eq!(device.stats(&mut stats), GPIO_OK);
    assert_eq!(stats.eeprom_read_count, 13);
    assert_eq!(stats.eeprom_write_count, 0);
    assert_eq!(stats.input_read_count, 13);
    assert_eq!(stats.output_apply_count, 14);
}

#[test]
fn eeprom_read_marks_a_corrupt_image_invalid() {
    let config = ordinary_config();
    let (mut device, mut hid) = fake_device(&config);
    queue_eeprom_reads(&mut hid, &[0; EEPROM_WORD_COUNT]);
    let mut image = eeprom_image(0);
    assert_eq!(read_eeprom(&mut device, &mut hid, &mut image), GPIO_OK);
    assert_eq!(image.magic_valid, 0);
    assert_eq!(image.checksum_valid, 0);
}

#[test]
fn eeprom_write_stamps_a_valid_image_and_restores_gpio_outputs() {
    let config = ordinary_config();
    let (mut device, mut hid) = fake_device(&config);
    let mut image = eeprom_image(ABI_VERSION);
    image.words[EEPROM_START_WORD + 1] = 711;
    image.words[EEPROM_START_WORD + 2] = 412;
    assert_eq!(write_eeprom(&mut device, &mut hid, &mut image), GPIO_OK);
    assert_eq!(image.words[EEPROM_MAGIC_WORD], EEPROM_MAGIC);
    assert!(eeprom_checksum_is_valid(&image.words));
    assert_eq!(image.magic_valid, 1);
    assert_eq!(image.checksum_valid, 1);

    let writes = &hid.writes;
    assert_eq!(writes.len(), EEPROM_CHECKSUM_WORD - EEPROM_START_WORD + 2);
    for (offset, report) in writes[..=EEPROM_CHECKSUM_WORD - EEPROM_START_WORD]
        .iter()
        .enumerate()
    {
        assert_eq!(report[0], 0x80);
        assert_eq!(report[3], 0xc0 | (EEPROM_START_WORD + offset) as u8);
    }
    assert_eq!(writes.last(), Some(&[0, 0x01, 0x05, 0]));
}

#[test]
fn eeprom_failure_does_not_leave_control_traffic_on_the_gpio_pins() {
    let config = ordinary_config();
    let (mut device, mut hid) = fake_device(&config);
    hid.next_write_error = Some(-71);
    let mut image = eeprom_image(ABI_VERSION);
    assert_eq!(
        write_eeprom(&mut device, &mut hid, &mut image),
        GPIO_USB_ERROR
    );
    assert_eq!(hid.writes, vec![[0, 0x01, 0x05, 0]]);
}

#[test]
fn eeprom_restore_failure_is_not_masked_by_a_successful_transfer() {
    let config = ordinary_config();
    let (mut device, mut hid) = fake_device_failing_on_write(&config, 14);
    let mut expected = [0; EEPROM_WORD_COUNT];
    expected[EEPROM_MAGIC_WORD] = EEPROM_MAGIC;
    expected[EEPROM_CHECKSUM_WORD] = eeprom_checksum_word(&expected);
    queue_eeprom_reads(&mut hid, &expected);
    let mut image = eeprom_image(0);
    assert_eq!(
        read_eeprom(&mut device, &mut hid, &mut image),
        GPIO_USB_ERROR
    );
    assert_eq!(image.words, expected);

    let (mut device, mut hid) = fake_device_failing_on_write(&config, 14);
    let mut image = eeprom_image(ABI_VERSION);
    assert_eq!(
        write_eeprom(&mut device, &mut hid, &mut image),
        GPIO_USB_ERROR
    );
    assert_eq!(image.words[EEPROM_MAGIC_WORD], EEPROM_MAGIC);
}

#[test]
fn eeprom_read_failure_remains_visible_after_output_restoration() {
    let config = ordinary_config();
    let (mut device, mut hid) = fake_device(&config);
    hid.reads.push_back(Err(-74));
    let mut image = eeprom_image(0);
    assert_eq!(
        read_eeprom(&mut device, &mut hid, &mut image),
        GPIO_USB_ERROR
    );
}

#[test]
fn statistics_accept_the_original_abi_prefix_without_overwriting_extension_storage() {
    let config = ordinary_config();
    let (device, _) = fake_device(&config);
    let mut stats = empty_stats();
    stats.struct_size = DEVICE_STATS_PREFIX_SIZE;
    stats.eeprom_read_count = 123;
    stats.eeprom_write_count = 456;
    assert_eq!(device.stats(&mut stats), GPIO_OK);
    assert_eq!(stats.eeprom_read_count, 123);
    assert_eq!(stats.eeprom_write_count, 456);
}

#[test]
fn configuration_accepts_each_profile_and_rejects_each_invalid_prefix() {
    for (profile, gpio_mask, gpio_control, ptt_mask) in [
        (0, 1, 0x04, 0x04),
        (1, 1, 0x08, 0x08),
        (2, 0, 0x04, 0x04),
        (3, 1, 0x0c, 0x04),
    ] {
        let mut config = ordinary_config();
        config.profile = profile;
        config.gpio_output_enable_mask = gpio_mask;
        config.gpio_output_initial_mask = gpio_mask;
        let validated = validated(&config);
        assert_eq!(validated.profile.gpio_control, gpio_control);
        assert_eq!(validated.profile.ptt_mask, ptt_mask);
    }

    let mut explicit = ordinary_config();
    explicit.vendor_id = 0x1234;
    explicit.product_id = 0x5678;
    explicit.ptt_inverted = 1;
    let explicit = validated(&explicit);
    assert_eq!(explicit.vendor_id, 0x1234);
    assert_eq!(explicit.product_id, Some(0x5678));
    assert!(explicit.ptt_inverted);

    let mut invalid = ordinary_config();
    invalid.struct_size = 0;
    assert!(ValidatedConfig::from_ffi(Some(&invalid)).is_none());
    invalid = ordinary_config();
    invalid.abi_version = ABI_VERSION + 1;
    assert!(ValidatedConfig::from_ffi(Some(&invalid)).is_none());
    invalid = ordinary_config();
    invalid.usb_port_path = None;
    assert!(ValidatedConfig::from_ffi(Some(&invalid)).is_none());
    invalid = ordinary_config();
    invalid.ptt_inverted = 2;
    assert!(ValidatedConfig::from_ffi(Some(&invalid)).is_none());
    invalid = ordinary_config();
    invalid.gpio_output_enable_mask = u32::from(u8::MAX) + 1;
    assert!(ValidatedConfig::from_ffi(Some(&invalid)).is_none());
    invalid = ordinary_config();
    invalid.gpio_output_initial_mask = u32::from(u8::MAX) + 1;
    assert!(ValidatedConfig::from_ffi(Some(&invalid)).is_none());
    assert!(ValidatedConfig::from_ffi(None).is_none());
}

#[test]
fn usb_topology_parser_accepts_only_a_stable_nonzero_port_chain() {
    assert_eq!(
        UsbPortPath::parse(b"12-1.2:1.0"),
        Some(UsbPortPath {
            bus: 12,
            ports: vec![1, 2],
        })
    );
    for value in [
        "0-1",
        "1",
        "1-",
        "1-0",
        "1-1.0",
        "1-1.2.3.4.5.6.7.8",
        "x-1",
        "1-x",
    ] {
        assert_eq!(UsbPortPath::parse(value.as_bytes()), None, "{value:?}");
    }
    let invalid_utf8 = [b'1', b'-', 0xff];
    assert_eq!(UsbPortPath::parse(&invalid_utf8), None);
}

#[test]
fn profiles_encode_ptt_polarity_and_decode_inputs() {
    let profile = Cm119Profile::from_public(1).expect("profile one");
    assert_eq!(
        profile.encode_outputs(false, 1, pack_output(true, 1)),
        [0, 0x09, 0x09, 0]
    );
    assert_eq!(
        profile.encode_outputs(true, 1, pack_output(true, 1)),
        [0, 0x01, 0x09, 0]
    );
    assert_eq!(
        profile.decode_inputs([0xfb, 0xa5, 0, 0], false),
        2 | (0xa5_u32 << 8)
    );
    assert!(Cm119Profile::from_public(4).is_none());
    assert_eq!(unpack_gpio(pack_output(false, 0xa5)), 0xa5);
}

#[test]
fn device_accessors_reject_short_prefixes_and_invalid_output_forms() {
    let mut config = ordinary_config();
    config.gpio_output_enable_mask = 3;
    config.gpio_output_initial_mask = 0;
    let (mut device, mut hid) = fake_device(&config);
    let valid = OutputAction {
        struct_size: OUTPUT_ACTION_SIZE,
        abi_version: ABI_VERSION,
        ptt_asserted: 0,
        gpio_output_mask: 3,
    };
    assert_eq!(device.publish_outputs(&valid), GPIO_OK);

    let mut invalid = valid;
    invalid.struct_size = 0;
    assert_eq!(device.publish_outputs(&invalid), GPIO_INVALID_ARGUMENT);
    invalid = valid;
    invalid.abi_version = ABI_VERSION + 1;
    assert_eq!(device.publish_outputs(&invalid), GPIO_INVALID_ARGUMENT);
    invalid = valid;
    invalid.ptt_asserted = 2;
    assert_eq!(device.publish_outputs(&invalid), GPIO_INVALID_ARGUMENT);
    invalid = valid;
    invalid.gpio_output_mask = u32::from(u8::MAX) + 1;
    assert_eq!(device.publish_outputs(&invalid), GPIO_INVALID_ARGUMENT);
    invalid = valid;
    invalid.gpio_output_mask = 4;
    assert_eq!(device.publish_outputs(&invalid), GPIO_INVALID_ARGUMENT);

    let mut inputs = empty_inputs();
    inputs.struct_size = 0;
    assert_eq!(device.inputs(&mut inputs), GPIO_INVALID_ARGUMENT);
    let mut stats = empty_stats();
    stats.struct_size = 0;
    assert_eq!(device.stats(&mut stats), GPIO_INVALID_ARGUMENT);

    let mut image = eeprom_image(ABI_VERSION);
    image.struct_size = 0;
    assert_eq!(
        read_eeprom(&mut device, &mut hid, &mut image),
        GPIO_INVALID_ARGUMENT
    );
    assert_eq!(
        write_eeprom(&mut device, &mut hid, &mut image),
        GPIO_INVALID_ARGUMENT
    );
    image = eeprom_image(ABI_VERSION + 1);
    assert_eq!(
        write_eeprom(&mut device, &mut hid, &mut image),
        GPIO_INVALID_ARGUMENT
    );
    assert!(hid.writes.is_empty());
}

#[test]
fn c_abi_operates_a_fake_device_and_transfers_ownership_on_close() {
    let config = ordinary_config();
    let (mut device, mut hid) = fake_device(&config);
    let action = OutputAction {
        struct_size: OUTPUT_ACTION_SIZE,
        abi_version: ABI_VERSION,
        ptt_asserted: 1,
        gpio_output_mask: 0,
    };
    assert_eq!(device.publish_outputs(&action), GPIO_OK);
    assert_eq!(service_at(&mut device, &mut hid, START), GPIO_OK);
    let pulse = InvertingPulseAction {
        struct_size: INVERTING_PULSE_ACTION_SIZE,
        abi_version: ABI_VERSION,
        ptt_invert: 1,
        gpio_invert_mask: 0,
        pulse_duration_milliseconds: 1,
        cancel_pulse: 0,
    };
    assert_eq!(device.publish_inverting_pulse(&pulse), GPIO_OK);
    assert_eq!(service_at(&mut device, &mut hid, START), GPIO_OK);

    let mut inputs = empty_inputs();
    assert_eq!(device.inputs(&mut inputs), GPIO_OK);
    assert_eq!(inputs.online, 1);
    let mut stats = empty_stats();
    assert_eq!(device.stats(&mut stats), GPIO_OK);
    assert_eq!(stats.ptt_applied, 0);

    let mut expected = [0; EEPROM_WORD_COUNT];
    expected[EEPROM_MAGIC_WORD] = EEPROM_MAGIC;
    expected[EEPROM_CHECKSUM_WORD] = eeprom_checksum_word(&expected);
    queue_eeprom_reads(&mut hid, &expected);
    let mut image = eeprom_image(0);
    assert_eq!(read_eeprom(&mut device, &mut hid, &mut image), GPIO_OK);
    image = eeprom_image(ABI_VERSION);
    assert_eq!(write_eeprom(&mut device, &mut hid, &mut image), GPIO_OK);

    close(&mut device, &mut hid, START);
    assert_eq!(hid.writes.last(), Some(&[0, 0, 0x05, 0]));
}

#[test]
fn c_abi_schedules_a_cm119_baseline_xor_pulse() {
    let config = ordinary_config();
    let (mut device, mut hid) = fake_device(&config);
    let action = ScheduledInvertingPulseAction {
        struct_size: SCHEDULED_INVERTING_PULSE_ACTION_SIZE,
        abi_version: ABI_VERSION,
        ptt_invert: 0,
        gpio_invert_mask: 1,
        pulse_duration_milliseconds: 10,
        ptt_cancel: 0,
        gpio_cancel_mask: 0,
    };

    assert_eq!(device.schedule_inverting_pulse(&action), GPIO_OK);
    assert_eq!(service_at(&mut device, &mut hid, START), GPIO_OK);
    close(&mut device, &mut hid, START);
    assert_eq!(hid.writes, [[0, 0x00, 0x05, 0], [0, 0x01, 0x05, 0]]);
}

#[test]
fn a_failed_flush_keeps_the_newest_action_and_sends_it_again() {
    let config = ordinary_config();
    let (mut device, mut hid) = fake_device(&config);
    let key = OutputAction {
        struct_size: OUTPUT_ACTION_SIZE,
        abi_version: ABI_VERSION,
        ptt_asserted: 1,
        gpio_output_mask: 1,
    };
    assert_eq!(device.publish_outputs(&key), GPIO_OK);
    hid.next_write_error = Some(-19);
    assert_eq!(service_at(&mut device, &mut hid, START), GPIO_USB_ERROR);
    assert!(hid.writes.is_empty());
    assert_eq!(service_at(&mut device, &mut hid, START), GPIO_OK);
    assert_eq!(service_at(&mut device, &mut hid, START), GPIO_OK);
    assert_eq!(hid.writes, [[0, 0x05, 0x05, 0]]);
    let mut stats = empty_stats();
    assert_eq!(device.stats(&mut stats), GPIO_OK);
    assert_eq!(stats.output_apply_count, 2);
    assert_eq!(stats.input_read_count, 2);
    assert_eq!(stats.last_usb_error, 0);
    assert_eq!(stats.usb_error_count, 1);
}

#[test]
fn closing_goes_offline_even_when_the_interface_is_gone() {
    let config = ordinary_config();
    let (mut device, mut hid) = fake_device(&config);
    hid.next_write_error = Some(-4);
    close(&mut device, &mut hid, START);
    let mut inputs = empty_inputs();
    assert_eq!(device.inputs(&mut inputs), GPIO_OK);
    assert_eq!(inputs.online, 0);
}

#[test]
fn a_pulse_ends_exactly_at_its_deadline() {
    let config = ordinary_config();
    let (mut device, mut hid) = fake_device(&config);
    assert_eq!(service_at(&mut device, &mut hid, START), GPIO_OK);
    let pulse = InvertingPulseAction {
        struct_size: INVERTING_PULSE_ACTION_SIZE,
        abi_version: ABI_VERSION,
        ptt_invert: 0,
        gpio_invert_mask: 1,
        pulse_duration_milliseconds: 10,
        cancel_pulse: 0,
    };
    assert_eq!(device.publish_inverting_pulse(&pulse), GPIO_OK);
    assert_eq!(service_at(&mut device, &mut hid, START), GPIO_OK);
    assert_eq!(
        service_at(&mut device, &mut hid, START + 10 * MILLISECOND - 1),
        GPIO_OK
    );
    assert_eq!(hid.writes.len(), 2);
    assert_eq!(
        service_at(&mut device, &mut hid, START + 10 * MILLISECOND),
        GPIO_OK
    );
    assert_eq!(
        hid.writes,
        [[0, 0x01, 0x05, 0], [0, 0x00, 0x05, 0], [0, 0x01, 0x05, 0]]
    );
}

#[test]
fn a_later_schedule_replaces_the_deadline_of_its_bit_only() {
    let mut config = ordinary_config();
    config.gpio_output_enable_mask = 3;
    config.gpio_output_initial_mask = 0;
    let (mut device, mut hid) = fake_device(&config);
    let schedule = |gpio: u32, milliseconds: u32| ScheduledInvertingPulseAction {
        struct_size: SCHEDULED_INVERTING_PULSE_ACTION_SIZE,
        abi_version: ABI_VERSION,
        ptt_invert: 0,
        gpio_invert_mask: gpio,
        pulse_duration_milliseconds: milliseconds,
        ptt_cancel: 0,
        gpio_cancel_mask: 0,
    };
    assert_eq!(device.schedule_inverting_pulse(&schedule(3, 5)), GPIO_OK);
    assert_eq!(device.schedule_inverting_pulse(&schedule(1, 20)), GPIO_OK);
    assert_eq!(service_at(&mut device, &mut hid, START), GPIO_OK);
    assert_eq!(
        service_at(&mut device, &mut hid, START + 5 * MILLISECOND),
        GPIO_OK
    );
    assert_eq!(
        service_at(&mut device, &mut hid, START + 20 * MILLISECOND),
        GPIO_OK
    );
    assert_eq!(
        hid.writes,
        [[0, 0x03, 0x07, 0], [0, 0x01, 0x07, 0], [0, 0x00, 0x07, 0]]
    );
}

#[test]
fn eeprom_words_read_back_from_a_chip_that_keeps_them() {
    let config = ordinary_config();
    let (mut device, mut hid) = fake_device(&config);
    let mut chip = [0x1111_u16; EEPROM_WORD_COUNT];
    let mut image = eeprom_image(ABI_VERSION);
    for (address, word) in image.words.iter_mut().enumerate() {
        *word = 0x4000 + address as u16;
    }
    assert_eq!(write_eeprom(&mut device, &mut hid, &mut image), GPIO_OK);
    for report in &hid.writes {
        if report[0] == 0x80 {
            let address = usize::from(report[3] & 0x3f);
            chip[address] = u16::from(report[1]) | (u16::from(report[2]) << 8);
        }
    }
    assert!(chip[..EEPROM_START_WORD].iter().all(|word| *word == 0x1111));
    assert_eq!(chip[EEPROM_START_WORD..], image.words[EEPROM_START_WORD..]);
    assert_eq!(chip[EEPROM_MAGIC_WORD], EEPROM_MAGIC);
    assert_eq!(chip[52], 0x4000 + 52);

    queue_eeprom_reads(&mut hid, &chip);
    let mut copy = eeprom_image(0);
    assert_eq!(read_eeprom(&mut device, &mut hid, &mut copy), GPIO_OK);
    assert_eq!(copy.words[EEPROM_START_WORD..], image.words[EEPROM_START_WORD..]);
    assert!(copy.words[..EEPROM_START_WORD].iter().all(|word| *word == 0));
    assert_eq!((copy.checksum_valid, copy.magic_valid), (1, 1));
    let mut stats = empty_stats();
    assert_eq!(device.stats(&mut stats), GPIO_OK);
    assert_eq!((stats.eeprom_read_count, stats.eeprom_write_count), (13, 13));
}

#[test]
fn the_checksum_of_an_empty_image_is_one() {
    let words = [0_u16; EEPROM_WORD_COUNT];
    assert_eq!(eeprom_checksum_word(&words), 1);
    assert!(!eeprom_checksum_is_valid(&words));
    let mut stamped = words;
    stamped[EEPROM_CHECKSUM_WORD] = 1;
    assert!(eeprom_checksum_is_valid(&stamped));
    let mut marked = words;
    marked[EEPROM_MAGIC_WORD] = EEPROM_MAGIC;
    assert_eq!(eeprom_checksum_word(&marked), 0x79e8);
}

#[test]
fn topology_texts_follow_decimal_and_separator_rules() {
    let named = |text: &[u8]| UsbPortPath::parse(text).map(|path| (path.bus, path.ports));
    assert_eq!(named(b"3-1"), Some((3, vec![1])));
    assert_eq!(named(b"+3-1"), None);
    assert_eq!(named(b"3-+1"), None);
    assert_eq!(named(b"3-1.+2"), None);
    assert_eq!(named(b"+3-01.+2"), None);
    assert_eq!(named(b"255-255"), Some((255, vec![255])));
    assert_eq!(named(b"1-1.2.3.4.5.6.7"), Some((1, vec![1, 2, 3, 4, 5, 6, 7])));
    assert_eq!(named(b"3-1:anything-at.all"), Some((3, vec![1])));
    assert_eq!(named(b"256-1"), None);
    assert_eq!(named(b"3-256"), None);
    assert_eq!(named(b"3-1..2"), None);
    assert_eq!(named(b"3--1"), None);
    assert_eq!(named(b" 3-1"), None);
    assert_eq!(named(b"+-1"), None);
    assert_eq!(named(b":3-1"), None);
    assert_eq!(named(b""), None);
    assert_eq!(named(b"3-1:\xc3\xa9"), Some((3, vec![1])));
    assert_eq!(named(b"3-1:\xc3"), None);
}
