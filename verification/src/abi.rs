//! Values exchanged with callers, as plain fields.
//!
//! Each structure carries the size that its caller declared; the `*_SIZE`
//! constants are the complete sizes on an LP64 target and decide which fields
//! a caller has room for.

use vstd::prelude::*;

verus! {

/// ABI version implemented by this library.
pub const ABI_VERSION: u32 = 1;

/// The request was carried out.
pub const GPIO_OK: i32 = 0;

/// The request was malformed.
pub const GPIO_INVALID_ARGUMENT: i32 = -1;

/// A USB operation failed.
pub const GPIO_USB_ERROR: i32 = -3;

/// No such device or transport exists here.
pub const GPIO_UNSUPPORTED: i32 = -4;

/// A parallel-port transport failed.
pub const GPIO_IO_ERROR: i32 = -5;

/// HID report length in bytes.
pub const HID_REPORT_BYTES: usize = 4;

/// Hub ports that one USB topology can name.
pub const PORT_CHAIN_CAPACITY: usize = 7;

/// Bytes of one USB serial number, including the terminator.
pub const DEVICE_SERIAL_CAPACITY: usize = 128;

/// Devices that one discovery snapshot can hold.
pub const DEVICE_LIST_CAPACITY: usize = 16;

/// Physical EEPROM address space in 16-bit words.
pub const EEPROM_WORD_COUNT: usize = 64;

/// Complete size of [`DeviceConfig`].
pub const DEVICE_CONFIG_SIZE: u32 = 40;

/// Complete size of [`DeviceInfo`].
pub const DEVICE_INFO_SIZE: u32 = 160;

/// Size of the [`DeviceInfo`] prefix that ends before the serial number.
pub const DEVICE_INFO_PREFIX_SIZE: u32 = 31;

/// Complete size of [`DeviceList`].
pub const DEVICE_LIST_SIZE: u32 = 2576;

/// Complete size of [`EepromImage`].
pub const EEPROM_IMAGE_SIZE: u32 = 144;

/// Complete size of [`InputSnapshot`].
pub const INPUT_SNAPSHOT_SIZE: u32 = 28;

/// Complete size of [`OutputAction`].
pub const OUTPUT_ACTION_SIZE: u32 = 16;

/// Complete size of [`InvertingPulseAction`].
pub const INVERTING_PULSE_ACTION_SIZE: u32 = 24;

/// Complete size of [`ScheduledInvertingPulseAction`].
pub const SCHEDULED_INVERTING_PULSE_ACTION_SIZE: u32 = 28;

/// Complete size of [`DeviceStats`].
pub const DEVICE_STATS_SIZE: u32 = 64;

/// Size of the [`DeviceStats`] prefix that ends before the EEPROM counters.
pub const DEVICE_STATS_PREFIX_SIZE: u32 = 48;

/// Device selection and wiring chosen by a caller.
#[derive(Clone, Debug)]
pub struct DeviceConfig {
    pub struct_size: u32,
    pub abi_version: u32,
    /// Bytes of the USB topology text, if one was given.
    pub usb_port_path: Option<Vec<u8>>,
    pub vendor_id: u16,
    pub product_id: u16,
    pub profile: u32,
    pub ptt_inverted: u32,
    pub gpio_output_enable_mask: u32,
    pub gpio_output_initial_mask: u32,
}

/// Non-owning device-probe result.
#[derive(Clone, Copy, Debug)]
pub struct DeviceInfo {
    pub struct_size: u32,
    pub abi_version: u32,
    pub present: u32,
    pub vendor_id: u16,
    pub product_id: u16,
    pub usb_bus: u32,
    pub usb_port_number_count: u32,
    pub usb_port_numbers: [u8; PORT_CHAIN_CAPACITY],
    pub serial: [u8; DEVICE_SERIAL_CAPACITY],
}

/// Bounded device-discovery snapshot.
#[derive(Clone, Copy, Debug)]
pub struct DeviceList {
    pub struct_size: u32,
    pub abi_version: u32,
    pub matching_device_count: u32,
    pub returned_device_count: u32,
    pub devices: [DeviceInfo; DEVICE_LIST_CAPACITY],
}

/// Physical-addressed user tuning EEPROM image.
#[derive(Clone, Copy, Debug)]
pub struct EepromImage {
    pub struct_size: u32,
    pub abi_version: u32,
    pub checksum_valid: u32,
    pub magic_valid: u32,
    pub words: [u16; EEPROM_WORD_COUNT],
}

/// Decoded input snapshot.
#[derive(Clone, Copy, Debug)]
pub struct InputSnapshot {
    pub struct_size: u32,
    pub abi_version: u32,
    pub online: u32,
    pub cor_active: u32,
    pub ctcss_active: u32,
    pub gpio_input_mask: u32,
    pub hid_report: [u8; HID_REPORT_BYTES],
}

/// Persistent output publication.
#[derive(Clone, Copy, Debug)]
pub struct OutputAction {
    pub struct_size: u32,
    pub abi_version: u32,
    pub ptt_asserted: u32,
    pub gpio_output_mask: u32,
}

/// Timed logical output inversion request.
#[derive(Clone, Copy, Debug)]
pub struct InvertingPulseAction {
    pub struct_size: u32,
    pub abi_version: u32,
    pub ptt_invert: u32,
    pub gpio_invert_mask: u32,
    pub pulse_duration_milliseconds: u32,
    pub cancel_pulse: u32,
}

/// Independently scheduled logical output inversion request.
#[derive(Clone, Copy, Debug)]
pub struct ScheduledInvertingPulseAction {
    pub struct_size: u32,
    pub abi_version: u32,
    pub ptt_invert: u32,
    pub gpio_invert_mask: u32,
    pub pulse_duration_milliseconds: u32,
    pub ptt_cancel: u32,
    pub gpio_cancel_mask: u32,
}

/// Service statistics snapshot.
#[derive(Clone, Copy, Debug)]
pub struct DeviceStats {
    pub struct_size: u32,
    pub abi_version: u32,
    pub input_read_count: u64,
    pub output_apply_count: u64,
    pub usb_error_count: u64,
    pub ptt_applied: u32,
    pub online: u32,
    pub last_usb_error: i32,
    pub eeprom_read_count: u64,
    pub eeprom_write_count: u64,
}

/// The flag that callers see for a truth value.
pub open spec fn flag(value: bool) -> u32 {
    if value {
        1
    } else {
        0
    }
}

/// Write one truth value as a caller's flag.
pub fn to_flag(value: bool) -> (word: u32)
    ensures
        word == flag(value),
{
    if value {
        1
    } else {
        0
    }
}

/// Success is zero, and each kind of refusal has a negative number of its own.
pub proof fn law_results_are_told_apart()
    ensures
        GPIO_OK == 0,
        GPIO_INVALID_ARGUMENT == -1,
        GPIO_USB_ERROR == -3,
        GPIO_UNSUPPORTED == -4,
        GPIO_IO_ERROR == -5,
{
}

/// A structure is complete when it has room for every field at its natural alignment, and a
/// prefix ends in front of the field that was added behind it.
pub proof fn law_sizes_cover_the_fields()
    ensures
        DEVICE_CONFIG_SIZE == 4 + 4 + 8 + 2 + 2 + 4 * 4 + 4,
        DEVICE_INFO_PREFIX_SIZE == 4 + 4 + 4 + 2 + 2 + 4 + 4 + 7,
        DEVICE_INFO_SIZE == DEVICE_INFO_PREFIX_SIZE + 128 + 1,
        DEVICE_LIST_SIZE == 4 * 4 + 16 * DEVICE_INFO_SIZE,
        EEPROM_IMAGE_SIZE == 4 * 4 + 64 * 2,
        INPUT_SNAPSHOT_SIZE == 6 * 4 + 4,
        OUTPUT_ACTION_SIZE == 4 * 4,
        INVERTING_PULSE_ACTION_SIZE == 6 * 4,
        SCHEDULED_INVERTING_PULSE_ACTION_SIZE == 7 * 4,
        DEVICE_STATS_PREFIX_SIZE == 2 * 4 + 3 * 8 + 3 * 4 + 4,
        DEVICE_STATS_SIZE == DEVICE_STATS_PREFIX_SIZE + 2 * 8,
{
}

} // verus!
