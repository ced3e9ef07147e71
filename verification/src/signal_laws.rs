//! Which pins each public profile drives and reads.

use vstd::prelude::*;

#[allow(unused_imports)]
use crate::abi::{InputSnapshot, HID_REPORT_BYTES};
#[allow(unused_imports)]
use crate::bits::has_pin;
#[allow(unused_imports)]
use crate::device::{AfterRead, Cm119Wiring, GpioDeviceView, HidStep, PendingRead};
#[allow(unused_imports)]
use crate::device_laws::law_polled_inputs_are_observed;
#[allow(unused_imports)]
use crate::profile::Cm119Profile;

verus! {

/// How single pins of the two driven report bytes come about.
pub proof fn lemma_report_pins(packed: u32, ptt: u8, control: u8, enabled: u8, pin: u32)
    requires
        pin < 8,
    ensures
        ({
            let gpio = (packed >> 8) as u8;
            let wanted = has_pin(packed, (pin + 8) as u32);
            &&& has_pin(gpio as u32, pin) == wanted
            &&& has_pin((gpio | ptt) as u32, pin) == (wanted || has_pin(ptt as u32, pin))
            &&& has_pin((control | enabled) as u32, pin) == (has_pin(control as u32, pin) || has_pin(
                enabled as u32,
                pin,
            ))
        }),
        has_pin(0x04, pin) == (pin == 2),
        has_pin(0x08, pin) == (pin == 3),
        has_pin(0x0c, pin) == (pin == 2 || pin == 3),
{
    let bit = (pin + 8) as u32;
    let gpio = (packed >> 8) as u8;
    assert((((gpio as u32) >> pin) & 1 == 1) == ((packed >> bit) & 1 == 1) && ((((gpio | ptt) as u32)
        >> pin) & 1 == 1) == ((packed >> bit) & 1 == 1 || ((ptt as u32) >> pin) & 1 == 1) && ((((
    control | enabled) as u32) >> pin) & 1 == 1) == (((control as u32) >> pin) & 1 == 1 || ((
    enabled as u32) >> pin) & 1 == 1) && ((0x04u32 >> pin) & 1 == 1) == (pin == 2) && ((0x08u32
        >> pin) & 1 == 1) == (pin == 3) && ((0x0cu32 >> pin) & 1 == 1) == (pin == 2 || pin == 3))
        by (bit_vector)
        requires
            pin < 8,
            bit == pin + 8,
            gpio == (packed >> 8) as u8,
    ;
}

/// An output report raises the PTT pin of its profile exactly while the radio is keyed, and every
/// other pin exactly as its GPIO bit says. It switches to output exactly the pins that the profile
/// drives itself and those that are enabled. PTT is the fourth pin of profile 1 and the third pin
/// of the others; profile 3 also drives the fourth.
pub proof fn law_profiles_drive_their_own_pins(
    number: u32,
    wiring: Cm119Wiring,
    packed: u32,
    pin: u32,
)
    requires
        Cm119Profile::public(number) == Some(wiring.profile),
        pin < 8,
    ensures
        ({
            let report = wiring.report(packed);
            let keyed = (packed & 1 != 0) != wiring.ptt_inverted;
            let ptt_pin: u32 = if number == 1 {
                3
            } else {
                2
            };
            &&& number < 4
            &&& report[0] == 0
            &&& report[3] == 0
            &&& has_pin(report[1] as u32, pin) == ((keyed && pin == ptt_pin) || has_pin(
                packed,
                (pin + 8) as u32,
            ))
            &&& has_pin(report[2] as u32, pin) == (pin == ptt_pin || (number == 3 && pin == 3)
                || has_pin(wiring.gpio_output_enable_mask as u32, pin))
        }),
{
    lemma_report_pins(
        packed,
        wiring.profile.ptt_mask,
        wiring.profile.gpio_control,
        wiring.gpio_output_enable_mask,
        pin,
    );
}

/// There are exactly four public profiles, numbered from zero, and each one's ordinary GPIO pins
/// are fixed: all but the PTT pin for profile 0, the first pin for profiles 1 and 3, none for
/// profile 2.
pub proof fn law_profiles_expose_their_own_pins(number: u32, pin: u32)
    requires
        pin < 8,
    ensures
        Cm119Profile::public(number) is Some <==> number < 4,
        Cm119Profile::public(number) matches Some(profile) ==> has_pin(
            profile.valid_gpio_mask as u32,
            pin,
        ) == ((number == 0 && pin != 2) || ((number == 1 || number == 3) && pin == 0)),
{
    assert(((0xfbu32 >> pin) & 1 == 1) == (pin != 2) && ((0x01u32 >> pin) & 1 == 1) == (pin == 0) && (
    (0x00u32 >> pin) & 1 == 0)) by (bit_vector)
        requires
            pin < 8,
    ;
}

/// A polled report shows COR and CTCSS active exactly when their pins are low, on the pins that
/// the profile has them: bits 1 and 0 of the first byte for profiles 0 and 2, bits 2 and 1 of the
/// second byte for profile 1, and bit 1 of the first and bit 1 of the second byte for profile 3.
///
/// The GPIO byte is the second one. On a device with a HOOK input, the second GPIO pin instead
/// reads high exactly when bit 4 of the COR byte is low.
pub proof fn law_profiles_read_their_own_pins(
    number: u32,
    device: GpioDeviceView,
    report: [u8; HID_REPORT_BYTES],
    now: u64,
    request: InputSnapshot,
)
    requires
        Cm119Profile::public(number) == Some(device.wiring.profile),
    ensures
        ({
            let polling = PendingRead { next: AfterRead::Inputs { closing: false } };
            let (polled, step) = device.read(polling, Ok(report), now);
            let snapshot = polled.status.snapshot(request);
            let cor_low = if number == 1 {
                report[1] & 0x04 == 0
            } else {
                report[0] & 0x02 == 0
            };
            let ctcss_low = if number == 1 || number == 3 {
                report[1] & 0x02 == 0
            } else {
                report[0] & 0x01 == 0
            };
            let hook_high = if number == 1 {
                report[1] & 0x10 != 0
            } else {
                report[0] & 0x10 != 0
            };
            &&& step == HidStep::Done(0)
            &&& snapshot.cor_active == if cor_low { 1u32 } else { 0u32 }
            &&& snapshot.ctcss_active == if ctcss_low { 1u32 } else { 0u32 }
            &&& !device.wiring.cm108ah_hook_gpio2 ==> snapshot.gpio_input_mask == report[1]
            &&& device.wiring.cm108ah_hook_gpio2 && hook_high ==> snapshot.gpio_input_mask
                == report[1] & !0x02
            &&& device.wiring.cm108ah_hook_gpio2 && !hook_high ==> snapshot.gpio_input_mask
                == report[1] | 0x02
            &&& snapshot.hid_report == report
            &&& snapshot.online == if device.status.online { 1u32 } else { 0u32 }
            &&& snapshot.abi_version == 1
            &&& snapshot.struct_size == request.struct_size
        }),
{
    law_polled_inputs_are_observed(device, false, report, now, request);
}

} // verus!
