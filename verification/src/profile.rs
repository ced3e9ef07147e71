//! CM119 wiring maps and the packed words that logical states travel in.

use vstd::prelude::*;

use crate::abi::HID_REPORT_BYTES;

verus! {

/// Logical PTT bit of a packed output word.
pub const OUTPUT_PTT_BIT: u32 = 1;

/// GPIO bits begin here in a packed output word.
pub const OUTPUT_GPIO_SHIFT: u32 = 8;

/// COR bit of a packed input word.
pub const INPUT_COR_BIT: u32 = 1;

/// External CTCSS bit of a packed input word.
pub const INPUT_CTCSS_BIT: u32 = 2;

/// GPIO bits begin here in a packed input word.
pub const INPUT_GPIO_SHIFT: u32 = 8;

/// A flushed-output sentinel that no packed output word equals.
pub const UNFLUSHED_OUTPUT: u32 = u32::MAX;

/// Static wiring details for one CM119 profile.
#[derive(Clone, Copy, Debug)]
pub struct Cm119Profile {
    /// Initial output-control byte that enables the profile's PTT pin.
    pub gpio_control: u8,
    /// HID report byte holding the profile's COR input.
    pub cor_location: usize,
    /// Active-low COR bit in `cor_location`.
    pub cor_mask: u8,
    /// HID report byte holding the profile's external CTCSS input.
    pub ctcss_location: usize,
    /// Active-low external-CTCSS bit in `ctcss_location`.
    pub ctcss_mask: u8,
    /// Logical GPIO bit used for PTT.
    pub ptt_mask: u8,
    /// GPIO bits safely exposed as ordinary user outputs.
    pub valid_gpio_mask: u8,
}

/// The packed word of a logical PTT state and an ordinary GPIO byte.
pub open spec fn packed_output(ptt: bool, gpio: u8) -> u32 {
    (if ptt {
        OUTPUT_PTT_BIT
    } else {
        0
    }) | ((gpio as u32) << OUTPUT_GPIO_SHIFT)
}

/// The ordinary GPIO byte of a packed output word.
pub open spec fn unpacked_gpio(packed: u32) -> u8 {
    (packed >> OUTPUT_GPIO_SHIFT) as u8
}

/// The logical PTT state of a packed output word.
pub open spec fn unpacked_ptt(packed: u32) -> bool {
    packed & OUTPUT_PTT_BIT != 0
}

/// The packed word of the logical input states.
pub open spec fn packed_input(cor: bool, ctcss: bool, gpio: u8) -> u32 {
    (if cor {
        INPUT_COR_BIT
    } else {
        0
    }) | (if ctcss {
        INPUT_CTCSS_BIT
    } else {
        0
    }) | ((gpio as u32) << INPUT_GPIO_SHIFT)
}

/// The output bits that a device with this GPIO permission mask may ever drive.
pub open spec fn allowed_outputs(gpio_output_enable_mask: u8) -> u32 {
    packed_output(true, gpio_output_enable_mask)
}

impl Cm119Profile {
    /// The wiring map behind one public profile number.
    pub open spec fn public(value: u32) -> Option<Self> {
        if value == 0 {
            Some(
                Cm119Profile {
                    gpio_control: 0x04,
                    cor_location: 0,
                    cor_mask: 0x02,
                    ctcss_location: 0,
                    ctcss_mask: 0x01,
                    ptt_mask: 0x04,
                    valid_gpio_mask: 0xfb,
                },
            )
        } else if value == 1 {
            Some(
                Cm119Profile {
                    gpio_control: 0x08,
                    cor_location: 1,
                    cor_mask: 0x04,
                    ctcss_location: 1,
                    ctcss_mask: 0x02,
                    ptt_mask: 0x08,
                    valid_gpio_mask: 0x01,
                },
            )
        } else if value == 2 {
            Some(
                Cm119Profile {
                    gpio_control: 0x04,
                    cor_location: 0,
                    cor_mask: 0x02,
                    ctcss_location: 0,
                    ctcss_mask: 0x01,
                    ptt_mask: 0x04,
                    valid_gpio_mask: 0x00,
                },
            )
        } else if value == 3 {
            Some(
                Cm119Profile {
                    gpio_control: 0x0c,
                    cor_location: 0,
                    cor_mask: 0x02,
                    ctcss_location: 1,
                    ctcss_mask: 0x02,
                    ptt_mask: 0x04,
                    valid_gpio_mask: 0x01,
                },
            )
        } else {
            None
        }
    }

    /// Inputs lie inside a report, there is a PTT bit and no ordinary GPIO bit is that one.
    pub open spec fn well_formed(self) -> bool {
        &&& self.cor_location < HID_REPORT_BYTES
        &&& self.ctcss_location < HID_REPORT_BYTES
        &&& self.ptt_mask != 0
        &&& self.valid_gpio_mask & self.ptt_mask == 0
    }

    /// The logical GPIO byte of one input report.
    ///
    /// On the CM108AH the HOOK bit of the COR byte takes the place of GPIO2, inverted.
    pub open spec fn decoded_gpio(
        self,
        report: [u8; HID_REPORT_BYTES],
        cm108ah_hook_gpio2: bool,
    ) -> u8 {
        if !cm108ah_hook_gpio2 {
            report[1]
        } else if report[self.cor_location as int] & 0x10 != 0 {
            report[1] & !0x02
        } else {
            report[1] | 0x02
        }
    }

    /// The logical input states of one active-low input report.
    pub open spec fn decoded_inputs(
        self,
        report: [u8; HID_REPORT_BYTES],
        cm108ah_hook_gpio2: bool,
    ) -> u32 {
        packed_input(
            report[self.cor_location as int] & self.cor_mask == 0,
            report[self.ctcss_location as int] & self.ctcss_mask == 0,
            self.decoded_gpio(report, cm108ah_hook_gpio2),
        )
    }

    /// The output report for one packed output word.
    pub open spec fn encoded_outputs(
        self,
        ptt_inverted: bool,
        gpio_output_enable_mask: u8,
        packed: u32,
    ) -> [u8; HID_REPORT_BYTES] {
        let gpio = unpacked_gpio(packed);
        [
            0,
            if unpacked_ptt(packed) != ptt_inverted {
                gpio | self.ptt_mask
            } else {
                gpio
            },
            self.gpio_control | gpio_output_enable_mask,
            0,
        ]
    }

    /// Resolve a public hardware-interface profile number.
    pub fn from_public(value: u32) -> (profile: Option<Self>)
        ensures
            profile == Self::public(value),
            profile matches Some(known) ==> known.well_formed(),
    {
        assert(0xfbu8 & 0x04 == 0 && 0x01u8 & 0x08 == 0 && 0x00u8 & 0x04 == 0 && 0x01u8 & 0x04 == 0)
            by (bit_vector);
        match value {
            0 => Some(
                Self {
                    gpio_control: 0x04,
                    cor_location: 0,
                    cor_mask: 0x02,
                    ctcss_location: 0,
                    ctcss_mask: 0x01,
                    ptt_mask: 0x04,
                    valid_gpio_mask: 0xfb,
                },
            ),
            1 => Some(
                Self {
                    gpio_control: 0x08,
                    cor_location: 1,
                    cor_mask: 0x04,
                    ctcss_location: 1,
                    ctcss_mask: 0x02,
                    ptt_mask: 0x08,
                    valid_gpio_mask: 0x01,
                },
            ),
            2 => Some(
                Self {
                    gpio_control: 0x04,
                    cor_location: 0,
                    cor_mask: 0x02,
                    ctcss_location: 0,
                    ctcss_mask: 0x01,
                    ptt_mask: 0x04,
                    valid_gpio_mask: 0x00,
                },
            ),
            3 => Some(
                Self {
                    gpio_control: 0x0c,
                    cor_location: 0,
                    cor_mask: 0x02,
                    ctcss_location: 1,
                    ctcss_mask: 0x02,
                    ptt_mask: 0x04,
                    valid_gpio_mask: 0x01,
                },
            ),
            _ => None,
        }
    }

    /// Decode one active-low input report into public logical states.
    pub fn decode_inputs(self, report: [u8; HID_REPORT_BYTES], cm108ah_hook_gpio2: bool) -> (word:
        u32)
        requires
            self.cor_location < HID_REPORT_BYTES,
            self.ctcss_location < HID_REPORT_BYTES,
        ensures
            word == self.decoded_inputs(report, cm108ah_hook_gpio2),
    {
        let cor: u32 = if report[self.cor_location] & self.cor_mask == 0 {
            INPUT_COR_BIT
        } else {
            0
        };
        let ctcss: u32 = if report[self.ctcss_location] & self.ctcss_mask == 0 {
            INPUT_CTCSS_BIT
        } else {
            0
        };
        let mut gpio: u8 = report[1];
        if cm108ah_hook_gpio2 {
            // The CM108AH repurposes GPIO2 as HOOK. Radio wiring relies on its logical polarity.
            gpio = gpio | 0x02;
            if report[self.cor_location] & 0x10 != 0 {
                gpio = gpio & !0x02;
            }
        }
        proof {
            let raw = report[1];
            assert((raw | 0x02) & !0x02 == raw & !0x02) by (bit_vector);
        }
        cor | ctcss | ((gpio as u32) << INPUT_GPIO_SHIFT)
    }

    /// Form one output report from the latest logical action.
    pub fn encode_outputs(self, ptt_inverted: bool, gpio_output_enable_mask: u8, packed: u32) -> (
    report: [u8; HID_REPORT_BYTES])
        ensures
            report == self.encoded_outputs(ptt_inverted, gpio_output_enable_mask, packed),
    {
        let logical_ptt = packed & OUTPUT_PTT_BIT != 0;
        let physical_ptt = logical_ptt != ptt_inverted;
        let mut output: u8 = unpack_gpio(packed);
        if physical_ptt {
            output = output | self.ptt_mask;
        }
        [0, output, self.gpio_control | gpio_output_enable_mask, 0]
    }
}

/// Pack a logical PTT state and ordinary GPIO byte into one word.
pub fn pack_output(ptt: bool, gpio: u8) -> (packed: u32)
    ensures
        packed == packed_output(ptt, gpio),
{
    let ptt_bit: u32 = if ptt {
        OUTPUT_PTT_BIT
    } else {
        0
    };
    ptt_bit | ((gpio as u32) << OUTPUT_GPIO_SHIFT)
}

/// Extract the ordinary GPIO byte from one packed output word.
pub fn unpack_gpio(packed: u32) -> (gpio: u8)
    ensures
        gpio == unpacked_gpio(packed),
{
    #[verifier::truncate]
    ((packed >> OUTPUT_GPIO_SHIFT) as u8)
}

/// Packing keeps both parts, never forms the unflushed sentinel and leaves the reserved
/// pulse bit clear.
pub proof fn law_packed_outputs_round_trip(ptt: bool, gpio: u8)
    ensures
        unpacked_ptt(packed_output(ptt, gpio)) == ptt,
        unpacked_gpio(packed_output(ptt, gpio)) == gpio,
        packed_output(ptt, gpio) != UNFLUSHED_OUTPUT,
        packed_output(ptt, gpio) & 0x8000_0000 == 0,
{
    let bit: u32 = if ptt {
        1
    } else {
        0
    };
    let packed = bit | ((gpio as u32) << 8);
    assert((packed & 1 != 0) == (bit == 1) && (packed >> 8) as u8 == gpio && packed
        != 0xffff_ffffu32 && packed & 0x8000_0000u32 == 0) by (bit_vector)
        requires
            packed == bit | ((gpio as u32) << 8),
            bit == 0 || bit == 1,
    ;
}

/// Every logical input state can be read back from its own bits.
pub proof fn law_packed_inputs_round_trip(cor: bool, ctcss: bool, gpio: u8)
    ensures
        (packed_input(cor, ctcss, gpio) & INPUT_COR_BIT != 0) == cor,
        (packed_input(cor, ctcss, gpio) & INPUT_CTCSS_BIT != 0) == ctcss,
        packed_input(cor, ctcss, gpio) >> INPUT_GPIO_SHIFT == gpio as u32,
{
    let first: u32 = if cor {
        1
    } else {
        0
    };
    let second: u32 = if ctcss {
        2
    } else {
        0
    };
    let packed = first | second | ((gpio as u32) << 8);
    assert((packed & 1 != 0) == (first == 1) && (packed & 2 != 0) == (second == 2) && packed >> 8
        == gpio as u32) by (bit_vector)
        requires
            packed == first | second | ((gpio as u32) << 8),
            first == 0 || first == 1,
            second == 0 || second == 2,
    ;
}

/// A word inside what a device may drive is the packed word of its own parts.
pub proof fn lemma_confined_output_is_packed(packed: u32, gpio_output_enable_mask: u8)
    requires
        packed & !allowed_outputs(gpio_output_enable_mask) == 0,
    ensures
        packed == packed_output(unpacked_ptt(packed), unpacked_gpio(packed)),
        unpacked_gpio(packed) & !gpio_output_enable_mask == 0,
{
    let mask = gpio_output_enable_mask;
    let bit: u32 = if packed & 1 != 0 {
        1
    } else {
        0
    };
    assert(packed == bit | (((packed >> 8) as u8 as u32) << 8) && ((packed >> 8) as u8) & !mask
        == 0) by (bit_vector)
        requires
            packed & !(1u32 | ((mask as u32) << 8)) == 0,
            bit == (if packed & 1 != 0 {
                1u32
            } else {
                0u32
            }),
    ;
}

/// The PTT pin follows the logical PTT state and its polarity alone: no ordinary GPIO output
/// can key the radio.
pub proof fn law_only_ptt_drives_the_ptt_pin(
    profile: Cm119Profile,
    ptt_inverted: bool,
    gpio_output_enable_mask: u8,
    packed: u32,
)
    requires
        profile.well_formed(),
        gpio_output_enable_mask & !profile.valid_gpio_mask == 0,
        packed & !allowed_outputs(gpio_output_enable_mask) == 0,
    ensures
        ({
            let report = profile.encoded_outputs(ptt_inverted, gpio_output_enable_mask, packed);
            &&& (report[1] & profile.ptt_mask != 0) == (unpacked_ptt(packed) != ptt_inverted)
            &&& report[1] & !profile.ptt_mask == unpacked_gpio(packed)
        }),
{
    lemma_confined_output_is_packed(packed, gpio_output_enable_mask);
    let gpio = unpacked_gpio(packed);
    let ptt = profile.ptt_mask;
    let valid = profile.valid_gpio_mask;
    assert(gpio & ptt == 0 && (gpio | ptt) & ptt != 0 && gpio & !ptt == gpio && (gpio | ptt) & !ptt
        == gpio) by (bit_vector)
        requires
            gpio & !gpio_output_enable_mask == 0,
            gpio_output_enable_mask & !valid == 0,
            valid & ptt == 0,
            ptt != 0,
    ;
}

} // verus!
