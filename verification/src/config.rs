//! Validation of a caller's device selection.

use vstd::prelude::*;

use crate::abi::{DeviceConfig, ABI_VERSION, DEVICE_CONFIG_SIZE};
use crate::identity::CMEDIA_VENDOR_ID;
use crate::profile::Cm119Profile;
#[allow(unused_imports)]
use crate::topology::{topology_of, UsbPortPath};

verus! {

/// Setup state constructed after validation.
#[derive(Debug)]
pub struct ValidatedConfig {
    /// Required physical USB path.
    pub usb_port_path: UsbPortPath,
    /// Resolved USB vendor identifier.
    pub vendor_id: u16,
    /// Optional exact USB product identifier; absent selects the known family.
    pub product_id: Option<u16>,
    /// Immutable selected wiring map.
    pub profile: Cm119Profile,
    /// Logical PTT inversion.
    pub ptt_inverted: bool,
    /// Ordinary GPIO output permission mask.
    pub gpio_output_enable_mask: u8,
    /// Initial ordinary GPIO output values.
    pub gpio_output_initial_mask: u8,
}

/// Whether a mask fits in one GPIO byte.
pub open spec fn is_byte_mask(mask: u32) -> bool {
    mask <= 0xff
}

/// Whether a caller's selection is complete, safe for its profile and well formed.
pub open spec fn is_acceptable(config: DeviceConfig) -> bool {
    &&& config.struct_size >= DEVICE_CONFIG_SIZE
    &&& config.abi_version == ABI_VERSION
    &&& config.usb_port_path matches Some(path) && topology_of(path@) is Some
    &&& config.ptt_inverted <= 1
    &&& is_byte_mask(config.gpio_output_enable_mask)
    &&& is_byte_mask(config.gpio_output_initial_mask)
    &&& Cm119Profile::public(config.profile) matches Some(profile)
        && config.gpio_output_enable_mask as u8 & !profile.valid_gpio_mask == 0
    &&& config.gpio_output_initial_mask as u8 & !(config.gpio_output_enable_mask as u8) == 0
}

impl ValidatedConfig {
    /// The selected wiring is safe: only exposed pins are enabled and only enabled pins start high.
    pub open spec fn well_formed(self) -> bool {
        &&& self.usb_port_path@.well_formed()
        &&& self.profile.well_formed()
        &&& self.gpio_output_enable_mask & !self.profile.valid_gpio_mask == 0
        &&& self.gpio_output_initial_mask & !self.gpio_output_enable_mask == 0
    }

    /// Whether this is the setup that an acceptable selection asks for.
    pub open spec fn is_setup_of(self, config: DeviceConfig) -> bool {
        &&& config.usb_port_path matches Some(path) && topology_of(path@) == Some(
            self.usb_port_path@,
        )
        &&& self.vendor_id == (if config.vendor_id == 0 {
            CMEDIA_VENDOR_ID
        } else {
            config.vendor_id
        })
        &&& self.product_id == (if config.product_id == 0 {
            None
        } else {
            Some(config.product_id)
        })
        &&& Cm119Profile::public(config.profile) == Some(self.profile)
        &&& self.ptt_inverted == (config.ptt_inverted != 0)
        &&& self.gpio_output_enable_mask == config.gpio_output_enable_mask
        &&& self.gpio_output_initial_mask == config.gpio_output_initial_mask
    }

    /// Validate one caller's configuration without opening a USB device.
    pub fn from_ffi(config: Option<&DeviceConfig>) -> (validated: Option<Self>)
        ensures
            validated is Some <==> (config matches Some(selection) && is_acceptable(*selection)),
            validated matches Some(setup) ==> setup.well_formed() && setup.is_setup_of(*config->0),
    {
        let config: &DeviceConfig = match config {
            Some(config) => config,
            None => {
                return None;
            },
        };
        if config.struct_size < DEVICE_CONFIG_SIZE || config.abi_version != ABI_VERSION
            || config.ptt_inverted > 1 || config.gpio_output_enable_mask > 0xff
            || config.gpio_output_initial_mask > 0xff {
            return None;
        }
        let usb_port_path: UsbPortPath = match &config.usb_port_path {
            Some(path) => match UsbPortPath::parse(path.as_slice()) {
                Some(parsed) => parsed,
                None => {
                    return None;
                },
            },
            None => {
                return None;
            },
        };
        let profile: Cm119Profile = match Cm119Profile::from_public(config.profile) {
            Some(profile) => profile,
            None => {
                return None;
            },
        };
        let enable_mask: u8 = config.gpio_output_enable_mask as u8;
        let initial_mask: u8 = config.gpio_output_initial_mask as u8;
        if enable_mask & !profile.valid_gpio_mask != 0 || initial_mask & !enable_mask != 0 {
            return None;
        }
        Some(
            Self {
                usb_port_path,
                vendor_id: if config.vendor_id == 0 {
                    CMEDIA_VENDOR_ID
                } else {
                    config.vendor_id
                },
                product_id: if config.product_id != 0 {
                    Some(config.product_id)
                } else {
                    None
                },
                profile,
                ptt_inverted: config.ptt_inverted != 0,
                gpio_output_enable_mask: enable_mask,
                gpio_output_initial_mask: initial_mask,
            },
        )
    }
}

} // verus!
